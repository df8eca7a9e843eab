//! Request bodies: named fields whose values are JSON text, merged with a
//! model's extra parameters and framed as one JSON object.

use crate::config::{copy_pairs, pair_view};
use crate::ordered::{keys_unique, lemma_upsert_unique, upsert};
use vstd::prelude::*;
use vstd::string::*;

verus! {

/// The JSON string literal for `s`, quotes and escapes included.
pub uninterp spec fn json_quoted(s: Seq<char>) -> Seq<char>;

/// Relies on the `Display` of `serde_json::Value::String`: the compact JSON
/// text of a string, which depends on the string alone.
#[verifier::external_body]
pub(crate) fn quote_json(s: &str) -> (r: String)
    ensures
        r@ == json_quoted(s@),
{
    serde_json::Value::String(s.to_string()).to_string()
}

pub open spec fn pairs_view(v: Seq<(String, String)>) -> Seq<(Seq<char>, Seq<char>)> {
    v.map_values(|p: (String, String)| pair_view(p))
}

/// The fields of a request, each a name and the JSON text of its value.
#[derive(Clone, Debug)]
pub struct RequestBody {
    fields: Vec<(String, String)>,
}

impl View for RequestBody {
    type V = Seq<(Seq<char>, Seq<char>)>;

    closed spec fn view(&self) -> Seq<(Seq<char>, Seq<char>)> {
        pairs_view(self.fields@)
    }
}

/// `extra` laid over `fields` one entry after another: a name already present
/// takes the new value in place, a new name goes last.
pub open spec fn merge_spec(fields: Seq<(Seq<char>, Seq<char>)>, extra: Seq<(Seq<char>, Seq<char>)>) -> Seq<(Seq<char>, Seq<char>)>
    decreases extra.len(),
{
    if extra.len() == 0 {
        fields
    } else {
        let e = extra.last();
        upsert(merge_spec(fields, extra.drop_last()), e.0, e.1)
    }
}

/// `"name":value` pairs separated by commas.
pub open spec fn members_json(fields: Seq<(Seq<char>, Seq<char>)>) -> Seq<char>
    decreases fields.len(),
{
    if fields.len() == 0 {
        Seq::empty()
    } else {
        let f = fields.last();
        let before = fields.drop_last();
        members_json(before) + (if before.len() == 0 { Seq::empty() } else { ","@ }) + json_quoted(f.0) + ":"@ + f.1
    }
}

/// The JSON object text of a list of fields.
pub open spec fn object_json(fields: Seq<(Seq<char>, Seq<char>)>) -> Seq<char> {
    "{"@ + members_json(fields) + "}"@
}

proof fn lemma_upsert_views(v: Seq<(String, String)>, i: int, k: String, val: String)
    requires
        0 <= i < v.len(),
        pair_view(v[i]).0 == k@,
    ensures
        pairs_view(v.update(i, (k, val))) == pairs_view(v).update(i, (k@, val@)),
{
    assert(pairs_view(v.update(i, (k, val))) =~= pairs_view(v).update(i, (k@, val@)));
}

impl RequestBody {
    /// Names are distinct.
    pub closed spec fn wf(&self) -> bool {
        keys_unique(self@)
    }

    /// A body with no field.
    pub fn new() -> (r: RequestBody)
        ensures
            r.wf(),
            r@ == Seq::<(Seq<char>, Seq<char>)>::empty(),
    {
        let r = RequestBody { fields: Vec::new() };
        assert(r@ =~= Seq::<(Seq<char>, Seq<char>)>::empty());
        r
    }

    /// Sets field `name` to the JSON text `value`: in place where the name is
    /// already present, else as the last field.
    pub fn set(&mut self, name: String, value: String)
        requires
            old(self).wf(),
        ensures
            final(self).wf(),
            final(self)@ == upsert(old(self)@, name@, value@),
    {
        proof {
            lemma_upsert_unique(self@, name@, value@);
        }
        let mut i: usize = 0;
        while i < self.fields.len()
            invariant
                i <= self.fields.len(),
                self@ == old(self)@,
                keys_unique(self@),
                forall|j: int| 0 <= j < i ==> (#[trigger] self@[j]).0 != name@,
            decreases self.fields.len() - i,
        {
            if self.fields[i].0 == name {
                let ghost before = self.fields@;
                proof {
                    assert(self@[i as int].0 == name@);
                    crate::ordered::lemma_key_pos(self@, name@, i as int);
                    lemma_upsert_views(before, i as int, name, value);
                }
                self.fields.set(i, (name, value));
                return;
            }
            assert(self@[i as int].0 != name@);
            i = i + 1;
        }
        let ghost before = self.fields@;
        self.fields.push((name, value));
        assert(pairs_view(self.fields@) =~= pairs_view(before).push((name@, value@)));
    }

    /// Sets field `name` to the JSON string literal of `text`.
    pub fn set_text(&mut self, name: &str, text: &str)
        requires
            old(self).wf(),
        ensures
            final(self).wf(),
            final(self)@ == upsert(old(self)@, name@, json_quoted(text@)),
    {
        self.set(name.to_owned(), quote_json(text));
    }

    /// Lays `extra` over the fields, entry by entry.
    pub fn merge(&mut self, extra: &Vec<(String, String)>)
        requires
            old(self).wf(),
        ensures
            final(self).wf(),
            final(self)@ == merge_spec(old(self)@, pairs_view(extra@)),
    {
        let ghost start = self@;
        let copy = copy_pairs(extra);
        let mut i: usize = 0;
        while i < copy.len()
            invariant
                i <= copy.len(),
                self.wf(),
                pairs_view(copy@) == pairs_view(extra@),
                self@ == merge_spec(start, pairs_view(copy@).take(i as int)),
            decreases copy.len() - i,
        {
            assert(pairs_view(copy@).take(i + 1).drop_last() =~= pairs_view(copy@).take(i as int));
            let p = &copy[i];
            assert(pairs_view(copy@)[i as int] == pair_view(copy@[i as int]));
            self.set(p.0.clone(), p.1.clone());
            i = i + 1;
        }
        assert(pairs_view(copy@).take(copy.len() as int) =~= pairs_view(copy@));
    }

    /// The body as one compact JSON object.
    pub fn to_json(&self) -> (r: String)
        ensures
            r@ == object_json(self@),
    {
        let mut members = String::new();
        let mut i: usize = 0;
        while i < self.fields.len()
            invariant
                i <= self.fields.len(),
                members@ == members_json(self@.take(i as int)),
            decreases self.fields.len() - i,
        {
            assert(self@.take(i + 1).drop_last() =~= self@.take(i as int));
            let f = &self.fields[i];
            assert(self@[i as int] == pair_view(self.fields@[i as int]));
            if i > 0 {
                members.append(",");
            }
            let key = quote_json(f.0.as_str());
            members.append(key.as_str());
            members.append(":");
            members.append(f.1.as_str());
            i = i + 1;
        }
        assert(self@.take(self.fields.len() as int) =~= self@);
        let mut r = String::from_str("{");
        r.append(members.as_str());
        r.append("}");
        r
    }
}

} // verus!
