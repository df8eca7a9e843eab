//! Reassembly of streamed output: chunks arrive tagged with an id, a repeated
//! id replaces its text in place, and the text shown is every chunk in the
//! order its id was first seen.

use crate::completion::CompletionStatus;
use crate::ordered::{
    chunk_entries, has_key, lemma_key_pos, chunk_map_insert, chunk_map_new, chunk_map_values, keys_unique, lemma_upsert_unique,
    upsert,
};
use indexmap::IndexMap;
use vstd::prelude::*;
use vstd::string::*;

verus! {

/// The event kind that ends a stream.
pub open spec fn done_kind() -> Seq<char> {
    "done"@
}

/// The texts of the entries, concatenated in order.
pub open spec fn joined(s: Seq<(Seq<char>, Seq<char>)>) -> Seq<char>
    decreases s.len(),
{
    if s.len() == 0 {
        Seq::empty()
    } else {
        joined(s.drop_last()) + s.last().1
    }
}

/// The mathematical value of a [`ChunkAccumulator`].
pub struct AccumulatorView {
    pub chunks: Seq<(Seq<char>, Seq<char>)>,
    pub done: bool,
}

/// What one event does to an accumulator: nothing once it is done; a "done"
/// event ends it; any other event sets the text of its chunk id.
pub open spec fn accept_spec(a: AccumulatorView, kind: Seq<char>, id: Seq<char>, text: Seq<char>) -> AccumulatorView {
    if a.done {
        a
    } else if kind == done_kind() {
        AccumulatorView { chunks: a.chunks, done: true }
    } else {
        AccumulatorView { chunks: upsert(a.chunks, id, text), done: false }
    }
}

/// The text that an accumulator shows.
pub open spec fn content_spec(a: AccumulatorView) -> Seq<char> {
    joined(a.chunks)
}

/// Collects the chunks of one streamed completion.
pub struct ChunkAccumulator {
    chunks: IndexMap<String, String>,
    done: bool,
}

impl View for ChunkAccumulator {
    type V = AccumulatorView;

    closed spec fn view(&self) -> AccumulatorView {
        AccumulatorView { chunks: chunk_entries(self.chunks), done: self.done }
    }
}

impl ChunkAccumulator {
    /// Chunk ids are distinct.
    pub closed spec fn wf(&self) -> bool {
        keys_unique(chunk_entries(self.chunks))
    }

    /// An accumulator with no chunk, not done.
    pub fn new() -> (r: ChunkAccumulator)
        ensures
            r.wf(),
            r@.chunks == Seq::<(Seq<char>, Seq<char>)>::empty(),
            !r@.done,
    {
        ChunkAccumulator { chunks: chunk_map_new(), done: false }
    }

    /// Takes one stream event. Returns whether it was a chunk that was taken
    /// in: false for the "done" event and for anything after it.
    pub fn accept(&mut self, kind: String, id: String, text: String) -> (taken: bool)
        requires
            old(self).wf(),
        ensures
            final(self).wf(),
            final(self)@ == accept_spec(old(self)@, kind@, id@, text@),
            taken == (!old(self)@.done && kind@ != done_kind()),
    {
        if self.done {
            return false;
        }
        let done = String::from_str("done");
        if kind == done {
            self.done = true;
            false
        } else {
            proof {
                lemma_upsert_unique(chunk_entries(self.chunks), id@, text@);
            }
            chunk_map_insert(&mut self.chunks, id, text);
            true
        }
    }

    /// Whether the "done" event has come.
    pub fn is_done(&self) -> (r: bool)
        ensures
            r == self@.done,
    {
        self.done
    }

    /// The text so far: every chunk's text, in the order the ids were first
    /// seen.
    pub fn content(&self) -> (r: String)
        ensures
            r@ == content_spec(self@),
    {
        let values = chunk_map_values(&self.chunks);
        let ghost entries = chunk_entries(self.chunks);
        let mut r = String::new();
        let mut i: usize = 0;
        while i < values.len()
            invariant
                i <= values.len(),
                values@.len() == entries.len(),
                entries == chunk_entries(self.chunks),
                forall|j: int| 0 <= j < values@.len() ==> (#[trigger] values@[j])@ == entries[j].1,
                r@ == joined(entries.take(i as int)),
            decreases values.len() - i,
        {
            assert(entries.take(i + 1).drop_last() =~= entries.take(i as int));
            r.append(values[i].as_str());
            i = i + 1;
        }
        assert(entries.take(values.len() as int) =~= entries);
        r
    }

    /// `Succeeded` once done, `Processing` before.
    pub fn status(&self) -> (r: CompletionStatus)
        ensures
            r == (if self@.done { CompletionStatus::Succeeded } else { CompletionStatus::Processing }),
    {
        if self.done {
            CompletionStatus::Succeeded
        } else {
            CompletionStatus::Processing
        }
    }
}

/// Events taken in one after another, each an event kind, a chunk id and a
/// text.
pub open spec fn accept_all(a: AccumulatorView, events: Seq<(Seq<char>, Seq<char>, Seq<char>)>) -> AccumulatorView
    decreases events.len(),
{
    if events.len() == 0 {
        a
    } else {
        let e = events.last();
        accept_spec(accept_all(a, events.drop_last()), e.0, e.1, e.2)
    }
}

/// Once the "done" event has been taken, no sequence of further events alters
/// the accumulator, so the final text stays as it was.
pub proof fn lemma_done_is_final(a: AccumulatorView, events: Seq<(Seq<char>, Seq<char>, Seq<char>)>)
    requires
        a.done,
    ensures
        accept_all(a, events) == a,
        content_spec(accept_all(a, events)) == content_spec(a),
    decreases events.len(),
{
    if events.len() > 0 {
        lemma_done_is_final(a, events.drop_last());
    }
}

/// A replaced chunk keeps the place where its id was first seen: chunks with
/// distinct ids `a`, `b`, then `a` again with a new text, then `c`, show the
/// new text of `a`, then the text of `b`, then that of `c`.
pub proof fn lemma_replacement_keeps_position(
    kind: Seq<char>,
    a: Seq<char>,
    b: Seq<char>,
    c: Seq<char>,
    text_a: Seq<char>,
    text_b: Seq<char>,
    text_a2: Seq<char>,
    text_c: Seq<char>,
)
    requires
        kind != done_kind(),
        a != b,
        a != c,
        b != c,
    ensures
        content_spec(
            accept_spec(
                accept_spec(
                    accept_spec(
                        accept_spec(AccumulatorView { chunks: Seq::empty(), done: false }, kind, a, text_a),
                        kind,
                        b,
                        text_b,
                    ),
                    kind,
                    a,
                    text_a2,
                ),
                kind,
                c,
                text_c,
            ),
        ) == text_a2 + text_b + text_c,
{
    let e = Seq::<(Seq<char>, Seq<char>)>::empty();
    assert(!has_key(e, a));
    let s1 = upsert(e, a, text_a);
    assert(s1 =~= seq![(a, text_a)]);
    assert(!has_key(s1, b)) by {
        if has_key(s1, b) {
            let i = choose|i: int| 0 <= i < s1.len() && (#[trigger] s1[i]).0 == b;
            assert(i == 0);
        }
    }
    let s2 = upsert(s1, b, text_b);
    assert(s2 =~= seq![(a, text_a), (b, text_b)]);
    lemma_upsert_unique(e, a, text_a);
    lemma_upsert_unique(s1, b, text_b);
    lemma_key_pos(s2, a, 0);
    let s3 = upsert(s2, a, text_a2);
    assert(s3 =~= seq![(a, text_a2), (b, text_b)]);
    assert(!has_key(s3, c)) by {
        if has_key(s3, c) {
            let i = choose|i: int| 0 <= i < s3.len() && (#[trigger] s3[i]).0 == c;
            assert(i == 0 || i == 1);
        }
    }
    let s4 = upsert(s3, c, text_c);
    assert(s4 =~= seq![(a, text_a2), (b, text_b), (c, text_c)]);
    assert(s4.drop_last() =~= s3);
    let one = seq![(a, text_a2)];
    assert(s3.drop_last() =~= one);
    assert(one.drop_last() =~= e);
    assert(joined(e) == Seq::<char>::empty());
    assert(joined(one) == joined(one.drop_last()) + one.last().1);
    assert(joined(one) =~= text_a2);
    assert(joined(s3) =~= text_a2 + text_b);
}

} // verus!
