//! Insertion-ordered maps from `indexmap`, and the sequence model that their
//! contracts speak of: a map is the sequence of its entries in order, with
//! distinct keys.

use crate::completion::{Message, MessageView};
use crate::manager::ConversationMetadata;
use indexmap::IndexMap;
use vstd::prelude::*;

verus! {

#[verifier::external_type_specification]
#[verifier::external_body]
#[verifier::reject_recursive_types(K)]
#[verifier::reject_recursive_types(V)]
#[verifier::reject_recursive_types(S)]
pub struct ExIndexMap<K, V, S>(IndexMap<K, V, S>);

/// No key occurs twice.
pub open spec fn keys_unique<K, V>(s: Seq<(K, V)>) -> bool {
    forall|i: int, j: int|
        0 <= i < s.len() && 0 <= j < s.len() && i != j ==> (#[trigger] s[i]).0 != (#[trigger] s[j]).0
}

pub open spec fn has_key<K, V>(s: Seq<(K, V)>, k: K) -> bool {
    exists|i: int| 0 <= i < s.len() && (#[trigger] s[i]).0 == k
}

/// The position of `k`, where it occurs.
pub open spec fn key_pos<K, V>(s: Seq<(K, V)>, k: K) -> int {
    choose|i: int| 0 <= i < s.len() && (#[trigger] s[i]).0 == k
}

/// Sets the value of `k`: in place where `k` occurs, else as a new last entry.
pub open spec fn upsert<K, V>(s: Seq<(K, V)>, k: K, v: V) -> Seq<(K, V)> {
    if has_key(s, k) {
        s.update(key_pos(s, k), (k, v))
    } else {
        s.push((k, v))
    }
}

/// Drops the entry of `k`, keeping the order of the others.
pub open spec fn remove_key<K, V>(s: Seq<(K, V)>, k: K) -> Seq<(K, V)> {
    if has_key(s, k) {
        s.remove(key_pos(s, k))
    } else {
        s
    }
}

pub proof fn lemma_key_pos<K, V>(s: Seq<(K, V)>, k: K, i: int)
    requires
        keys_unique(s),
        0 <= i < s.len(),
        s[i].0 == k,
    ensures
        has_key(s, k),
        key_pos(s, k) == i,
{
}

pub proof fn lemma_upsert_unique<K, V>(s: Seq<(K, V)>, k: K, v: V)
    requires
        keys_unique(s),
    ensures
        keys_unique(upsert(s, k, v)),
        upsert(s, k, v).len() == if has_key(s, k) { s.len() } else { s.len() + 1 },
{
    let r = upsert(s, k, v);
    if has_key(s, k) {
        let p = key_pos(s, k);
        assert forall|i: int, j: int|
            0 <= i < r.len() && 0 <= j < r.len() && i != j implies (#[trigger] r[i]).0 != (#[trigger] r[j]).0 by {
            assert(r[i].0 == s[i].0);
            assert(r[j].0 == s[j].0);
        }
    } else {
        assert forall|i: int, j: int|
            0 <= i < r.len() && 0 <= j < r.len() && i != j implies (#[trigger] r[i]).0 != (#[trigger] r[j]).0 by {
            if i < s.len() && j < s.len() {
                assert(r[i] == s[i] && r[j] == s[j]);
            } else if i < s.len() {
                assert(r[i] == s[i]);
            } else {
                assert(r[j] == s[j]);
            }
        }
    }
}

pub proof fn lemma_remove_unique<K, V>(s: Seq<(K, V)>, k: K)
    requires
        keys_unique(s),
    ensures
        keys_unique(remove_key(s, k)),
        !has_key(remove_key(s, k), k),
        remove_key(s, k).len() == if has_key(s, k) { s.len() - 1 } else { s.len() as int },
{
    if has_key(s, k) {
        let p = key_pos(s, k);
        let r = s.remove(p);
        assert forall|i: int, j: int|
            0 <= i < r.len() && 0 <= j < r.len() && i != j implies (#[trigger] r[i]).0 != (#[trigger] r[j]).0 by {
            let si = if i < p { i } else { i + 1 };
            let sj = if j < p { j } else { j + 1 };
            assert(r[i] == s[si] && r[j] == s[sj]);
        }
        if has_key(r, k) {
            let i = choose|i: int| 0 <= i < r.len() && (#[trigger] r[i]).0 == k;
            let si = if i < p { i } else { i + 1 };
            assert(r[i] == s[si]);
        }
    }
}

/// The entries of a map of stream chunks: chunk id and chunk text, in order.
pub uninterp spec fn chunk_entries(m: IndexMap<String, String>) -> Seq<(Seq<char>, Seq<char>)>;

/// Relies on `IndexMap::new`: an empty map.
#[verifier::external_body]
pub(crate) fn chunk_map_new() -> (r: IndexMap<String, String>)
    ensures
        chunk_entries(r) == Seq::<(Seq<char>, Seq<char>)>::empty(),
{
    IndexMap::new()
}

/// Relies on `IndexMap::insert`: an existing key keeps its place and takes the
/// new value; a new key goes last.
#[verifier::external_body]
pub(crate) fn chunk_map_insert(m: &mut IndexMap<String, String>, k: String, v: String)
    ensures
        chunk_entries(*final(m)) == upsert(chunk_entries(*old(m)), k@, v@),
{
    m.insert(k, v);
}

/// Relies on `IndexMap::values`: the values in the map's order.
#[verifier::external_body]
pub(crate) fn chunk_map_values(m: &IndexMap<String, String>) -> (r: Vec<String>)
    ensures
        r@.len() == chunk_entries(*m).len(),
        forall|i: int| 0 <= i < r@.len() ==> (#[trigger] r@[i])@ == chunk_entries(*m)[i].1,
{
    m.values().cloned().collect()
}

/// The entries of a map of messages: message id and message, in conversation
/// order.
pub uninterp spec fn message_entries(m: IndexMap<u128, Message>) -> Seq<(u128, MessageView)>;

/// Relies on `IndexMap::new`: an empty map.
#[verifier::external_body]
pub(crate) fn message_map_new() -> (r: IndexMap<u128, Message>)
    ensures
        message_entries(r) == Seq::<(u128, MessageView)>::empty(),
{
    IndexMap::new()
}

/// Relies on `IndexMap::insert`: an existing key keeps its place and takes the
/// new value; a new key goes last.
#[verifier::external_body]
pub(crate) fn message_map_insert(m: &mut IndexMap<u128, Message>, k: u128, v: Message)
    ensures
        message_entries(*final(m)) == upsert(message_entries(*old(m)), k, v@),
{
    m.insert(k, v);
}

/// Relies on `IndexMap::shift_remove`: the entry of `k` goes, the others keep
/// their order.
#[verifier::external_body]
pub(crate) fn message_map_shift_remove(m: &mut IndexMap<u128, Message>, k: u128)
    ensures
        message_entries(*final(m)) == remove_key(message_entries(*old(m)), k),
{
    m.shift_remove(&k);
}

/// Relies on `IndexMap::len`: the number of entries.
#[verifier::external_body]
pub(crate) fn message_map_len(m: &IndexMap<u128, Message>) -> (r: usize)
    ensures
        r == message_entries(*m).len(),
{
    m.len()
}

/// Relies on `IndexMap::get_index`: the entry at position `i`.
#[verifier::external_body]
pub(crate) fn message_map_get_index(m: &IndexMap<u128, Message>, i: usize) -> (r: (u128, &Message))
    requires
        i < message_entries(*m).len(),
    ensures
        r.0 == message_entries(*m)[i as int].0,
        r.1@ == message_entries(*m)[i as int].1,
{
    let (k, v) = m.get_index(i).unwrap();
    (*k, v)
}

/// The entries of a listing of saved conversations: conversation id, and the
/// file name and title of its metadata, in listing order.
pub uninterp spec fn listing_entries(m: IndexMap<u128, ConversationMetadata>) -> Seq<(u128, (Seq<char>, Seq<char>))>;

/// Relies on `IndexMap::new`: an empty map.
#[verifier::external_body]
pub(crate) fn listing_new() -> (r: IndexMap<u128, ConversationMetadata>)
    ensures
        listing_entries(r) == Seq::<(u128, (Seq<char>, Seq<char>))>::empty(),
{
    IndexMap::new()
}

/// Relies on `IndexMap::insert`: an existing key keeps its place and takes the
/// new value; a new key goes last.
#[verifier::external_body]
pub(crate) fn listing_insert(m: &mut IndexMap<u128, ConversationMetadata>, k: u128, v: ConversationMetadata)
    ensures
        listing_entries(*final(m)) == upsert(listing_entries(*old(m)), k, v@),
{
    m.insert(k, v);
}

/// Relies on `IndexMap::shift_remove`: the entry of `k` goes, the others keep
/// their order.
#[verifier::external_body]
pub(crate) fn listing_shift_remove(m: &mut IndexMap<u128, ConversationMetadata>, k: u128)
    ensures
        listing_entries(*final(m)) == remove_key(listing_entries(*old(m)), k),
{
    m.shift_remove(&k);
}

/// Relies on `IndexMap::len`: the number of entries.
#[verifier::external_body]
pub(crate) fn listing_len(m: &IndexMap<u128, ConversationMetadata>) -> (r: usize)
    ensures
        r == listing_entries(*m).len(),
{
    m.len()
}

/// Relies on `IndexMap::get_index`: the entry at position `i`.
#[verifier::external_body]
pub(crate) fn listing_get_index(m: &IndexMap<u128, ConversationMetadata>, i: usize) -> (r: (u128, &ConversationMetadata))
    requires
        i < listing_entries(*m).len(),
    ensures
        r.0 == listing_entries(*m)[i as int].0,
        r.1@ == listing_entries(*m)[i as int].1,
{
    let (k, v) = m.get_index(i).unwrap();
    (*k, v)
}

} // verus!
