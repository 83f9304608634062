//! The MIME payload map: an insertion-ordered map from MIME type to payload,
//! kept in an `indexmap::IndexMap<String, bytes::Bytes>`.
//!
//! Verus does not look inside either type. What a payload and a map hold is
//! named by [`payload_bytes`] and [`mime_pairs`], and the functions at the end
//! of this file say, without proof, what the methods of the two crates do to
//! those contents.

use bytes::Bytes;
use indexmap::IndexMap;
use vstd::prelude::*;

verus! {

/// `bytes::Bytes`, a cheaply cloned run of bytes. Nothing is known of a value
/// but what the functions below say.
#[verifier::external_type_specification]
#[verifier::external_body]
pub struct ExBytes(bytes::Bytes);

/// `indexmap::IndexMap`, a hash map that keeps its pairs in the order in
/// which their keys were first inserted. Nothing is known of a value but
/// what the functions below say.
#[verifier::external_type_specification]
#[verifier::external_body]
#[verifier::reject_recursive_types(K)]
#[verifier::reject_recursive_types(V)]
#[verifier::reject_recursive_types(S)]
pub struct ExIndexMap<K, V, S>(indexmap::IndexMap<K, V, S>);

/// A MIME type paired with its payload, as plain values.
pub type MimePair = (Seq<char>, Seq<u8>);

/// The bytes that a payload holds.
pub uninterp spec fn payload_bytes(b: Bytes) -> Seq<u8>;

/// The pairs of MIME type and payload that a map holds, in the map's order.
pub uninterp spec fn mime_pairs(m: IndexMap<String, Bytes>) -> Seq<MimePair>;

/// The payload stored under `key`: that of the first pair with this key.
pub open spec fn lookup(pairs: Seq<MimePair>, key: Seq<char>) -> Option<Seq<u8>>
    decreases pairs.len(),
{
    if pairs.len() == 0 {
        None
    } else if pairs[0].0 == key {
        Some(pairs[0].1)
    } else {
        lookup(pairs.drop_first(), key)
    }
}

/// The pairs after `value` is stored under `key`: a pair with this key keeps
/// its place and takes the new value; otherwise the new pair comes last.
pub open spec fn put(pairs: Seq<MimePair>, key: Seq<char>, value: Seq<u8>) -> Seq<MimePair>
    decreases pairs.len(),
{
    if pairs.len() == 0 {
        seq![(key, value)]
    } else if pairs[0].0 == key {
        pairs.update(0, (key, value))
    } else {
        seq![pairs[0]] + put(pairs.drop_first(), key, value)
    }
}

/// The MIME types of the pairs, in order.
pub open spec fn keys_of(pairs: Seq<MimePair>) -> Seq<Seq<char>> {
    pairs.map_values(|p: MimePair| p.0)
}

/// `Bytes::from(Vec<u8>)`: the payload holds the bytes of the vector.
#[verifier::external_body]
pub(crate) fn payload_from_vec(v: Vec<u8>) -> (b: Bytes)
    ensures
        payload_bytes(b) == v@,
{
    Bytes::from(v)
}

/// `Bytes::as_ref`: the slice of the bytes held.
#[verifier::external_body]
pub(crate) fn payload_as_slice(b: &Bytes) -> (s: &[u8])
    ensures
        s@ == payload_bytes(*b),
{
    b.as_ref()
}

/// `IndexMap::new`: a map without pairs.
#[verifier::external_body]
pub(crate) fn mime_map_new() -> (m: IndexMap<String, Bytes>)
    ensures
        mime_pairs(m) == Seq::<MimePair>::empty(),
{
    IndexMap::new()
}

/// `IndexMap::insert`: an equal key keeps its place in the order and has its
/// value replaced, the old value being returned; a new key is added last.
#[verifier::external_body]
pub(crate) fn mime_map_insert(m: &mut IndexMap<String, Bytes>, key: String, value: Bytes) -> (prev:
    Option<Bytes>)
    ensures
        mime_pairs(*final(m)) == put(mime_pairs(*old(m)), key@, payload_bytes(value)),
        match prev {
            Some(b) => lookup(mime_pairs(*old(m)), key@) == Some(payload_bytes(b)),
            None => lookup(mime_pairs(*old(m)), key@) is None,
        },
{
    m.insert(key, value)
}

/// `IndexMap::len`: the number of pairs held.
#[verifier::external_body]
pub(crate) fn mime_map_len(m: &IndexMap<String, Bytes>) -> (n: usize)
    ensures
        n == mime_pairs(*m).len(),
{
    m.len()
}

/// `IndexMap::get`: the value stored under an equal key, if there is one.
#[verifier::external_body]
pub(crate) fn mime_map_get<'a>(m: &'a IndexMap<String, Bytes>, key: &str) -> (r: Option<&'a Bytes>)
    ensures
        match r {
            Some(b) => lookup(mime_pairs(*m), key@) == Some(payload_bytes(*b)),
            None => lookup(mime_pairs(*m), key@) is None,
        },
{
    m.get(key)
}

/// `IndexMap::get_index`: the pair at a position in the order, if the position
/// is below the length.
#[verifier::external_body]
pub(crate) fn mime_map_get_index<'a>(m: &'a IndexMap<String, Bytes>, index: usize) -> (r: Option<
    (&'a String, &'a Bytes),
>)
    ensures
        r is Some <==> index < mime_pairs(*m).len(),
        r is Some ==> (r->Some_0.0@, payload_bytes(*r->Some_0.1)) == mime_pairs(*m)[index as int],
{
    m.get_index(index)
}

/// `IndexMap::clone`: a map with the same pairs in the same order.
#[verifier::external_body]
pub(crate) fn mime_map_clone(m: &IndexMap<String, Bytes>) -> (r: IndexMap<String, Bytes>)
    ensures
        mime_pairs(r) == mime_pairs(*m),
{
    m.clone()
}

} // verus!
