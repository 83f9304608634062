//! Reading an announced offer: which MIME types are asked for, and how the
//! payloads that came back are gathered into one map.

use crate::mime_map::{mime_map_insert, mime_map_new, mime_pairs, payload_from_vec, put, MimePair};
use crate::search::{first_where, lemma_first_where};
use crate::text::{chars_of, has_prefix, matches_at};
use bytes::Bytes;
use indexmap::IndexMap;
use vstd::prelude::*;
use vstd::string::*;

verus! {

/// The views of a sequence of strings.
pub open spec fn texts(v: Seq<String>) -> Seq<Seq<char>> {
    v.map_values(|s: String| s@)
}

/// The test for a MIME type of an image.
pub open spec fn is_image() -> spec_fn(Seq<char>) -> bool {
    |m: Seq<char>| has_prefix(m, "image/"@)
}

/// Some announced MIME type is that of an image.
pub open spec fn has_image(mimes: Seq<Seq<char>>) -> bool {
    first_where(mimes, is_image()) < mimes.len()
}

/// The one image type that is read when several are announced: PNG before
/// JPEG before BMP before whichever image type was announced first.
pub open spec fn preferred_image(mimes: Seq<Seq<char>>) -> Seq<char> {
    if mimes.contains("image/png"@) {
        "image/png"@
    } else if mimes.contains("image/jpeg"@) {
        "image/jpeg"@
    } else if mimes.contains("image/bmp"@) {
        "image/bmp"@
    } else {
        mimes[first_where(mimes, is_image())]
    }
}

/// The MIME types that are read from an offer that announced `mimes`: a
/// single image type if any image type was announced, else all of them.
pub open spec fn targets_of(mimes: Seq<Seq<char>>) -> Seq<Seq<char>> {
    if has_image(mimes) {
        seq![preferred_image(mimes)]
    } else {
        mimes
    }
}

/// What came back for one MIME type: the bytes read, or `None` if the pipe
/// could not be made or read.
pub type ReadResult = (Seq<char>, Option<Seq<u8>>);

/// The map after the result of one read: a payload that has bytes is stored
/// under its MIME type; an empty or failed read leaves the map as it is.
pub open spec fn recorded(pairs: Seq<MimePair>, read: ReadResult) -> Seq<MimePair> {
    match read.1 {
        Some(data) => if data.len() > 0 {
            put(pairs, read.0, data)
        } else {
            pairs
        },
        None => pairs,
    }
}

/// The map that the results of all reads give, taken in order.
pub open spec fn assembled(reads: Seq<ReadResult>) -> Seq<MimePair>
    decreases reads.len(),
{
    if reads.len() == 0 {
        Seq::empty()
    } else {
        recorded(assembled(reads.drop_last()), reads.last())
    }
}

/// The view of one read result.
pub open spec fn read_view(r: (String, Option<Vec<u8>>)) -> ReadResult {
    (
        r.0@,
        match r.1 {
            Some(v) => Some(v@),
            None => None,
        },
    )
}

/// Whether `needle` is one of `mimes`.
fn announces(mimes: &Vec<String>, needle: &str) -> (r: bool)
    ensures
        r == texts(mimes@).contains(needle@),
{
    let wanted = String::from_str(needle);
    let mut i: usize = 0;
    while i < mimes.len()
        invariant
            i <= mimes.len(),
            wanted@ == needle@,
            forall|k: int| 0 <= k < i ==> texts(mimes@)[k] != needle@,
        decreases mimes.len() - i,
    {
        if mimes[i] == wanted {
            assert(texts(mimes@)[i as int] == needle@);
            return true;
        }
        i += 1;
    }
    false
}

/// The position of the first image type among `mimes`.
fn first_image(mimes: &Vec<String>) -> (r: usize)
    ensures
        r == first_where(texts(mimes@), is_image()),
        r <= mimes.len(),
{
    let prefix = chars_of("image/");
    let mut i: usize = 0;
    while i < mimes.len()
        invariant
            i <= mimes.len(),
            prefix@ == "image/"@,
            forall|k: int| 0 <= k < i ==> !is_image()(#[trigger] texts(mimes@)[k]),
        decreases mimes.len() - i,
    {
        let m = chars_of(mimes[i].as_str());
        if matches_at(&m, &prefix, 0) {
            proof {
                assert(is_image()(texts(mimes@)[i as int]));
                lemma_first_where(texts(mimes@), is_image(), i as int);
            }
            return i;
        }
        i += 1;
    }
    proof {
        lemma_first_where(texts(mimes@), is_image(), i as int);
    }
    i
}

/// The MIME types to read from an offer that announced `mimes`.
pub fn read_targets(mimes: &Vec<String>) -> (r: Vec<String>)
    ensures
        texts(r@) == targets_of(texts(mimes@)),
{
    let at = first_image(mimes);
    let mut out: Vec<String> = Vec::new();
    if at < mimes.len() {
        let pick = if announces(mimes, "image/png") {
            String::from_str("image/png")
        } else if announces(mimes, "image/jpeg") {
            String::from_str("image/jpeg")
        } else if announces(mimes, "image/bmp") {
            String::from_str("image/bmp")
        } else {
            mimes[at].clone()
        };
        out.push(pick);
        assert(texts(out@) =~= seq![preferred_image(texts(mimes@))]);
    } else {
        let mut i: usize = 0;
        while i < mimes.len()
            invariant
                i <= mimes.len(),
                out@.len() == i,
                forall|k: int| 0 <= k < i ==> (#[trigger] out@[k])@ == mimes@[k]@,
            decreases mimes.len() - i,
        {
            out.push(mimes[i].clone());
            i += 1;
        }
        assert(texts(out@) =~= texts(mimes@));
    }
    out
}

/// Gathers the results of the reads into one map, in the order of the reads.
pub fn assemble_payloads(reads: Vec<(String, Option<Vec<u8>>)>) -> (r: IndexMap<String, Bytes>)
    ensures
        mime_pairs(r) == assembled(reads@.map_values(|x: (String, Option<Vec<u8>>)| read_view(x))),
{
    let ghost all = reads@.map_values(|x: (String, Option<Vec<u8>>)| read_view(x));
    let mut map = mime_map_new();
    let mut reads = reads;
    let mut rest: Vec<(String, Option<Vec<u8>>)> = Vec::new();
    // The reads are taken from the back, so turn them round first.
    while reads.len() > 0
        invariant
            rest@.len() + reads@.len() == all.len(),
            forall|k: int| 0 <= k < reads@.len() ==> read_view(#[trigger] reads@[k]) == all[k],
            forall|k: int|
                0 <= k < rest@.len() ==> read_view(#[trigger] rest@[k]) == all[all.len() - 1 - k],
        decreases reads.len(),
    {
        let x = reads.pop().unwrap();
        rest.push(x);
    }
    let ghost mut done: int = 0;
    assert(all.take(0) =~= Seq::<ReadResult>::empty());
    while rest.len() > 0
        invariant
            0 <= done <= all.len(),
            rest@.len() + done == all.len(),
            forall|k: int|
                0 <= k < rest@.len() ==> read_view(#[trigger] rest@[k]) == all[all.len() - 1 - k],
            mime_pairs(map) == assembled(all.take(done)),
        decreases rest.len(),
    {
        let (mime, data) = rest.pop().unwrap();
        proof {
            assert(all.take(done + 1).drop_last() =~= all.take(done));
            assert(all.take(done + 1).last() == all[done]);
        }
        match data {
            Some(bytes) => {
                if bytes.len() > 0 {
                    let _ = mime_map_insert(&mut map, mime, payload_from_vec(bytes));
                }
            },
            None => {},
        }
        proof {
            done = done + 1;
        }
    }
    assert(all.take(done) =~= all);
    map
}

} // verus!
