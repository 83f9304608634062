//! What holds of the history over whole runs of operations.

use crate::mime_map::MimePair;
use crate::preview::derived_preview;
use crate::store_model::{
    after_insert, differs_from, first_unpinned, fresh_item, has_id, insert_id,
    lemma_after_insert_wf, lemma_filter_members, lemma_filter_ordered, lemma_position_of,
    lemma_unpinned_tail, ordered_pair, position_of, store_wf, without_preview, StoreView,
    HISTORY_CAP,
};
use vstd::prelude::*;

verus! {

/// One handing in of payloads: the payloads, the time, and the thumbnail
/// computed from them.
pub ghost struct Insertion {
    pub pairs: Seq<MimePair>,
    pub timestamp: u64,
    pub thumbnail: Option<Seq<u8>>,
}

/// The history after one insertion.
pub open spec fn after_insertion(s: StoreView, x: Insertion) -> StoreView {
    after_insert(s, x.pairs, x.timestamp, x.thumbnail)
}

/// The history after the insertions `xs`, made in order.
pub open spec fn after_insertions(s: StoreView, xs: Seq<Insertion>) -> StoreView
    decreases xs.len(),
{
    if xs.len() == 0 {
        s
    } else {
        after_insertion(after_insertions(s, xs.drop_last()), xs.last())
    }
}

/// The id that the insertion `xs[k]` returns when `xs` is made in order from `s`.
pub open spec fn insertion_id(s: StoreView, xs: Seq<Insertion>, k: int) -> Option<u64> {
    insert_id(after_insertions(s, xs.take(k)), xs[k].pairs)
}

/// In a history that meets its invariant, there are at most
/// [`HISTORY_CAP`] entries, every pinned entry comes before every unpinned
/// one, and no id occurs twice.
pub proof fn lemma_wf_shape(s: StoreView)
    requires
        store_wf(s),
    ensures
        s.entries.len() <= HISTORY_CAP,
        forall|i: int, j: int|
            0 <= i < j < s.entries.len() && (#[trigger] s.entries[j]).pinned ==> (
            #[trigger] s.entries[i]).pinned,
        forall|i: int, j: int|
            0 <= i < j < s.entries.len() ==> (#[trigger] s.entries[i]).item_id != (
            #[trigger] s.entries[j]).item_id,
{
    assert forall|i: int, j: int| 0 <= i < j < s.entries.len() implies ((
    #[trigger] s.entries[j]).pinned ==> (#[trigger] s.entries[i]).pinned) && s.entries[i].item_id
        != s.entries[j].item_id by {
        assert(ordered_pair(s.entries[i], s.entries[j]));
    }
}

/// Whatever is inserted, and however often, the history meets its invariant
/// after each insertion, and the next id never goes down.
pub proof fn lemma_insertions_wf(s: StoreView, xs: Seq<Insertion>)
    requires
        store_wf(s),
    ensures
        store_wf(after_insertions(s, xs)),
        after_insertions(s, xs).entries.len() <= HISTORY_CAP,
        after_insertions(s, xs).next_id >= s.next_id,
    decreases xs.len(),
{
    if xs.len() > 0 {
        lemma_insertions_wf(s, xs.drop_last());
        let prev = after_insertions(s, xs.drop_last());
        lemma_after_insert_wf(prev, xs.last().pairs, xs.last().timestamp, xs.last().thumbnail);
    }
}

/// The next id after a longer run of insertions is not below that after a shorter one.
pub proof fn lemma_next_id_grows(s: StoreView, xs: Seq<Insertion>, i: int, j: int)
    requires
        store_wf(s),
        0 <= i <= j <= xs.len(),
    ensures
        after_insertions(s, xs.take(i)).next_id <= after_insertions(s, xs.take(j)).next_id,
    decreases j - i,
{
    if i < j {
        lemma_next_id_grows(s, xs, i, j - 1);
        assert(xs.take(j).drop_last() =~= xs.take(j - 1));
        lemma_insertions_wf(s, xs.take(j - 1));
    }
}

/// The ids that insertions return go strictly up: a later insertion never
/// returns the id of an earlier one, nor an id that the history held before.
pub proof fn lemma_insertion_ids_increase(s: StoreView, xs: Seq<Insertion>, i: int, j: int)
    requires
        store_wf(s),
        0 <= i < j < xs.len(),
        insertion_id(s, xs, i) is Some,
        insertion_id(s, xs, j) is Some,
    ensures
        insertion_id(s, xs, i)->Some_0 < insertion_id(s, xs, j)->Some_0,
        insertion_id(s, xs, i)->Some_0 >= s.next_id,
        forall|k: int|
            0 <= k < s.entries.len() ==> (#[trigger] s.entries[k]).item_id < insertion_id(
                s,
                xs,
                i,
            )->Some_0,
{
    lemma_next_id_grows(s, xs, 0, i);
    assert(xs.take(0) =~= Seq::<Insertion>::empty());
    assert(xs.take(i + 1).drop_last() =~= xs.take(i));
    assert(xs.take(i + 1).last() == xs[i]);
    lemma_next_id_grows(s, xs, i + 1, j);
}

/// The place at which the entry made from `pairs` is put into the history `s`.
pub open spec fn insert_place(s: StoreView, pairs: Seq<MimePair>) -> int {
    first_unpinned(without_preview(s.entries, derived_preview(pairs)))
}

/// An entry that is inserted below the cap is found under its id with the
/// very payloads that were handed in. (With [`HISTORY_CAP`] pinned entries
/// in front of it the new entry lies beyond the cap and is dropped at once.)
pub proof fn lemma_round_trip(
    s: StoreView,
    pairs: Seq<MimePair>,
    timestamp: u64,
    thumbnail: Option<Seq<u8>>,
)
    requires
        store_wf(s),
        insert_id(s, pairs) is Some,
        insert_place(s, pairs) < HISTORY_CAP,
    ensures
        has_id(after_insert(s, pairs, timestamp, thumbnail).entries, s.next_id),
        ({
            let after = after_insert(s, pairs, timestamp, thumbnail).entries;
            &&& position_of(after, s.next_id) == insert_place(s, pairs)
            &&& after[position_of(after, s.next_id)].mime_data == pairs
            &&& after[position_of(after, s.next_id)] == fresh_item(
                s.next_id,
                pairs,
                timestamp,
                thumbnail,
            )
        }),
{
    let item = fresh_item(s.next_id, pairs, timestamp, thumbnail);
    let t = after_insert(s, pairs, timestamp, thumbnail);
    let kept = without_preview(s.entries, derived_preview(pairs));
    let at = insert_place(s, pairs);
    lemma_filter_ordered(s.entries, differs_from(derived_preview(pairs)));
    lemma_unpinned_tail(kept);
    lemma_after_insert_wf(s, pairs, timestamp, thumbnail);
    let grown = kept.insert(at, item);
    assert(grown[at] == item);
    assert(t.entries[at] == item);
    assert(has_id(t.entries, s.next_id));
    lemma_position_of(t.entries, s.next_id);
    let found = position_of(t.entries, s.next_id);
    if found < at {
        assert(ordered_pair(t.entries[found], t.entries[at]));
    } else if found > at {
        assert(ordered_pair(t.entries[at], t.entries[found]));
    }
}

/// When payloads with the same preview text are inserted twice, the entry of
/// the first insertion is gone after the second, no two entries share that
/// preview text, and the entry of the second insertion, if it lies below the
/// cap, stands unpinned in front of the first unpinned entry.
pub proof fn lemma_same_preview_one_entry(s: StoreView, a: Insertion, b: Insertion)
    requires
        store_wf(s),
        derived_preview(a.pairs) == derived_preview(b.pairs),
        insert_id(s, a.pairs) is Some,
        insert_id(after_insertion(s, a), b.pairs) is Some,
    ensures
        ({
            let mid = after_insertion(s, a);
            let end = after_insertion(mid, b);
            let preview = derived_preview(b.pairs);
            &&& !has_id(end.entries, s.next_id)
            &&& forall|i: int, j: int|
                0 <= i < end.entries.len() && 0 <= j < end.entries.len() && (
                #[trigger] end.entries[i]).content_preview == preview && (
                #[trigger] end.entries[j]).content_preview == preview ==> i == j
            &&& insert_place(mid, b.pairs) < HISTORY_CAP ==> {
                &&& insert_place(mid, b.pairs) < end.entries.len()
                &&& end.entries[insert_place(mid, b.pairs)] == fresh_item(
                    mid.next_id,
                    b.pairs,
                    b.timestamp,
                    b.thumbnail,
                )
                &&& !end.entries[insert_place(mid, b.pairs)].pinned
                &&& forall|i: int|
                    0 <= i < insert_place(mid, b.pairs) ==> (#[trigger] end.entries[i]).pinned
            }
        }),
{
    let mid = after_insertion(s, a);
    let end = after_insertion(mid, b);
    let preview = derived_preview(b.pairs);
    let first = fresh_item(s.next_id, a.pairs, a.timestamp, a.thumbnail);
    let second = fresh_item(mid.next_id, b.pairs, b.timestamp, b.thumbnail);
    lemma_after_insert_wf(s, a.pairs, a.timestamp, a.thumbnail);
    lemma_after_insert_wf(mid, b.pairs, b.timestamp, b.thumbnail);
    // Every entry after the first insertion that has the first id has the preview text.
    let keep = differs_from(preview);
    let kept_s = s.entries.filter(keep);
    lemma_filter_members(s.entries, keep);
    let grown_s = kept_s.insert(first_unpinned(kept_s), first);
    lemma_filter_ordered(s.entries, keep);
    lemma_unpinned_tail(kept_s);
    assert forall|i: int| 0 <= i < mid.entries.len() && (#[trigger] mid.entries[i]).item_id
        == s.next_id implies mid.entries[i].content_preview == preview by {
        assert(mid.entries[i] == grown_s[i]);
        let at = first_unpinned(kept_s);
        if i < at {
            assert(grown_s[i] == kept_s[i]);
            assert(s.entries.contains(kept_s[i]));
        } else if i > at {
            assert(grown_s[i] == kept_s[i - 1]);
            assert(s.entries.contains(kept_s[i - 1]));
        }
    }
    // The second insertion drops every entry with the preview text.
    let kept_m = mid.entries.filter(keep);
    lemma_filter_members(mid.entries, keep);
    lemma_filter_ordered(mid.entries, keep);
    lemma_unpinned_tail(kept_m);
    let at = first_unpinned(kept_m);
    let grown_m = kept_m.insert(at, second);
    assert forall|i: int| 0 <= i < kept_m.len() implies (#[trigger] kept_m[i]).item_id
        != s.next_id by {
        assert(mid.entries.contains(kept_m[i]));
        let k = choose|k: int| 0 <= k < mid.entries.len() && mid.entries[k] == kept_m[i];
        assert(keep(kept_m[i]));
    }
    assert forall|i: int| 0 <= i < end.entries.len() implies (#[trigger] end.entries[i]).item_id
        != s.next_id by {
        assert(end.entries[i] == grown_m[i]);
        if i < at {
            assert(grown_m[i] == kept_m[i]);
        } else if i > at {
            assert(grown_m[i] == kept_m[i - 1]);
        }
    }
    assert forall|i: int, j: int|
        0 <= i < end.entries.len() && 0 <= j < end.entries.len() && (
        #[trigger] end.entries[i]).content_preview == preview && (
        #[trigger] end.entries[j]).content_preview == preview implies i == j by {
        if i < j {
            assert(ordered_pair(end.entries[i], end.entries[j]));
        } else if j < i {
            assert(ordered_pair(end.entries[j], end.entries[i]));
        }
    }
    if at < HISTORY_CAP {
        assert(grown_m[at] == second);
        assert(end.entries[at] == second);
        assert forall|i: int| 0 <= i < at implies (#[trigger] end.entries[i]).pinned by {
            assert(end.entries[i] == grown_m[i]);
            assert(grown_m[i] == kept_m[i]);
        }
    }
}

} // verus!
