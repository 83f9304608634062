//! The mathematical model of the clipboard history: what each operation does
//! to the list of entries, the invariant of the list, and the proofs that the
//! operations keep it.

use crate::content_type::ClipboardContentType;
use crate::item::{ClipboardItem, ItemView};
use crate::mime_map::MimePair;
use crate::preview::{derived_preview, derived_type};
use crate::search::{first_where, lemma_first_where_bounds};
use vstd::prelude::*;

verus! {

/// The largest number of entries that the history keeps.
pub const HISTORY_CAP: usize = 100;

/// What a [`ClipboardStore`] holds, as plain values.
pub ghost struct StoreView {
    /// The entries, in the order in which the history lists them.
    pub entries: Seq<ItemView>,
    /// The id that the next new entry gets.
    pub next_id: u64,
}

/// The views of the items of a vector, in order.
pub open spec fn item_views(items: Seq<ClipboardItem>) -> Seq<ItemView> {
    items.map_values(|e: ClipboardItem| e@)
}

/// The test for an entry that is not pinned.
pub open spec fn is_unpinned() -> spec_fn(ItemView) -> bool {
    |e: ItemView| !e.pinned
}

/// The test for an entry with the id `id`.
pub open spec fn is_item(id: u64) -> spec_fn(ItemView) -> bool {
    |e: ItemView| e.item_id == id
}

/// The test for an entry whose preview text is not `preview`.
pub open spec fn differs_from(preview: Seq<char>) -> spec_fn(ItemView) -> bool {
    |e: ItemView| e.content_preview != preview
}

/// The index of the first entry that is not pinned, or the length if all are pinned.
pub open spec fn first_unpinned(entries: Seq<ItemView>) -> int {
    first_where(entries, is_unpinned())
}

/// The index of the first entry with the id `id`, or the length if there is none.
pub open spec fn position_of(entries: Seq<ItemView>, id: u64) -> int {
    first_where(entries, is_item(id))
}

/// Some entry has the id `id`.
pub open spec fn has_id(entries: Seq<ItemView>, id: u64) -> bool {
    exists|i: int| 0 <= i < entries.len() && (#[trigger] entries[i]).item_id == id
}

/// The entries whose preview text differs from `preview`, in their order.
pub open spec fn without_preview(entries: Seq<ItemView>, preview: Seq<char>) -> Seq<ItemView> {
    entries.filter(differs_from(preview))
}

/// The first [`HISTORY_CAP`] entries.
pub open spec fn capped(entries: Seq<ItemView>) -> Seq<ItemView> {
    if entries.len() > HISTORY_CAP {
        entries.take(HISTORY_CAP as int)
    } else {
        entries
    }
}

/// The entry made from a map of payloads: unpinned, with the preview and the
/// kind derived from the payloads, and with the thumbnail only if it is an image.
pub open spec fn fresh_item(
    id: u64,
    pairs: Seq<MimePair>,
    timestamp: u64,
    thumbnail: Option<Seq<u8>>,
) -> ItemView {
    ItemView {
        item_id: id,
        content_preview: derived_preview(pairs),
        content_type: derived_type(pairs),
        timestamp,
        pinned: false,
        mime_data: pairs,
        thumbnail: if derived_type(pairs) == ClipboardContentType::Image {
            thumbnail
        } else {
            None
        },
    }
}

/// The history after `item` is taken in: entries with the same preview text
/// leave, the new entry goes in front of the first unpinned one, and what
/// then lies beyond the cap is dropped.
pub open spec fn with_inserted(entries: Seq<ItemView>, item: ItemView) -> Seq<ItemView> {
    let kept = without_preview(entries, item.content_preview);
    capped(kept.insert(first_unpinned(kept), item))
}

/// The id that the entry made from `pairs` gets: the next id, unless there
/// are no payloads or the ids are used up.
pub open spec fn insert_id(s: StoreView, pairs: Seq<MimePair>) -> Option<u64> {
    if pairs.len() > 0 && s.next_id < u64::MAX {
        Some(s.next_id)
    } else {
        None
    }
}

/// The history after the payloads `pairs` were handed in at the time
/// `timestamp`, with `thumbnail` as the thumbnail computed from them.
pub open spec fn after_insert(
    s: StoreView,
    pairs: Seq<MimePair>,
    timestamp: u64,
    thumbnail: Option<Seq<u8>>,
) -> StoreView {
    match insert_id(s, pairs) {
        Some(id) => StoreView {
            entries: with_inserted(s.entries, fresh_item(id, pairs, timestamp, thumbnail)),
            next_id: (id + 1) as u64,
        },
        None => s,
    }
}

/// The history after the entry with the id `id` has its pin set to `pinned`:
/// the entry leaves its place and goes to the front when pinned, and in front
/// of the first unpinned entry otherwise. The others keep their order.
pub open spec fn with_pin(entries: Seq<ItemView>, id: u64, pinned: bool) -> Seq<ItemView> {
    let at = position_of(entries, id);
    let rest = entries.remove(at);
    let moved = ItemView { pinned, ..entries[at] };
    if pinned {
        rest.insert(0, moved)
    } else {
        rest.insert(first_unpinned(rest), moved)
    }
}

/// The history without the entry with the id `id`.
pub open spec fn with_deleted(entries: Seq<ItemView>, id: u64) -> Seq<ItemView> {
    entries.remove(position_of(entries, id))
}

/// An entry is consistent: it has payloads, its preview and kind are those
/// derived from them, and only an image has a thumbnail.
pub open spec fn item_ok(e: ItemView) -> bool {
    &&& e.mime_data.len() > 0
    &&& e.content_preview == derived_preview(e.mime_data)
    &&& e.content_type == derived_type(e.mime_data)
    &&& e.thumbnail is Some ==> e.content_type == ClipboardContentType::Image
}

/// What must hold between an entry `a` and any entry `b` listed after it:
/// a pinned entry never follows an unpinned one, and the two differ in id and
/// in preview text.
pub open spec fn ordered_pair(a: ItemView, b: ItemView) -> bool {
    &&& b.pinned ==> a.pinned
    &&& a.item_id != b.item_id
    &&& a.content_preview != b.content_preview
}

/// [`ordered_pair`] holds between every entry and every entry listed after it.
pub open spec fn ordered(entries: Seq<ItemView>) -> bool {
    forall|i: int, j: int|
        0 <= i < j < entries.len() ==> ordered_pair(#[trigger] entries[i], #[trigger] entries[j])
}

/// The invariant of the history.
pub open spec fn store_wf(s: StoreView) -> bool {
    &&& s.entries.len() <= HISTORY_CAP
    &&& s.next_id >= 1
    &&& forall|i: int| 0 <= i < s.entries.len() ==> 1 <= (#[trigger] s.entries[i]).item_id < s.next_id
    &&& forall|i: int| 0 <= i < s.entries.len() ==> item_ok(#[trigger] s.entries[i])
    &&& ordered(s.entries)
}

/// An id is found below the length exactly when some entry has it.
pub proof fn lemma_position_of(entries: Seq<ItemView>, id: u64)
    ensures
        0 <= position_of(entries, id) <= entries.len(),
        has_id(entries, id) <==> position_of(entries, id) < entries.len(),
        has_id(entries, id) ==> entries[position_of(entries, id)].item_id == id,
{
    lemma_first_where_bounds(entries, is_item(id));
}

/// Dropping entries keeps the order of those that stay.
pub proof fn lemma_filter_ordered(entries: Seq<ItemView>, keep: spec_fn(ItemView) -> bool)
    requires
        ordered(entries),
    ensures
        ordered(entries.filter(keep)),
    decreases entries.len(),
{
    reveal(Seq::filter);
    if entries.len() > 0 {
        let front = entries.drop_last();
        assert(ordered(front)) by {
            assert forall|i: int, j: int| 0 <= i < j < front.len() implies ordered_pair(
                #[trigger] front[i],
                #[trigger] front[j],
            ) by {
                assert(front[i] == entries[i]);
                assert(front[j] == entries[j]);
            }
        }
        lemma_filter_ordered(front, keep);
        let kept = front.filter(keep);
        if keep(entries.last()) {
            let all = kept.push(entries.last());
            assert forall|i: int, j: int| 0 <= i < j < all.len() implies ordered_pair(
                #[trigger] all[i],
                #[trigger] all[j],
            ) by {
                if j == kept.len() {
                    assert(kept.contains(kept[i]));
                    front.lemma_filter_contains_rev(keep, kept[i]);
                    let k = choose|k: int| 0 <= k < front.len() && front[k] == kept[i];
                    assert(entries[k] == kept[i]);
                    assert(entries[entries.len() - 1] == all[j]);
                } else {
                    assert(all[i] == kept[i]);
                    assert(all[j] == kept[j]);
                }
            }
        }
    }
}

/// Every entry that is kept was among the entries and satisfies `keep`.
pub proof fn lemma_filter_members(entries: Seq<ItemView>, keep: spec_fn(ItemView) -> bool)
    ensures
        entries.filter(keep).len() <= entries.len(),
        forall|i: int|
            0 <= i < entries.filter(keep).len() ==> keep(#[trigger] entries.filter(keep)[i])
                && entries.contains(entries.filter(keep)[i]),
{
    entries.lemma_filter_len(keep);
    let kept = entries.filter(keep);
    assert forall|i: int| 0 <= i < kept.len() implies keep(#[trigger] kept[i]) && entries.contains(
        kept[i],
    ) by {
        entries.lemma_filter_pred(keep, i);
        assert(kept.contains(kept[i]));
        entries.lemma_filter_contains_rev(keep, kept[i]);
    }
}

/// Every entry satisfies the bounds on ids and is consistent.
pub open spec fn members_ok(entries: Seq<ItemView>, next_id: u64) -> bool {
    forall|i: int|
        0 <= i < entries.len() ==> 1 <= (#[trigger] entries[i]).item_id < next_id && item_ok(
            entries[i],
        )
}

/// Taking one entry out keeps the order of the others, and none of the
/// others shares its id or its preview text.
pub proof fn lemma_remove_ordered(entries: Seq<ItemView>, at: int)
    requires
        ordered(entries),
        0 <= at < entries.len(),
    ensures
        ordered(entries.remove(at)),
        forall|i: int|
            0 <= i < entries.remove(at).len() ==> {
                &&& (#[trigger] entries.remove(at)[i]).item_id != entries[at].item_id
                &&& entries.remove(at)[i].content_preview != entries[at].content_preview
                &&& entries.remove(at)[i] == entries[if i < at {
                    i
                } else {
                    i + 1
                }]
            },
{
    let rest = entries.remove(at);
    assert forall|i: int, j: int| 0 <= i < j < rest.len() implies ordered_pair(
        #[trigger] rest[i],
        #[trigger] rest[j],
    ) by {
        let a = if i < at { i } else { i + 1 };
        let b = if j < at { j } else { j + 1 };
        assert(ordered_pair(entries[a], entries[b]));
    }
    assert forall|i: int| 0 <= i < rest.len() implies {
        &&& (#[trigger] rest[i]).item_id != entries[at].item_id
        &&& rest[i].content_preview != entries[at].content_preview
        &&& rest[i] == entries[if i < at { i } else { i + 1 }]
    } by {
        let a = if i < at { i } else { i + 1 };
        if a < at {
            assert(ordered_pair(entries[a], entries[at]));
        } else {
            assert(ordered_pair(entries[at], entries[a]));
        }
    }
}

/// Putting an entry in at a place where it fits keeps the order.
pub proof fn lemma_insert_ordered(entries: Seq<ItemView>, to: int, item: ItemView)
    requires
        ordered(entries),
        0 <= to <= entries.len(),
        forall|i: int| 0 <= i < to ==> ordered_pair(#[trigger] entries[i], item),
        forall|i: int| to <= i < entries.len() ==> ordered_pair(item, #[trigger] entries[i]),
    ensures
        ordered(entries.insert(to, item)),
{
    let grown = entries.insert(to, item);
    assert forall|i: int, j: int| 0 <= i < j < grown.len() implies ordered_pair(
        #[trigger] grown[i],
        #[trigger] grown[j],
    ) by {
        if j < to {
            assert(grown[i] == entries[i] && grown[j] == entries[j]);
        } else if j == to {
            assert(grown[i] == entries[i]);
        } else if i < to {
            assert(grown[i] == entries[i] && grown[j] == entries[j - 1]);
        } else if i == to {
            assert(grown[j] == entries[j - 1]);
        } else {
            assert(grown[i] == entries[i - 1] && grown[j] == entries[j - 1]);
        }
    }
}

/// In an ordered list no entry from the first unpinned one on is pinned, and
/// every entry before it is.
pub proof fn lemma_unpinned_tail(entries: Seq<ItemView>)
    requires
        ordered(entries),
    ensures
        0 <= first_unpinned(entries) <= entries.len(),
        forall|i: int| 0 <= i < first_unpinned(entries) ==> (#[trigger] entries[i]).pinned,
        forall|i: int|
            first_unpinned(entries) <= i < entries.len() ==> !(#[trigger] entries[i]).pinned,
{
    lemma_first_where_bounds(entries, is_unpinned());
    let at = first_unpinned(entries);
    assert forall|i: int| at <= i < entries.len() implies !(#[trigger] entries[i]).pinned by {
        if i > at {
            assert(ordered_pair(entries[at], entries[i]));
        }
    }
}

/// Taking an entry in keeps the invariant of the history.
pub proof fn lemma_with_inserted_wf(s: StoreView, item: ItemView)
    requires
        store_wf(s),
        s.next_id < u64::MAX,
        item.item_id == s.next_id,
        item_ok(item),
        !item.pinned,
    ensures
        store_wf(
            StoreView {
                entries: with_inserted(s.entries, item),
                next_id: (s.next_id + 1) as u64,
            },
        ),
{
    let keep = differs_from(item.content_preview);
    let kept = s.entries.filter(keep);
    lemma_filter_members(s.entries, keep);
    lemma_filter_ordered(s.entries, keep);
    lemma_unpinned_tail(kept);
    let at = first_unpinned(kept);
    let grown = kept.insert(at, item);
    assert forall|i: int| 0 <= i < kept.len() implies 1 <= (#[trigger] kept[i]).item_id < s.next_id
        && item_ok(kept[i]) && kept[i].content_preview != item.content_preview by {
        assert(s.entries.contains(kept[i]));
        let k = choose|k: int| 0 <= k < s.entries.len() && s.entries[k] == kept[i];
        assert(item_ok(s.entries[k]));
    }
    lemma_insert_ordered(kept, at, item);
    let next = (s.next_id + 1) as u64;
    assert(members_ok(grown, next)) by {
        assert forall|i: int| 0 <= i < grown.len() implies 1 <= (#[trigger] grown[i]).item_id < next
            && item_ok(grown[i]) by {
            if i < at {
                assert(grown[i] == kept[i]);
            } else if i > at {
                assert(grown[i] == kept[i - 1]);
            }
        }
    }
    lemma_capped_wf(grown, next);
}

/// Dropping what lies beyond the cap keeps the order and the entries' bounds.
pub proof fn lemma_capped_wf(entries: Seq<ItemView>, next_id: u64)
    requires
        ordered(entries),
        members_ok(entries, next_id),
        next_id >= 1,
    ensures
        store_wf(StoreView { entries: capped(entries), next_id }),
{
    let last = capped(entries);
    assert forall|i: int| 0 <= i < last.len() implies last[i] == entries[i] by {}
    assert forall|i: int, j: int| 0 <= i < j < last.len() implies ordered_pair(
        #[trigger] last[i],
        #[trigger] last[j],
    ) by {
        assert(ordered_pair(entries[i], entries[j]));
    }
    assert forall|i: int| 0 <= i < last.len() implies 1 <= (#[trigger] last[i]).item_id < next_id
        && item_ok(last[i]) by {
        assert(item_ok(entries[i]));
    }
}

/// Handing payloads in keeps the invariant of the history.
pub proof fn lemma_after_insert_wf(
    s: StoreView,
    pairs: Seq<MimePair>,
    timestamp: u64,
    thumbnail: Option<Seq<u8>>,
)
    requires
        store_wf(s),
    ensures
        store_wf(after_insert(s, pairs, timestamp, thumbnail)),
{
    match insert_id(s, pairs) {
        Some(id) => {
            lemma_with_inserted_wf(s, fresh_item(id, pairs, timestamp, thumbnail));
        },
        None => {},
    }
}

/// Setting the pin of an entry keeps the invariant of the history.
pub proof fn lemma_with_pin_wf(s: StoreView, id: u64, pinned: bool)
    requires
        store_wf(s),
        has_id(s.entries, id),
    ensures
        store_wf(StoreView { entries: with_pin(s.entries, id, pinned), next_id: s.next_id }),
        with_pin(s.entries, id, pinned).len() == s.entries.len(),
{
    lemma_position_of(s.entries, id);
    let at = position_of(s.entries, id);
    let rest = s.entries.remove(at);
    let moved = ItemView { pinned, ..s.entries[at] };
    assert(item_ok(s.entries[at]));
    lemma_remove_ordered(s.entries, at);
    lemma_unpinned_tail(rest);
    let to = if pinned { 0 } else { first_unpinned(rest) };
    let done = rest.insert(to, moved);
    assert(done == with_pin(s.entries, id, pinned));
    lemma_insert_ordered(rest, to, moved);
    assert forall|i: int| 0 <= i < done.len() implies 1 <= (#[trigger] done[i]).item_id < s.next_id
        && item_ok(done[i]) by {
        if i < to {
            assert(done[i] == rest[i]);
        } else if i > to {
            assert(done[i] == rest[i - 1]);
        }
    }
}

/// Deleting an entry keeps the invariant of the history.
pub proof fn lemma_with_deleted_wf(s: StoreView, id: u64)
    requires
        store_wf(s),
        has_id(s.entries, id),
    ensures
        store_wf(StoreView { entries: with_deleted(s.entries, id), next_id: s.next_id }),
        with_deleted(s.entries, id).len() == s.entries.len() - 1,
        !has_id(with_deleted(s.entries, id), id),
{
    lemma_position_of(s.entries, id);
    lemma_remove_ordered(s.entries, position_of(s.entries, id));
}

} // verus!
