//! The clipboard history: a bounded list of entries with pinned entries first.

use crate::content_type::ClipboardContentType;
use crate::item::{bytes_view, preview_of, ClipboardItem, ClipboardItemPreview, ItemView};
use crate::mime_map::{mime_map_len, mime_pairs};
use crate::preview::derive_preview;
use crate::search::lemma_first_where;
use crate::store_model::{
    after_insert, differs_from, first_unpinned, fresh_item, has_id, insert_id, is_item,
    is_unpinned, item_views, lemma_with_deleted_wf, lemma_with_inserted_wf, lemma_with_pin_wf,
    position_of, store_wf, with_deleted, with_pin, without_preview, StoreView, HISTORY_CAP,
};
use bytes::Bytes;
use indexmap::IndexMap;
use vstd::prelude::*;

verus! {

/// The clipboard history.
pub struct ClipboardStore {
    history: Vec<ClipboardItem>,
    id_for_next_entry: u64,
}

impl View for ClipboardStore {
    type V = StoreView;

    closed spec fn view(&self) -> StoreView {
        StoreView { entries: item_views(self.history@), next_id: self.id_for_next_entry }
    }
}

/// Removes from `history` every entry whose preview text is `preview`.
fn remove_same_preview(history: &mut Vec<ClipboardItem>, preview: &String)
    ensures
        item_views(final(history)@) == without_preview(item_views(old(history)@), preview@),
{
    let ghost before = item_views(history@);
    let ghost keep = differs_from(preview@);
    let ghost mut seen: int = 0;
    let mut i: usize = 0;
    proof {
        reveal(Seq::filter);
        assert(before.take(0).filter(keep) =~= item_views(history@).take(0));
        assert(item_views(history@).skip(0) =~= before.skip(0));
    }
    while i < history.len()
        invariant
            keep == differs_from(preview@),
            0 <= i <= history.len(),
            i <= seen <= before.len(),
            item_views(history@).take(i as int) == before.take(seen).filter(keep),
            item_views(history@).skip(i as int) == before.skip(seen),
        decreases history.len() - i,
    {
        let ghost cur = item_views(history@);
        proof {
            assert(cur.skip(i as int)[0] == before.skip(seen)[0]);
            assert(cur.skip(i as int).len() == before.skip(seen).len());
            assert(before.take(seen + 1) =~= before.take(seen).push(before[seen]));
            before.take(seen).lemma_filter_push(before[seen], keep);
        }
        if history[i].content_preview == *preview {
            history.remove(i);
            proof {
                let now = item_views(history@);
                assert(now.take(i as int) =~= cur.take(i as int));
                assert(now.skip(i as int) =~= cur.skip(i as int).skip(1));
                assert(before.skip(seen + 1) =~= before.skip(seen).skip(1));
                seen = seen + 1;
            }
        } else {
            proof {
                assert(cur.take(i + 1) =~= cur.take(i as int).push(cur[i as int]));
                assert(cur.skip(i + 1) =~= cur.skip(i as int).skip(1));
                assert(before.skip(seen + 1) =~= before.skip(seen).skip(1));
                seen = seen + 1;
            }
            i += 1;
        }
    }
    proof {
        let now = item_views(history@);
        assert(now.take(i as int) =~= now);
        assert(now.skip(i as int).len() == 0);
        assert(before.take(seen) =~= before);
    }
}

/// The index of the first entry of `history` that is not pinned.
fn first_unpinned_index(history: &Vec<ClipboardItem>) -> (r: usize)
    ensures
        r == first_unpinned(item_views(history@)),
        r <= history.len(),
{
    let mut i: usize = 0;
    while i < history.len() && history[i].pinned
        invariant
            i <= history.len(),
            forall|k: int| 0 <= k < i ==> (#[trigger] item_views(history@)[k]).pinned,
        decreases history.len() - i,
    {
        i += 1;
    }
    proof {
        lemma_first_where(item_views(history@), is_unpinned(), i as int);
    }
    i
}

impl ClipboardStore {
    /// The invariant of the history.
    pub open spec fn wf(&self) -> bool {
        store_wf(self@)
    }

    /// An empty history whose first entry will get the id 1.
    pub fn new() -> (r: Self)
        ensures
            r.wf(),
            r@.entries == Seq::<ItemView>::empty(),
            r@.next_id == 1,
    {
        let r = ClipboardStore { history: Vec::new(), id_for_next_entry: 1 };
        assert(item_views(r.history@) =~= Seq::<ItemView>::empty());
        r
    }

    /// The number of entries.
    pub fn len(&self) -> (n: usize)
        ensures
            n == self@.entries.len(),
    {
        self.history.len()
    }

    /// The position of the entry with the id `id`.
    fn find(&self, id: u64) -> (r: Option<usize>)
        ensures
            match r {
                Some(at) => has_id(self@.entries, id) && at == position_of(self@.entries, id) && at
                    < self.history.len(),
                None => !has_id(self@.entries, id),
            },
    {
        let mut i: usize = 0;
        while i < self.history.len()
            invariant
                i <= self.history.len(),
                forall|k: int| 0 <= k < i ==> (#[trigger] self@.entries[k]).item_id != id,
            decreases self.history.len() - i,
        {
            if self.history[i].item_id == id {
                proof {
                    assert(self@.entries[i as int].item_id == id);
                    lemma_first_where(self@.entries, is_item(id), i as int);
                }
                return Some(i);
            }
            i += 1;
        }
        None
    }

    /// Takes a new selection into the history and returns the id of its entry.
    ///
    /// The entry is made from the payloads in `mime_content`, with `timestamp`
    /// as its time and, if it is an image, `thumbnail` as its thumbnail.
    /// Nothing is taken in, and `None` returned, when the map is empty or the
    /// ids are used up.
    pub fn insert(
        &mut self,
        mime_content: IndexMap<String, Bytes>,
        timestamp: u64,
        thumbnail: Option<Vec<u8>>,
    ) -> (r: Option<u64>)
        requires
            old(self).wf(),
        ensures
            final(self).wf(),
            r == insert_id(old(self)@, mime_pairs(mime_content)),
            final(self)@ == after_insert(
                old(self)@,
                mime_pairs(mime_content),
                timestamp,
                bytes_view(thumbnail),
            ),
    {
        if mime_map_len(&mime_content) == 0 || self.id_for_next_entry == u64::MAX {
            return None;
        }
        let id = self.id_for_next_entry;
        let (content_preview, content_type) = derive_preview(&mime_content);
        let ghost fresh = fresh_item(
            id,
            mime_pairs(mime_content),
            timestamp,
            bytes_view(thumbnail),
        );
        let item = ClipboardItem {
            item_id: id,
            content_preview,
            content_type,
            timestamp,
            pinned: false,
            mime_data: mime_content,
            thumbnail: if content_type == ClipboardContentType::Image {
                thumbnail
            } else {
                None
            },
        };
        assert(item@ == fresh);
        remove_same_preview(&mut self.history, &item.content_preview);
        let at = first_unpinned_index(&self.history);
        let ghost kept = item_views(self.history@);
        self.history.insert(at, item);
        assert(item_views(self.history@) =~= kept.insert(at as int, fresh));
        if self.history.len() > HISTORY_CAP {
            let ghost grown = item_views(self.history@);
            self.history.truncate(HISTORY_CAP);
            assert(item_views(self.history@) =~= grown.take(HISTORY_CAP as int));
        }
        self.id_for_next_entry = id + 1;
        proof {
            lemma_with_inserted_wf(old(self)@, fresh);
        }
        Some(id)
    }

    /// The entry with the id `id`, if the history has one.
    pub fn get(&self, id: u64) -> (r: Option<&ClipboardItem>)
        ensures
            match r {
                Some(item) => has_id(self@.entries, id) && item@ == self@.entries[position_of(
                    self@.entries,
                    id,
                )],
                None => !has_id(self@.entries, id),
            },
    {
        match self.find(id) {
            Some(at) => Some(&self.history[at]),
            None => None,
        }
    }

    /// The previews of all entries, in the order of the history.
    pub fn get_history(&self) -> (r: Vec<ClipboardItemPreview>)
        ensures
            r@.map_values(|p: ClipboardItemPreview| p@) == self@.entries.map_values(
                |e: ItemView| preview_of(e),
            ),
    {
        let mut out: Vec<ClipboardItemPreview> = Vec::new();
        let mut i: usize = 0;
        while i < self.history.len()
            invariant
                i <= self.history.len(),
                out@.len() == i,
                forall|k: int| 0 <= k < i ==> (#[trigger] out@[k])@ == preview_of(self@.entries[k]),
            decreases self.history.len() - i,
        {
            out.push(ClipboardItemPreview::from(&self.history[i]));
            i += 1;
        }
        assert(out@.map_values(|p: ClipboardItemPreview| p@) =~= self@.entries.map_values(
            |e: ItemView| preview_of(e),
        ));
        out
    }

    /// Removes the entry with the id `id`; `false`, and no change, if there is none.
    pub fn delete(&mut self, id: u64) -> (r: bool)
        requires
            old(self).wf(),
        ensures
            final(self).wf(),
            r == has_id(old(self)@.entries, id),
            final(self)@.next_id == old(self)@.next_id,
            r ==> final(self)@.entries == with_deleted(old(self)@.entries, id),
            !r ==> final(self)@.entries == old(self)@.entries,
    {
        match self.find(id) {
            Some(at) => {
                self.history.remove(at);
                proof {
                    assert(item_views(self.history@) =~= with_deleted(old(self)@.entries, id));
                    lemma_with_deleted_wf(old(self)@, id);
                }
                true
            },
            None => false,
        }
    }

    /// Removes every entry. Ids already given out are not given out again.
    pub fn clear(&mut self)
        requires
            old(self).wf(),
        ensures
            final(self).wf(),
            final(self)@.entries == Seq::<ItemView>::empty(),
            final(self)@.next_id == old(self)@.next_id,
    {
        self.history.clear();
        assert(item_views(self.history@) =~= Seq::<ItemView>::empty());
    }

    /// Sets the pin of the entry with the id `id` and moves the entry to its
    /// new place; `false`, and no change, if there is no such entry.
    pub fn set_pinned(&mut self, id: u64, pinned: bool) -> (r: bool)
        requires
            old(self).wf(),
        ensures
            final(self).wf(),
            r == has_id(old(self)@.entries, id),
            final(self)@.next_id == old(self)@.next_id,
            r ==> final(self)@.entries == with_pin(old(self)@.entries, id, pinned),
            !r ==> final(self)@.entries == old(self)@.entries,
    {
        match self.find(id) {
            Some(at) => {
                let mut item = self.history.remove(at);
                let ghost rest = item_views(self.history@);
                assert(rest =~= old(self)@.entries.remove(at as int));
                item.pinned = pinned;
                let to = if pinned {
                    0
                } else {
                    first_unpinned_index(&self.history)
                };
                let ghost moved = item@;
                self.history.insert(to, item);
                proof {
                    assert(item_views(self.history@) =~= rest.insert(to as int, moved));
                    lemma_with_pin_wf(old(self)@, id, pinned);
                }
                true
            },
            None => false,
        }
    }
}

} // verus!
