//! The mathematical model of the protocol engine: its state as plain values,
//! and what each event and each operation does to that state and asks of the
//! caller.

use crate::error::ClipboardError;
use crate::item::ItemView;
use crate::mime_map::{keys_of, lookup, MimePair};
use crate::offer_reader::targets_of;
use crate::preview::text_mime;
use crate::protocol::DataControlProtocol;
use crate::request::{
    lemma_single_source, owned_sources, ownership_requests, release_requests, sources_after,
    OwnedSource, RequestView,
};
use crate::store_model::{
    after_insert, has_id, insert_id, position_of, store_wf, with_deleted, with_pin, StoreView,
};
use vstd::prelude::*;
use vstd::utf8::encode_utf8;

verus! {

/// What the engine holds, as plain values.
pub ghost struct EngineView {
    /// The history.
    pub store: StoreView,
    /// The MIME types announced so far on each offer that is tracked.
    pub offers: Map<u64, Seq<Seq<char>>>,
    /// The offer that the last selection named.
    pub current_offer: Option<u64>,
    /// The source of this process that is the selection, with its entry.
    pub owned: Option<OwnedSource>,
    /// Whether selections are recorded without being read.
    pub suppressed: bool,
    /// Whether the engine leaves new selections with their owners.
    pub monitor_only: bool,
    /// The variant of the protocol whose device is bound.
    pub protocol: Option<DataControlProtocol>,
    /// The handle that the next source gets.
    pub next_source: u64,
}

/// The invariant of the engine: that of its history; reading is suppressed
/// for as long as this process owns the selection; and the handle that the
/// next source gets is not that of the source owned now.
///
/// Suppression can outlive ownership: when the owned source is given up
/// because its entry is deleted, it stays set, and the next source that this
/// process owns must be cancelled before selections are read again.
pub open spec fn engine_wf(e: EngineView) -> bool {
    &&& store_wf(e.store)
    &&& e.owned is Some ==> e.suppressed
    &&& e.owned is Some ==> e.owned->Some_0.source != e.next_source
}

/// The state in which the engine starts.
pub open spec fn initial_engine() -> EngineView {
    EngineView {
        store: StoreView { entries: Seq::empty(), next_id: 1 },
        offers: Map::empty(),
        current_offer: None,
        owned: None,
        suppressed: false,
        monitor_only: false,
        protocol: None,
        next_source: 1,
    }
}

/// The state once a device of `protocol` is bound. The first choice stands.
pub open spec fn after_bind(e: EngineView, protocol: DataControlProtocol) -> EngineView {
    if e.protocol is Some {
        e
    } else {
        EngineView { protocol: Some(protocol), ..e }
    }
}

/// The state after the compositor has announced the offer `offer`.
pub open spec fn after_data_offer(e: EngineView, offer: u64) -> EngineView {
    EngineView { offers: e.offers.insert(offer, Seq::empty()), ..e }
}

/// The state after `offer` has announced `mime`: the type is added to those
/// of a tracked offer, and an offer that is not tracked is passed over.
pub open spec fn after_offer(e: EngineView, offer: u64, mime: Seq<char>) -> EngineView {
    if e.offers.contains_key(offer) {
        EngineView { offers: e.offers.insert(offer, e.offers[offer].push(mime)), ..e }
    } else {
        e
    }
}

/// How the engine takes a selection event.
#[derive(Debug, Clone, Copy, PartialEq, Eq, Structural)]
pub enum SelectionOutcome {
    /// The selection was cleared.
    Cleared,
    /// The offer is not tracked; the event is passed over.
    Untracked,
    /// Reading is suppressed: the offer is recorded and destroyed unread.
    Suppressed,
    /// The offer is the one already recorded: it is destroyed unread.
    Unchanged,
    /// The offer is new: its payloads are to be read.
    Read,
}

/// How a selection event that names `offer` is taken in the state `e`.
pub open spec fn selection_outcome(e: EngineView, offer: Option<u64>) -> SelectionOutcome {
    match offer {
        None => SelectionOutcome::Cleared,
        Some(o) => if !e.offers.contains_key(o) {
            SelectionOutcome::Untracked
        } else if e.suppressed {
            SelectionOutcome::Suppressed
        } else if e.current_offer == Some(o) {
            SelectionOutcome::Unchanged
        } else {
            SelectionOutcome::Read
        },
    }
}

/// The state after a selection event.
pub open spec fn after_selection(e: EngineView, offer: Option<u64>) -> EngineView {
    match selection_outcome(e, offer) {
        SelectionOutcome::Cleared => EngineView { current_offer: None, ..e },
        SelectionOutcome::Suppressed => EngineView { current_offer: offer, ..e },
        _ => e,
    }
}

/// The requests that a selection event calls for.
pub open spec fn selection_requests(e: EngineView, offer: Option<u64>) -> Seq<RequestView> {
    match selection_outcome(e, offer) {
        SelectionOutcome::Suppressed | SelectionOutcome::Unchanged => seq![
            RequestView::DestroyOffer { offer: offer->Some_0 },
        ],
        _ => Seq::empty(),
    }
}

/// The MIME types that a selection event calls to be read.
pub open spec fn selection_targets(e: EngineView, offer: Option<u64>) -> Seq<Seq<char>> {
    match selection_outcome(e, offer) {
        SelectionOutcome::Read => targets_of(e.offers[offer->Some_0]),
        _ => Seq::empty(),
    }
}

/// The handle after `h`.
pub open spec fn next_handle(h: u64) -> u64 {
    if h == u64::MAX {
        0
    } else {
        (h + 1) as u64
    }
}

/// Whether this process can take the selection for the entry `id`.
pub open spec fn ownership_check(e: EngineView, id: u64) -> Result<(), ClipboardError> {
    if !has_id(e.store.entries, id) {
        Err(ClipboardError::UnknownEntry { id })
    } else if e.protocol is None {
        Err(ClipboardError::NotBound)
    } else {
        Ok(())
    }
}

/// The state after this process has tried to take the selection for the entry `id`.
pub open spec fn after_ownership(e: EngineView, id: u64) -> EngineView {
    if ownership_check(e, id) is Ok {
        EngineView {
            owned: Some(OwnedSource { source: e.next_source, entry_id: id }),
            suppressed: true,
            next_source: next_handle(e.next_source),
            ..e
        }
    } else {
        e
    }
}

/// The requests by which this process takes the selection for the entry `id`.
pub open spec fn ownership_step_requests(e: EngineView, id: u64) -> Seq<RequestView> {
    if ownership_check(e, id) is Ok {
        ownership_requests(
            e.owned,
            e.next_source,
            keys_of(e.store.entries[position_of(e.store.entries, id)].mime_data),
        )
    } else {
        Seq::empty()
    }
}

/// The id that the entry of a read selection gets, if the payloads make an entry.
pub open spec fn read_entry_id(e: EngineView, pairs: Seq<MimePair>) -> Option<u64> {
    insert_id(e.store, pairs)
}

/// The state after the payloads of a selection have entered the history.
pub open spec fn after_stored(
    e: EngineView,
    pairs: Seq<MimePair>,
    timestamp: u64,
    thumbnail: Option<Seq<u8>>,
) -> EngineView {
    EngineView { store: after_insert(e.store, pairs, timestamp, thumbnail), ..e }
}

/// The payloads of a copied text: the text, encoded, under the plain text type.
pub open spec fn text_entry(content: Seq<char>) -> Seq<MimePair> {
    seq![(text_mime(), encode_utf8(content))]
}

/// Whether the engine tries to take the selection after a read.
pub open spec fn takes_after_read(e: EngineView, pairs: Seq<MimePair>) -> bool {
    read_entry_id(e, pairs) is Some && !e.monitor_only
}

/// The error that taking the selection after a read ends in, if it is tried and fails.
pub open spec fn read_ownership_error(
    e: EngineView,
    pairs: Seq<MimePair>,
    timestamp: u64,
    thumbnail: Option<Seq<u8>>,
) -> Option<ClipboardError> {
    if takes_after_read(e, pairs) {
        match ownership_check(after_stored(e, pairs, timestamp, thumbnail), e.store.next_id) {
            Ok(_) => None,
            Err(err) => Some(err),
        }
    } else {
        None
    }
}

/// The state after the payloads read from `offer` have been handed in: they
/// enter the history, the engine takes the selection for the new entry unless
/// it only monitors, the offer becomes the current one, and the MIME types
/// announced so far are forgotten.
pub open spec fn after_read(
    e: EngineView,
    offer: u64,
    pairs: Seq<MimePair>,
    timestamp: u64,
    thumbnail: Option<Seq<u8>>,
) -> EngineView {
    let stored = after_stored(e, pairs, timestamp, thumbnail);
    let taken = if takes_after_read(e, pairs) {
        after_ownership(stored, e.store.next_id)
    } else {
        stored
    };
    EngineView { current_offer: Some(offer), offers: Map::empty(), ..taken }
}

/// The requests that follow a read: those that take the selection, if the
/// engine does, and then the one that destroys the offer.
pub open spec fn read_requests(
    e: EngineView,
    offer: u64,
    pairs: Seq<MimePair>,
    timestamp: u64,
    thumbnail: Option<Seq<u8>>,
) -> Seq<RequestView> {
    let stored = after_stored(e, pairs, timestamp, thumbnail);
    let take = if takes_after_read(e, pairs) {
        ownership_step_requests(stored, e.store.next_id)
    } else {
        Seq::empty()
    };
    take + seq![RequestView::DestroyOffer { offer }]
}

/// The entry that the owned source serves, if `source` is that source and
/// the entry is still in the history.
pub open spec fn served_entry(e: EngineView, source: u64) -> Option<ItemView> {
    match e.owned {
        Some(o) => if o.source == source && has_id(e.store.entries, o.entry_id) {
            Some(e.store.entries[position_of(e.store.entries, o.entry_id)])
        } else {
            None
        },
        None => None,
    }
}

/// The bytes to write when `source` is asked for `mime`.
pub open spec fn payload_for(e: EngineView, source: u64, mime: Seq<char>) -> Option<Seq<u8>> {
    match served_entry(e, source) {
        Some(entry) => lookup(entry.mime_data, mime),
        None => None,
    }
}

/// Whether `source` is the source that this process owns.
pub open spec fn owns(e: EngineView, source: u64) -> bool {
    e.owned is Some && e.owned->Some_0.source == source
}

/// The state after the compositor has cancelled `source`: if it is the owned
/// source, ownership ends and reading resumes; a source given up earlier is
/// passed over.
pub open spec fn after_cancelled(e: EngineView, source: u64) -> EngineView {
    if owns(e, source) {
        EngineView { owned: None, suppressed: false, ..e }
    } else {
        e
    }
}

/// The requests that follow the cancelling of `source`.
pub open spec fn cancelled_requests(e: EngineView, source: u64) -> Seq<RequestView> {
    if owns(e, source) {
        seq![RequestView::DestroySource { source }]
    } else {
        Seq::empty()
    }
}

/// Whether the owned source serves the entry `id`.
pub open spec fn serves(e: EngineView, id: u64) -> bool {
    e.owned is Some && e.owned->Some_0.entry_id == id
}

/// The state after the owned source was given up because its entry `id` is
/// about to leave the history. Only the ownership ends: whether selections
/// are read stays as it was, since no event of the compositor has yet shown
/// that the selection is another client's.
pub open spec fn after_release(e: EngineView, id: u64) -> EngineView {
    if serves(e, id) {
        EngineView { owned: None, ..e }
    } else {
        e
    }
}

/// The requests that give up the owned source if it serves the entry `id`.
pub open spec fn release_for(e: EngineView, id: u64) -> Seq<RequestView> {
    if serves(e, id) {
        release_requests(e.owned)
    } else {
        Seq::empty()
    }
}

/// The state after the entry `id` was asked to be deleted.
pub open spec fn after_delete(e: EngineView, id: u64) -> EngineView {
    if has_id(e.store.entries, id) {
        let released = after_release(e, id);
        EngineView {
            store: StoreView { entries: with_deleted(e.store.entries, id), ..e.store },
            ..released
        }
    } else {
        e
    }
}

/// The state after the pin of the entry `id` was asked to be set.
pub open spec fn after_pin(e: EngineView, id: u64, pinned: bool) -> EngineView {
    if has_id(e.store.entries, id) {
        EngineView {
            store: StoreView { entries: with_pin(e.store.entries, id, pinned), ..e.store },
            ..e
        }
    } else {
        e
    }
}

/// The state after the history was cleared.
pub open spec fn after_clear(e: EngineView) -> EngineView {
    EngineView { store: StoreView { entries: Seq::empty(), ..e.store }, ..e }
}

/// Whatever id this process takes the selection for, and whether or not it
/// can, the sources of this process that are in being afterwards are the one
/// that it then owns, or none: never more than one.
pub proof fn lemma_ownership_sources(e: EngineView, id: u64)
    ensures
        sources_after(owned_sources(e.owned), ownership_step_requests(e, id)) == owned_sources(
            after_ownership(e, id).owned,
        ),
        owned_sources(after_ownership(e, id).owned).len() <= 1,
{
    if ownership_check(e, id) is Ok {
        lemma_single_source(
            e.owned,
            e.next_source,
            keys_of(e.store.entries[position_of(e.store.entries, id)].mime_data),
        );
    }
    lemma_owned_sources_len(after_ownership(e, id).owned);
}

/// An owner holds at most one source.
pub proof fn lemma_owned_sources_len(owned: Option<OwnedSource>)
    ensures
        owned_sources(owned).finite(),
        owned_sources(owned).len() <= 1,
{
    match owned {
        Some(o) => {
            assert(owned_sources(owned) =~= Set::<u64>::empty().insert(o.source));
        },
        None => {},
    }
}

} // verus!
