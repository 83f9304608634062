//! The protocol engine: the history together with what is known of the
//! compositor's selection and of this process's own source.
//!
//! The engine sends nothing itself. Each event of the compositor and each
//! operation of a client is one call, which changes the state and returns
//! the requests that the caller is to send, in order.

use crate::engine_model::{
    after_bind, after_cancelled, after_clear, after_data_offer, after_delete, after_offer,
    after_ownership, after_pin, after_read, after_release, after_selection, after_stored,
    cancelled_requests, engine_wf, initial_engine, ownership_check, ownership_step_requests,
    payload_for, read_entry_id, read_ownership_error, read_requests, release_for,
    selection_outcome, selection_requests, selection_targets, text_entry, EngineView,
    SelectionOutcome,
};
use crate::error::ClipboardError;
use crate::item::{bytes_view, preview_of, ClipboardItem, ClipboardItemPreview, ItemView};
use crate::mime_map::{
    keys_of, mime_map_get, mime_map_get_index, mime_map_insert, mime_map_len, mime_map_new,
    mime_pairs, payload_bytes, payload_from_vec,
};
use crate::offer_reader::{read_targets, texts};
use crate::protocol::DataControlProtocol;
use crate::request::{
    offer_requests, release_requests, request_views, OwnedSource, Request, RequestView,
};
use crate::store::ClipboardStore;
use crate::store_model::{has_id, position_of};
use bytes::Bytes;
use indexmap::IndexMap;
use std::collections::HashMap;
use vstd::prelude::*;
use vstd::string::*;

verus! {

broadcast use vstd::std_specs::hash::group_hash_axioms;

/// The state of the protocol engine.
pub struct BackendState {
    store: ClipboardStore,
    mime_type_offers: HashMap<u64, Vec<String>>,
    current_data_offer: Option<u64>,
    current_source: Option<OwnedSource>,
    suppress_next_selection_read: bool,
    monitor_only: bool,
    active_protocol: Option<DataControlProtocol>,
    next_source: u64,
}

/// What the engine tells its caller about a selection event.
#[derive(Debug)]
pub struct SelectionStep {
    /// How the event was taken.
    pub outcome: SelectionOutcome,
    /// The MIME types to read from the offer, when the outcome is to read.
    pub targets: Vec<String>,
    /// The requests to send.
    pub requests: Vec<Request>,
}

/// What the engine tells its caller after the payloads of an offer were handed in.
#[derive(Debug)]
pub struct ReadStep {
    /// The id of the entry made from the payloads, if one was made.
    pub new_id: Option<u64>,
    /// Why the selection was not taken for the new entry, if that was tried and failed.
    pub ownership_error: Option<ClipboardError>,
    /// The requests to send.
    pub requests: Vec<Request>,
}

/// The requests that announce every MIME type of `item` on `source`.
fn push_offers(requests: &mut Vec<Request>, item: &ClipboardItem, source: u64)
    ensures
        request_views(final(requests)@) == request_views(old(requests)@) + offer_requests(
            source,
            keys_of(item@.mime_data),
        ),
{
    let n = mime_map_len(&item.mime_data);
    let ghost before = request_views(requests@);
    let ghost keys = keys_of(item@.mime_data);
    let mut i: usize = 0;
    assert(request_views(requests@) =~= before + offer_requests(source, keys.take(0)));
    while i < n
        invariant
            i <= n,
            n == mime_pairs(item.mime_data).len(),
            keys == keys_of(item@.mime_data),
            request_views(requests@) == before + offer_requests(source, keys.take(i as int)),
        decreases n - i,
    {
        let ghost so_far = request_views(requests@);
        let pair = mime_map_get_index(&item.mime_data, i);
        let (key, _) = pair.unwrap();
        requests.push(Request::Offer { source, mime_type: key.clone() });
        proof {
            assert(request_views(requests@) =~= so_far.push(
                RequestView::Offer { source, mime_type: keys[i as int] },
            ));
            assert(offer_requests(source, keys.take(i + 1)) =~= offer_requests(
                source,
                keys.take(i as int),
            ).push(RequestView::Offer { source, mime_type: keys[i as int] }));
        }
        i += 1;
    }
    assert(keys.take(n as int) =~= keys);
}

impl Default for BackendState {
    /// An engine with an empty history, bound to no device.
    fn default() -> (r: Self)
        ensures
            r.wf(),
            r@ == initial_engine(),
    {
        BackendState::new()
    }
}

impl View for BackendState {
    type V = EngineView;

    closed spec fn view(&self) -> EngineView {
        EngineView {
            store: self.store@,
            offers: self.mime_type_offers@.map_values(|v: Vec<String>| texts(v@)),
            current_offer: self.current_data_offer,
            owned: self.current_source,
            suppressed: self.suppress_next_selection_read,
            monitor_only: self.monitor_only,
            protocol: self.active_protocol,
            next_source: self.next_source,
        }
    }
}

impl BackendState {
    /// The invariant of the engine.
    pub open spec fn wf(&self) -> bool {
        engine_wf(self@)
    }

    /// An engine with an empty history, bound to no device.
    pub fn new() -> (r: Self)
        ensures
            r.wf(),
            r@ == initial_engine(),
    {
        let r = BackendState {
            store: ClipboardStore::new(),
            mime_type_offers: HashMap::new(),
            current_data_offer: None,
            current_source: None,
            suppress_next_selection_read: false,
            monitor_only: false,
            active_protocol: None,
            next_source: 1,
        };
        assert(r@.offers =~= Map::<u64, Seq<Seq<char>>>::empty());
        r
    }

    /// Sets whether the engine only monitors: whether it leaves a selection
    /// that it has read with the client that made it.
    pub fn set_monitor_only(&mut self, monitor_only: bool)
        ensures
            final(self)@ == (EngineView { monitor_only, ..old(self)@ }),
    {
        self.monitor_only = monitor_only;
    }

    /// Records that a data-control device of `protocol` is bound. The variant
    /// recorded first stays.
    pub fn bind(&mut self, protocol: DataControlProtocol)
        ensures
            final(self)@ == after_bind(old(self)@, protocol),
    {
        if self.active_protocol.is_none() {
            self.active_protocol = Some(protocol);
        }
    }

    /// The variant of the protocol whose device is bound.
    pub fn active_protocol(&self) -> (r: Option<DataControlProtocol>)
        ensures
            r == self@.protocol,
    {
        self.active_protocol
    }

    /// Whether the engine only monitors.
    pub fn is_monitor_only(&self) -> (r: bool)
        ensures
            r == self@.monitor_only,
    {
        self.monitor_only
    }

    /// Whether selections are at present recorded without being read.
    pub fn is_suppressed(&self) -> (r: bool)
        ensures
            r == self@.suppressed,
    {
        self.suppress_next_selection_read
    }

    /// The source that this process owns, with the entry that it serves.
    pub fn owned_source(&self) -> (r: Option<OwnedSource>)
        ensures
            r == self@.owned,
    {
        self.current_source
    }

    /// The offer that the last selection named.
    pub fn current_offer(&self) -> (r: Option<u64>)
        ensures
            r == self@.current_offer,
    {
        self.current_data_offer
    }

    /// The compositor has announced the offer `offer`: it is tracked from
    /// now on, with no MIME type yet.
    pub fn on_data_offer(&mut self, offer: u64)
        ensures
            final(self)@ == after_data_offer(old(self)@, offer),
    {
        self.mime_type_offers.insert(offer, Vec::new());
        assert(texts(Seq::<String>::empty()) =~= Seq::<Seq<char>>::empty());
        assert(self@.offers =~= old(self)@.offers.insert(offer, Seq::empty()));
    }

    /// The offer `offer` has announced the MIME type `mime_type`.
    pub fn on_offer(&mut self, offer: u64, mime_type: String)
        ensures
            final(self)@ == after_offer(old(self)@, offer, mime_type@),
    {
        match self.mime_type_offers.remove(&offer) {
            Some(mut list) => {
                let ghost before = list@;
                list.push(mime_type);
                assert(texts(list@) =~= texts(before).push(mime_type@));
                self.mime_type_offers.insert(offer, list);
                assert(self@.offers =~= old(self)@.offers.insert(
                    offer,
                    old(self)@.offers[offer].push(mime_type@),
                ));
            },
            None => {
                assert(self@.offers =~= old(self)@.offers);
            },
        }
    }

    /// The selection has changed to `offer`, or was cleared.
    ///
    /// When the outcome is to read, the caller reads the targets from the
    /// offer and hands the payloads to [`BackendState::complete_read`]; the
    /// state is as before until then.
    pub fn on_selection(&mut self, offer: Option<u64>) -> (r: SelectionStep)
        ensures
            final(self)@ == after_selection(old(self)@, offer),
            r.outcome == selection_outcome(old(self)@, offer),
            texts(r.targets@) == selection_targets(old(self)@, offer),
            request_views(r.requests@) == selection_requests(old(self)@, offer),
    {
        let mut targets: Vec<String> = Vec::new();
        let mut requests: Vec<Request> = Vec::new();
        assert(texts(targets@) =~= Seq::<Seq<char>>::empty());
        assert(request_views(requests@) =~= Seq::<RequestView>::empty());
        let outcome = match offer {
            None => {
                self.current_data_offer = None;
                SelectionOutcome::Cleared
            },
            Some(o) => {
                match self.mime_type_offers.get(&o) {
                    None => SelectionOutcome::Untracked,
                    Some(list) => {
                        if self.suppress_next_selection_read {
                            requests.push(Request::DestroyOffer { offer: o });
                            self.current_data_offer = Some(o);
                            SelectionOutcome::Suppressed
                        } else if self.current_data_offer == Some(o) {
                            requests.push(Request::DestroyOffer { offer: o });
                            SelectionOutcome::Unchanged
                        } else {
                            targets = read_targets(list);
                            SelectionOutcome::Read
                        }
                    },
                }
            },
        };
        proof {
            if outcome == SelectionOutcome::Suppressed || outcome == SelectionOutcome::Unchanged {
                assert(request_views(requests@) =~= seq![
                    RequestView::DestroyOffer { offer: offer->Some_0 },
                ]);
            }
        }
        SelectionStep { outcome, targets, requests }
    }

    /// Takes the selection for the entry `entry_id`: this process offers the
    /// payloads of that entry from now on, under a source of its own.
    ///
    /// A source owned so far is destroyed before the new one is created, and
    /// the new one has another handle. Fails, with nothing changed and
    /// nothing to send, if the history has no such entry or if no device is
    /// bound.
    pub fn set_clipboard_by_id(&mut self, entry_id: u64) -> (r: Result<Vec<Request>, ClipboardError>)
        requires
            old(self).wf(),
        ensures
            final(self).wf(),
            final(self)@ == after_ownership(old(self)@, entry_id),
            match r {
                Ok(requests) => ownership_check(old(self)@, entry_id) is Ok && request_views(
                    requests@,
                ) == ownership_step_requests(old(self)@, entry_id),
                Err(e) => ownership_check(old(self)@, entry_id) == Err::<(), ClipboardError>(e),
            },
            r is Ok && old(self)@.owned is Some ==> final(self)@.owned->Some_0.source != old(
                self,
            )@.owned->Some_0.source,
    {
        let mut requests: Vec<Request> = Vec::new();
        let source = self.next_source;
        match self.store.get(entry_id) {
            None => {
                return Err(ClipboardError::UnknownEntry { id: entry_id });
            },
            Some(item) => {
                if self.active_protocol.is_none() {
                    return Err(ClipboardError::NotBound);
                }
                match self.current_source {
                    Some(prev) => {
                        requests.push(Request::DestroySource { source: prev.source });
                    },
                    None => {},
                }
                requests.push(Request::CreateSource { source });
                let ghost head = request_views(requests@);
                push_offers(&mut requests, item, source);
                let ghost body = request_views(requests@);
                requests.push(Request::SetSelection { source });
                requests.push(Request::Flush);
                proof {
                    assert(request_views(requests@) =~= body + seq![
                        RequestView::SetSelection { source },
                        RequestView::Flush,
                    ]);
                    assert(head =~= release_requests(old(self)@.owned) + seq![
                        RequestView::CreateSource { source },
                    ]);
                }
            },
        }
        self.current_source = Some(OwnedSource { source, entry_id });
        self.suppress_next_selection_read = true;
        self.next_source = if source == u64::MAX {
            0
        } else {
            source + 1
        };
        Ok(requests)
    }

    /// The payloads read from the offer `offer` are handed in.
    ///
    /// They enter the history as a new entry with the time `timestamp` and,
    /// if the entry is an image, the thumbnail `thumbnail`. Unless the engine
    /// only monitors, it then takes the selection for the new entry. The
    /// offer becomes the current one and is destroyed, and the MIME types
    /// announced so far are forgotten.
    pub fn complete_read(
        &mut self,
        offer: u64,
        payloads: IndexMap<String, Bytes>,
        timestamp: u64,
        thumbnail: Option<Vec<u8>>,
    ) -> (r: ReadStep)
        requires
            old(self).wf(),
        ensures
            final(self).wf(),
            final(self)@ == after_read(
                old(self)@,
                offer,
                mime_pairs(payloads),
                timestamp,
                bytes_view(thumbnail),
            ),
            r.new_id == read_entry_id(old(self)@, mime_pairs(payloads)),
            r.ownership_error == read_ownership_error(
                old(self)@,
                mime_pairs(payloads),
                timestamp,
                bytes_view(thumbnail),
            ),
            request_views(r.requests@) == read_requests(
                old(self)@,
                offer,
                mime_pairs(payloads),
                timestamp,
                bytes_view(thumbnail),
            ),
    {
        let ghost pairs = mime_pairs(payloads);
        let ghost thumb = bytes_view(thumbnail);
        let new_id = self.store.insert(payloads, timestamp, thumbnail);
        assert(self@ == after_stored(old(self)@, pairs, timestamp, thumb));
        let mut ownership_error: Option<ClipboardError> = None;
        let mut requests: Vec<Request> = Vec::new();
        assert(request_views(requests@) =~= Seq::<RequestView>::empty());
        match new_id {
            Some(id) => {
                if !self.monitor_only {
                    match self.set_clipboard_by_id(id) {
                        Ok(taken) => {
                            requests = taken;
                        },
                        Err(e) => {
                            ownership_error = Some(e);
                        },
                    }
                }
            },
            None => {},
        }
        let ghost take = request_views(requests@);
        requests.push(Request::DestroyOffer { offer });
        assert(request_views(requests@) =~= take + seq![RequestView::DestroyOffer { offer }]);
        self.current_data_offer = Some(offer);
        self.mime_type_offers.clear();
        assert(self@.offers =~= Map::<u64, Seq<Seq<char>>>::empty());
        ReadStep { new_id, ownership_error, requests }
    }

    /// The source `source` is asked for its payload of the type `mime_type`.
    ///
    /// Returns the bytes to write: those that the entry served by the owned
    /// source holds under that type. Nothing is to be written if `source` is
    /// not the owned source, if its entry has left the history, or if the
    /// entry has no payload of that type.
    pub fn on_send(&self, source: u64, mime_type: &str) -> (r: Option<&Bytes>)
        ensures
            match r {
                Some(b) => payload_for(self@, source, mime_type@) == Some(payload_bytes(*b)),
                None => payload_for(self@, source, mime_type@) is None,
            },
    {
        match self.current_source {
            Some(o) => {
                if o.source != source {
                    return None;
                }
                match self.store.get(o.entry_id) {
                    Some(item) => mime_map_get(&item.mime_data, mime_type),
                    None => None,
                }
            },
            None => None,
        }
    }

    /// The compositor has cancelled `source`: another client has taken the selection.
    pub fn on_cancelled(&mut self, source: u64) -> (r: Vec<Request>)
        ensures
            final(self)@ == after_cancelled(old(self)@, source),
            request_views(r@) == cancelled_requests(old(self)@, source),
            old(self).wf() ==> final(self).wf(),
    {
        let mut requests: Vec<Request> = Vec::new();
        let owned = match self.current_source {
            Some(o) => o.source == source,
            None => false,
        };
        if owned {
            self.current_source = None;
            self.suppress_next_selection_read = false;
            requests.push(Request::DestroySource { source });
            assert(request_views(requests@) =~= seq![RequestView::DestroySource { source }]);
        } else {
            assert(request_views(requests@) =~= Seq::<RequestView>::empty());
        }
        requests
    }

    /// Gives up the owned source if it serves the entry `entry_id`, which is
    /// about to leave the history.
    ///
    /// Only the ownership ends. If reading was suppressed it stays so: it
    /// resumes when a source that this process owns later is cancelled.
    pub fn on_delete(&mut self, entry_id: u64) -> (r: Vec<Request>)
        ensures
            final(self)@ == after_release(old(self)@, entry_id),
            request_views(r@) == release_for(old(self)@, entry_id),
            old(self).wf() ==> final(self).wf(),
    {
        let mut requests: Vec<Request> = Vec::new();
        assert(request_views(requests@) =~= Seq::<RequestView>::empty());
        match self.current_source {
            Some(o) => {
                if o.entry_id == entry_id {
                    self.current_source = None;
                    requests.push(Request::DestroySource { source: o.source });
                    assert(request_views(requests@) =~= seq![
                        RequestView::DestroySource { source: o.source },
                    ]);
                }
            },
            None => {},
        }
        requests
    }

    /// Deletes the entry `id`. If the owned source serves it, the source is
    /// given up first, as [`BackendState::on_delete`] says: reading stays
    /// suppressed if it was.
    pub fn delete_item_by_id(&mut self, id: u64) -> (r: Result<Vec<Request>, ClipboardError>)
        requires
            old(self).wf(),
        ensures
            final(self).wf(),
            final(self)@ == after_delete(old(self)@, id),
            match r {
                Ok(requests) => has_id(old(self)@.store.entries, id) && request_views(requests@)
                    == release_for(old(self)@, id),
                Err(e) => !has_id(old(self)@.store.entries, id) && e
                    == (ClipboardError::UnknownEntry { id }),
            },
    {
        if self.store.get(id).is_none() {
            return Err(ClipboardError::UnknownEntry { id });
        }
        let requests = self.on_delete(id);
        let deleted = self.store.delete(id);
        Ok(requests)
    }

    /// Sets the pin of the entry `id` and moves the entry to its new place.
    pub fn set_pinned(&mut self, id: u64, pinned: bool) -> (r: Result<(), ClipboardError>)
        requires
            old(self).wf(),
        ensures
            final(self).wf(),
            final(self)@ == after_pin(old(self)@, id, pinned),
            match r {
                Ok(_) => has_id(old(self)@.store.entries, id),
                Err(e) => !has_id(old(self)@.store.entries, id) && e
                    == (ClipboardError::UnknownEntry { id }),
            },
    {
        if self.store.set_pinned(id, pinned) {
            Ok(())
        } else {
            Err(ClipboardError::UnknownEntry { id })
        }
    }

    /// Removes every entry of the history.
    pub fn clear_history(&mut self)
        requires
            old(self).wf(),
        ensures
            final(self).wf(),
            final(self)@ == after_clear(old(self)@),
    {
        self.store.clear();
    }

    /// Takes a selection into the history without any event of the
    /// compositor, and returns the id of its entry.
    pub fn add_clipboard_item_from_mime_map(
        &mut self,
        mime_content: IndexMap<String, Bytes>,
        timestamp: u64,
        thumbnail: Option<Vec<u8>>,
    ) -> (r: Option<u64>)
        requires
            old(self).wf(),
        ensures
            final(self).wf(),
            final(self)@ == after_stored(
                old(self)@,
                mime_pairs(mime_content),
                timestamp,
                bytes_view(thumbnail),
            ),
            r == read_entry_id(old(self)@, mime_pairs(mime_content)),
    {
        self.store.insert(mime_content, timestamp, thumbnail)
    }

    /// Takes a copied text into the history, as the payload of the plain
    /// text type, and returns the id of its entry.
    pub fn add_clipboard_item(&mut self, content: String, timestamp: u64) -> (r: Option<u64>)
        requires
            old(self).wf(),
        ensures
            final(self).wf(),
            final(self)@ == after_stored(old(self)@, text_entry(content@), timestamp, None),
            r == read_entry_id(old(self)@, text_entry(content@)),
    {
        let mut map = mime_map_new();
        let bytes = content.as_str().as_bytes_vec();
        let _ = mime_map_insert(
            &mut map,
            String::from_str("text/plain;charset=utf-8"),
            payload_from_vec(bytes),
        );
        assert(mime_pairs(map) =~= text_entry(content@)) by {
            reveal_with_fuel(crate::mime_map::put, 2);
        }
        self.store.insert(map, timestamp, None)
    }

    /// The previews of all entries, in the order of the history.
    pub fn get_history(&self) -> (r: Vec<ClipboardItemPreview>)
        ensures
            r@.map_values(|p: ClipboardItemPreview| p@) == self@.store.entries.map_values(
                |e: ItemView| preview_of(e),
            ),
    {
        self.store.get_history()
    }

    /// A copy of the entry `id`, if the history has it.
    pub fn get_item_by_id(&self, id: u64) -> (r: Option<ClipboardItem>)
        ensures
            match r {
                Some(item) => has_id(self@.store.entries, id) && item@
                    == self@.store.entries[position_of(self@.store.entries, id)],
                None => !has_id(self@.store.entries, id),
            },
    {
        match self.store.get(id) {
            Some(item) => Some(item.clone()),
            None => None,
        }
    }
}

} // verus!
