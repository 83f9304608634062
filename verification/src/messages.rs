//! The messages that a client and the engine exchange, and how the engine
//! answers each message of a client.

use crate::backend_state::BackendState;
use crate::engine_model::{
    after_clear, after_delete, after_ownership, after_pin, ownership_check,
    ownership_step_requests, release_for, EngineView,
};
use crate::error::ClipboardError;
use crate::item::{preview_of, ClipboardItemPreview, ItemView, PreviewView};
use crate::request::{request_views, Request, RequestView};
use crate::store_model::has_id;
use vstd::prelude::*;
use vstd::string::*;

verus! {

/// What a client asks of the engine.
#[derive(Debug, Clone, Copy, PartialEq, Eq, Structural)]
pub enum FrontendMessage {
    /// List the history.
    GetHistory,
    /// Make the entry the selection.
    SetClipboardById { id: u64 },
    /// Pin or unpin the entry.
    SetPinned { id: u64, pinned: bool },
    /// Delete the entry.
    DeleteItemById { id: u64 },
    /// Delete every entry.
    ClearHistory,
}

/// What the engine answers or announces to a client.
#[derive(Debug, PartialEq, Eq)]
pub enum BackendMessage {
    /// The previews of all entries, without payloads.
    History { items: Vec<ClipboardItemPreview> },
    /// An entry was added.
    NewItem { item: ClipboardItemPreview },
    /// The entry was made the selection.
    ClipboardSet,
    /// The pin of the entry was set.
    ItemPinned { id: u64, pinned: bool },
    /// The entry was deleted.
    ItemDeleted { id: u64 },
    /// The history was cleared.
    HistoryCleared,
    /// The request failed.
    Error { message: String },
}

/// What a [`BackendMessage`] holds, as plain values.
pub ghost enum BackendMessageView {
    History { items: Seq<PreviewView> },
    NewItem { item: PreviewView },
    ClipboardSet,
    ItemPinned { id: u64, pinned: bool },
    ItemDeleted { id: u64 },
    HistoryCleared,
    Error { message: Seq<char> },
}

impl View for BackendMessage {
    type V = BackendMessageView;

    open spec fn view(&self) -> BackendMessageView {
        match self {
            BackendMessage::History { items } => BackendMessageView::History {
                items: items@.map_values(|p: ClipboardItemPreview| p@),
            },
            BackendMessage::NewItem { item } => BackendMessageView::NewItem { item: item@ },
            BackendMessage::ClipboardSet => BackendMessageView::ClipboardSet,
            BackendMessage::ItemPinned { id, pinned } => BackendMessageView::ItemPinned {
                id: *id,
                pinned: *pinned,
            },
            BackendMessage::ItemDeleted { id } => BackendMessageView::ItemDeleted { id: *id },
            BackendMessage::HistoryCleared => BackendMessageView::HistoryCleared,
            BackendMessage::Error { message } => BackendMessageView::Error { message: message@ },
        }
    }
}

/// The answer to a request that names an entry: `done` if the history has
/// the entry, else the error that says it has not.
pub open spec fn entry_reply(e: EngineView, id: u64, done: BackendMessageView) -> BackendMessageView {
    if has_id(e.store.entries, id) {
        done
    } else {
        BackendMessageView::Error { message: (ClipboardError::UnknownEntry { id }).text() }
    }
}

/// The answer that the engine gives to `msg` in the state `e`.
pub open spec fn reply_to(e: EngineView, msg: FrontendMessage) -> BackendMessageView {
    match msg {
        FrontendMessage::GetHistory => BackendMessageView::History {
            items: e.store.entries.map_values(|x: ItemView| preview_of(x)),
        },
        FrontendMessage::SetClipboardById { id } => match ownership_check(e, id) {
            Ok(_) => BackendMessageView::ClipboardSet,
            Err(err) => BackendMessageView::Error { message: err.text() },
        },
        FrontendMessage::SetPinned { id, pinned } => entry_reply(
            e,
            id,
            BackendMessageView::ItemPinned { id, pinned },
        ),
        FrontendMessage::DeleteItemById { id } => entry_reply(
            e,
            id,
            BackendMessageView::ItemDeleted { id },
        ),
        FrontendMessage::ClearHistory => BackendMessageView::HistoryCleared,
    }
}

/// The state in which `msg` leaves the engine.
pub open spec fn after_message(e: EngineView, msg: FrontendMessage) -> EngineView {
    match msg {
        FrontendMessage::GetHistory => e,
        FrontendMessage::SetClipboardById { id } => after_ownership(e, id),
        FrontendMessage::SetPinned { id, pinned } => after_pin(e, id, pinned),
        FrontendMessage::DeleteItemById { id } => after_delete(e, id),
        FrontendMessage::ClearHistory => after_clear(e),
    }
}

/// The requests that `msg` calls for.
pub open spec fn message_requests(e: EngineView, msg: FrontendMessage) -> Seq<RequestView> {
    match msg {
        FrontendMessage::SetClipboardById { id } => ownership_step_requests(e, id),
        FrontendMessage::DeleteItemById { id } => if has_id(e.store.entries, id) {
            release_for(e, id)
        } else {
            Seq::empty()
        },
        _ => Seq::empty(),
    }
}

/// Whether `reply` is the answer that says that `msg` was carried out.
pub open spec fn accepts(msg: FrontendMessage, reply: BackendMessageView) -> bool {
    match msg {
        FrontendMessage::GetHistory => reply is History,
        FrontendMessage::SetClipboardById { .. } => reply is ClipboardSet,
        FrontendMessage::SetPinned { .. } => reply is ItemPinned,
        FrontendMessage::DeleteItemById { .. } => reply is ItemDeleted,
        FrontendMessage::ClearHistory => reply is HistoryCleared,
    }
}

/// What a client makes of `reply` as the answer to `msg`: success, the
/// message of the error that the engine reports, or else a complaint.
pub open spec fn outcome_of(msg: FrontendMessage, reply: BackendMessageView) -> Result<
    (),
    Seq<char>,
> {
    if accepts(msg, reply) {
        Ok(())
    } else {
        match reply {
            BackendMessageView::Error { message } => Err(message),
            _ => Err("Unexpected response"@),
        }
    }
}

impl FrontendMessage {
    /// Tells whether `reply` says that this message was carried out, and
    /// gives the reason if it does not.
    pub fn check_reply(&self, reply: &BackendMessage) -> (r: Result<(), String>)
        ensures
            match r {
                Ok(_) => outcome_of(*self, reply@) is Ok,
                Err(reason) => outcome_of(*self, reply@) == Err::<(), Seq<char>>(reason@),
            },
    {
        let accepted = match (self, reply) {
            (FrontendMessage::GetHistory, BackendMessage::History { .. }) => true,
            (FrontendMessage::SetClipboardById { .. }, BackendMessage::ClipboardSet) => true,
            (FrontendMessage::SetPinned { .. }, BackendMessage::ItemPinned { .. }) => true,
            (FrontendMessage::DeleteItemById { .. }, BackendMessage::ItemDeleted { .. }) => true,
            (FrontendMessage::ClearHistory, BackendMessage::HistoryCleared) => true,
            _ => false,
        };
        if accepted {
            Ok(())
        } else {
            match reply {
                BackendMessage::Error { message } => Err(message.clone()),
                _ => Err(String::from_str("Unexpected response")),
            }
        }
    }
}

/// The engine answers every message either with the answer that the client
/// expects for it or with an error: never with anything else.
pub proof fn lemma_reply_is_expected(e: EngineView, msg: FrontendMessage)
    ensures
        accepts(msg, reply_to(e, msg)) || reply_to(e, msg) is Error,
        outcome_of(msg, reply_to(e, msg)) is Err ==> reply_to(e, msg) is Error,
{
}

impl BackendState {
    /// Carries out what a client asks, and returns the answer for the client
    /// together with the requests to send to the compositor.
    pub fn handle_message(&mut self, msg: FrontendMessage) -> (r: (BackendMessage, Vec<Request>))
        requires
            old(self).wf(),
        ensures
            final(self).wf(),
            final(self)@ == after_message(old(self)@, msg),
            r.0@ == reply_to(old(self)@, msg),
            request_views(r.1@) == message_requests(old(self)@, msg),
    {
        let none: Vec<Request> = Vec::new();
        assert(request_views(none@) =~= Seq::<RequestView>::empty());
        match msg {
            FrontendMessage::GetHistory => (
                BackendMessage::History { items: self.get_history() },
                none,
            ),
            FrontendMessage::SetClipboardById { id } => match self.set_clipboard_by_id(id) {
                Ok(requests) => (BackendMessage::ClipboardSet, requests),
                Err(e) => (BackendMessage::Error { message: e.message() }, none),
            },
            FrontendMessage::SetPinned { id, pinned } => match self.set_pinned(id, pinned) {
                Ok(_) => (BackendMessage::ItemPinned { id, pinned }, none),
                Err(e) => (BackendMessage::Error { message: e.message() }, none),
            },
            FrontendMessage::DeleteItemById { id } => match self.delete_item_by_id(id) {
                Ok(requests) => (BackendMessage::ItemDeleted { id }, requests),
                Err(e) => (BackendMessage::Error { message: e.message() }, none),
            },
            FrontendMessage::ClearHistory => {
                self.clear_history();
                (BackendMessage::HistoryCleared, none)
            },
        }
    }
}

} // verus!
