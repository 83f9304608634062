use bytes::Bytes;
use cursor_clip::backend_state::BackendState;
use cursor_clip::engine_model::SelectionOutcome;
use cursor_clip::error::ClipboardError;
use cursor_clip::protocol::DataControlProtocol;
use cursor_clip::request::{OwnedSource, Request};
use indexmap::IndexMap;
use std::collections::HashSet;

const TEXT: &str = "text/plain;charset=utf-8";

fn text_map(text: &str) -> IndexMap<String, Bytes> {
    let mut map = IndexMap::new();
    map.insert(TEXT.to_string(), Bytes::from(text.as_bytes().to_vec()));
    map
}

fn bound() -> BackendState {
    let mut state = BackendState::new();
    state.bind(DataControlProtocol::Ext);
    state
}

fn live_after(live: &mut HashSet<u64>, requests: &[Request]) {
    for r in requests {
        match r {
            Request::CreateSource { source } => {
                live.insert(*source);
            }
            Request::DestroySource { source } => {
                live.remove(source);
            }
            _ => {}
        }
    }
}

#[test]
fn a_new_engine_is_idle() {
    let state = BackendState::new();
    assert!(state.get_history().is_empty());
    assert_eq!(state.owned_source(), None);
    assert_eq!(state.current_offer(), None);
    assert_eq!(state.active_protocol(), None);
    assert!(!state.is_suppressed());
    assert!(!state.is_monitor_only());
}

#[test]
fn the_first_bound_protocol_stays() {
    let mut state = BackendState::new();
    state.bind(DataControlProtocol::Wlr);
    assert_eq!(state.active_protocol(), Some(DataControlProtocol::Wlr));
    state.bind(DataControlProtocol::Ext);
    assert_eq!(state.active_protocol(), Some(DataControlProtocol::Wlr));
}

#[test]
fn taking_ownership_offers_every_type_in_stored_order() {
    let mut state = bound();
    let mut map = IndexMap::new();
    map.insert("text/html".to_string(), Bytes::from(b"<b>x</b>".to_vec()));
    map.insert(TEXT.to_string(), Bytes::from(b"x".to_vec()));
    map.insert("STRING".to_string(), Bytes::from(b"x".to_vec()));
    let id = state.add_clipboard_item_from_mime_map(map, 1, None).unwrap();
    let requests = state.set_clipboard_by_id(id).unwrap();
    assert_eq!(
        requests,
        vec![
            Request::CreateSource { source: 1 },
            Request::Offer { source: 1, mime_type: "text/html".to_string() },
            Request::Offer { source: 1, mime_type: TEXT.to_string() },
            Request::Offer { source: 1, mime_type: "STRING".to_string() },
            Request::SetSelection { source: 1 },
            Request::Flush,
        ]
    );
    assert_eq!(state.owned_source(), Some(OwnedSource { source: 1, entry_id: id }));
    assert!(state.is_suppressed());
}

#[test]
fn taking_ownership_again_destroys_the_prior_source_first() {
    let mut state = bound();
    let a = state.add_clipboard_item_from_mime_map(text_map("a"), 1, None).unwrap();
    let b = state.add_clipboard_item_from_mime_map(text_map("b"), 1, None).unwrap();
    let mut live = HashSet::new();
    let first = state.set_clipboard_by_id(a).unwrap();
    live_after(&mut live, &first);
    assert_eq!(live.len(), 1);
    let second = state.set_clipboard_by_id(b).unwrap();
    assert_eq!(second[0], Request::DestroySource { source: 1 });
    assert_eq!(second[1], Request::CreateSource { source: 2 });
    live_after(&mut live, &second);
    assert_eq!(live.into_iter().collect::<Vec<u64>>(), vec![2]);
    assert_eq!(state.owned_source(), Some(OwnedSource { source: 2, entry_id: b }));
    let third = state.set_clipboard_by_id(b).unwrap();
    assert_eq!(third[0], Request::DestroySource { source: 2 });
    assert_eq!(third[1], Request::CreateSource { source: 3 });
}

#[test]
fn many_takes_leave_one_source() {
    let mut state = bound();
    let mut live = HashSet::new();
    for i in 0..20u32 {
        let id = state
            .add_clipboard_item_from_mime_map(text_map(&format!("t{}", i)), 1, None)
            .unwrap();
        let requests = state.set_clipboard_by_id(id).unwrap();
        live_after(&mut live, &requests);
        assert_eq!(live.len(), 1);
        assert!(live.contains(&state.owned_source().unwrap().source));
    }
}

#[test]
fn taking_ownership_of_an_unknown_entry_fails() {
    let mut state = bound();
    state.add_clipboard_item_from_mime_map(text_map("a"), 1, None);
    assert_eq!(state.set_clipboard_by_id(9), Err(ClipboardError::UnknownEntry { id: 9 }));
    assert_eq!(state.owned_source(), None);
    assert!(!state.is_suppressed());
}

#[test]
fn taking_ownership_without_a_device_fails() {
    let mut state = BackendState::new();
    let id = state.add_clipboard_item_from_mime_map(text_map("a"), 1, None).unwrap();
    assert_eq!(state.set_clipboard_by_id(id), Err(ClipboardError::NotBound));
    assert_eq!(state.set_clipboard_by_id(77), Err(ClipboardError::UnknownEntry { id: 77 }));
    assert_eq!(state.owned_source(), None);
    assert!(!state.is_suppressed());
    state.bind(DataControlProtocol::Wlr);
    assert!(state.set_clipboard_by_id(id).is_ok());
}

#[test]
fn send_writes_the_stored_bytes() {
    let mut state = bound();
    let id = state.add_clipboard_item_from_mime_map(text_map("hello"), 1, None).unwrap();
    state.set_clipboard_by_id(id).unwrap();
    let source = state.owned_source().unwrap().source;
    let payload = state.on_send(source, TEXT).unwrap();
    assert_eq!(payload.as_ref(), b"hello");
    assert!(state.on_send(source, "text/unknown").is_none());
    assert!(state.on_send(source, "").is_none());
}

#[test]
fn send_on_another_source_writes_nothing() {
    let mut state = bound();
    let id = state.add_clipboard_item_from_mime_map(text_map("hello"), 1, None).unwrap();
    assert!(state.on_send(1, TEXT).is_none());
    state.set_clipboard_by_id(id).unwrap();
    assert!(state.on_send(2, TEXT).is_none());
    assert!(state.on_send(1, TEXT).is_some());
}

#[test]
fn send_writes_nothing_once_the_entry_is_gone() {
    let mut state = bound();
    let id = state.add_clipboard_item_from_mime_map(text_map("hello"), 1, None).unwrap();
    state.set_clipboard_by_id(id).unwrap();
    state.clear_history();
    assert_eq!(state.owned_source(), Some(OwnedSource { source: 1, entry_id: id }));
    assert!(state.on_send(1, TEXT).is_none());
}

#[test]
fn selection_is_not_read_while_suppressed() {
    let mut state = bound();
    let id = state.add_clipboard_item_from_mime_map(text_map("mine"), 1, None).unwrap();
    state.set_clipboard_by_id(id).unwrap();
    state.on_data_offer(40);
    state.on_offer(40, TEXT.to_string());
    let step = state.on_selection(Some(40));
    assert_eq!(step.outcome, SelectionOutcome::Suppressed);
    assert!(step.targets.is_empty());
    assert_eq!(step.requests, vec![Request::DestroyOffer { offer: 40 }]);
    assert_eq!(state.current_offer(), Some(40));
    assert!(state.is_suppressed());
    assert_eq!(state.get_history().len(), 1);

    let requests = state.on_cancelled(1);
    assert_eq!(requests, vec![Request::DestroySource { source: 1 }]);
    assert!(!state.is_suppressed());
    assert_eq!(state.owned_source(), None);

    state.on_data_offer(41);
    state.on_offer(41, TEXT.to_string());
    let step = state.on_selection(Some(41));
    assert_eq!(step.outcome, SelectionOutcome::Read);
    assert_eq!(step.targets, vec![TEXT.to_string()]);
    assert!(step.requests.is_empty());
}

#[test]
fn cancelling_a_stale_source_is_passed_over() {
    let mut state = bound();
    let a = state.add_clipboard_item_from_mime_map(text_map("a"), 1, None).unwrap();
    let b = state.add_clipboard_item_from_mime_map(text_map("b"), 1, None).unwrap();
    state.set_clipboard_by_id(a).unwrap();
    state.set_clipboard_by_id(b).unwrap();
    assert!(state.on_cancelled(1).is_empty());
    assert!(state.is_suppressed());
    assert_eq!(state.owned_source(), Some(OwnedSource { source: 2, entry_id: b }));
    assert!(BackendState::new().on_cancelled(1).is_empty());
}

#[test]
fn delete_of_the_owned_entry_gives_up_the_source() {
    let mut state = bound();
    let a = state.add_clipboard_item_from_mime_map(text_map("a"), 1, None).unwrap();
    let b = state.add_clipboard_item_from_mime_map(text_map("b"), 1, None).unwrap();
    state.set_clipboard_by_id(a).unwrap();

    let mut probe = bound();
    let pa = probe.add_clipboard_item_from_mime_map(text_map("a"), 1, None).unwrap();
    probe.set_clipboard_by_id(pa).unwrap();
    assert_eq!(probe.on_delete(pa), vec![Request::DestroySource { source: 1 }]);
    assert_eq!(probe.owned_source(), None);
    assert!(probe.get_item_by_id(pa).is_some());

    assert_eq!(state.delete_item_by_id(a), Ok(vec![Request::DestroySource { source: 1 }]));
    assert_eq!(state.owned_source(), None);
    assert!(state.get_item_by_id(a).is_none());
    assert!(state.on_send(1, TEXT).is_none());
    assert_eq!(state.get_history().len(), 1);
    assert_eq!(state.get_history()[0].item_id, b);
}

#[test]
fn delete_of_another_entry_keeps_the_source() {
    let mut state = bound();
    let a = state.add_clipboard_item_from_mime_map(text_map("a"), 1, None).unwrap();
    let b = state.add_clipboard_item_from_mime_map(text_map("b"), 1, None).unwrap();
    state.set_clipboard_by_id(a).unwrap();
    assert_eq!(state.delete_item_by_id(b), Ok(Vec::new()));
    assert_eq!(state.owned_source(), Some(OwnedSource { source: 1, entry_id: a }));
    assert!(state.on_delete(b).is_empty());
    assert_eq!(state.delete_item_by_id(b), Err(ClipboardError::UnknownEntry { id: b }));
}

#[test]
fn offers_gather_their_types_until_selected() {
    let mut state = bound();
    state.on_offer(7, "text/lost".to_string());
    state.on_data_offer(7);
    state.on_offer(7, "text/html".to_string());
    state.on_offer(7, TEXT.to_string());
    state.on_offer(8, "text/other".to_string());
    let step = state.on_selection(Some(7));
    assert_eq!(step.outcome, SelectionOutcome::Read);
    assert_eq!(step.targets, vec!["text/html".to_string(), TEXT.to_string()]);
    assert_eq!(state.current_offer(), None);
}

#[test]
fn an_offer_with_images_is_read_as_one_image() {
    let mut state = bound();
    state.on_data_offer(7);
    state.on_offer(7, "text/html".to_string());
    state.on_offer(7, "image/jpeg".to_string());
    state.on_offer(7, "image/png".to_string());
    let step = state.on_selection(Some(7));
    assert_eq!(step.outcome, SelectionOutcome::Read);
    assert_eq!(step.targets, vec!["image/png".to_string()]);
}

#[test]
fn an_untracked_offer_is_passed_over() {
    let mut state = bound();
    let step = state.on_selection(Some(3));
    assert_eq!(step.outcome, SelectionOutcome::Untracked);
    assert!(step.requests.is_empty());
    assert!(step.targets.is_empty());
    assert_eq!(state.current_offer(), None);
}

#[test]
fn a_cleared_selection_forgets_the_current_offer() {
    let mut state = bound();
    state.set_monitor_only(true);
    state.on_data_offer(3);
    state.complete_read(3, text_map("x"), 1, None);
    assert_eq!(state.current_offer(), Some(3));
    let step = state.on_selection(None);
    assert_eq!(step.outcome, SelectionOutcome::Cleared);
    assert!(step.requests.is_empty());
    assert_eq!(state.current_offer(), None);
}

#[test]
fn reading_takes_the_selection_for_the_new_entry() {
    let mut state = bound();
    state.on_data_offer(5);
    state.on_offer(5, TEXT.to_string());
    state.on_data_offer(6);
    let step = state.on_selection(Some(5));
    assert_eq!(step.outcome, SelectionOutcome::Read);
    let done = state.complete_read(5, text_map("copied"), 99, None);
    assert_eq!(done.new_id, Some(1));
    assert_eq!(done.ownership_error, None);
    assert_eq!(
        done.requests,
        vec![
            Request::CreateSource { source: 1 },
            Request::Offer { source: 1, mime_type: TEXT.to_string() },
            Request::SetSelection { source: 1 },
            Request::Flush,
            Request::DestroyOffer { offer: 5 },
        ]
    );
    assert_eq!(state.current_offer(), Some(5));
    assert_eq!(state.owned_source(), Some(OwnedSource { source: 1, entry_id: 1 }));
    assert!(state.is_suppressed());
    let entry = state.get_item_by_id(1).unwrap();
    assert_eq!(entry.content_preview, "copied");
    assert_eq!(entry.timestamp, 99);
    // The types announced before the read are forgotten.
    assert_eq!(state.on_selection(Some(6)).outcome, SelectionOutcome::Untracked);
}

#[test]
fn monitor_only_leaves_the_selection_with_its_owner() {
    let mut state = bound();
    state.set_monitor_only(true);
    assert!(state.is_monitor_only());
    state.on_data_offer(5);
    state.on_offer(5, TEXT.to_string());
    let done = state.complete_read(5, text_map("copied"), 99, None);
    assert_eq!(done.new_id, Some(1));
    assert_eq!(done.ownership_error, None);
    assert_eq!(done.requests, vec![Request::DestroyOffer { offer: 5 }]);
    assert_eq!(state.owned_source(), None);
    assert!(!state.is_suppressed());
    assert_eq!(state.get_history().len(), 1);
}

#[test]
fn the_same_offer_selected_again_is_not_read_again() {
    let mut state = bound();
    state.set_monitor_only(true);
    state.on_data_offer(5);
    state.complete_read(5, text_map("copied"), 99, None);
    state.on_data_offer(5);
    let step = state.on_selection(Some(5));
    assert_eq!(step.outcome, SelectionOutcome::Unchanged);
    assert_eq!(step.requests, vec![Request::DestroyOffer { offer: 5 }]);
    assert!(step.targets.is_empty());
    assert_eq!(state.get_history().len(), 1);
}

#[test]
fn reading_nothing_makes_no_entry() {
    let mut state = bound();
    state.on_data_offer(5);
    let done = state.complete_read(5, IndexMap::new(), 99, None);
    assert_eq!(done.new_id, None);
    assert_eq!(done.ownership_error, None);
    assert_eq!(done.requests, vec![Request::DestroyOffer { offer: 5 }]);
    assert_eq!(state.current_offer(), Some(5));
    assert!(state.get_history().is_empty());
    assert_eq!(state.owned_source(), None);
}

#[test]
fn reading_without_a_device_records_but_cannot_take_the_selection() {
    let mut state = BackendState::new();
    state.on_data_offer(5);
    let done = state.complete_read(5, text_map("copied"), 99, None);
    assert_eq!(done.new_id, Some(1));
    assert_eq!(done.ownership_error, Some(ClipboardError::NotBound));
    assert_eq!(done.requests, vec![Request::DestroyOffer { offer: 5 }]);
    assert_eq!(state.get_history().len(), 1);
    assert!(!state.is_suppressed());
}

#[test]
fn pins_and_clearing_go_through_the_engine() {
    let mut state = bound();
    for t in ["one", "two", "three"] {
        state.add_clipboard_item_from_mime_map(text_map(t), 1, None);
    }
    assert_eq!(state.set_pinned(2, true), Ok(()));
    let order: Vec<u64> = state.get_history().iter().map(|p| p.item_id).collect();
    assert_eq!(order, vec![2, 3, 1]);
    assert_eq!(state.set_pinned(8, true), Err(ClipboardError::UnknownEntry { id: 8 }));
    state.clear_history();
    assert!(state.get_history().is_empty());
    assert_eq!(state.add_clipboard_item_from_mime_map(text_map("four"), 1, None), Some(4));
}

#[test]
fn a_copy_of_an_entry_has_its_payloads() {
    let mut state = bound();
    let id = state.add_clipboard_item_from_mime_map(text_map("payload"), 3, None).unwrap();
    let copy = state.get_item_by_id(id).unwrap();
    assert_eq!(copy.item_id, id);
    assert_eq!(copy.content_preview, "payload");
    assert_eq!(copy.timestamp, 3);
    assert_eq!(copy.mime_data, text_map("payload"));
    assert!(state.get_item_by_id(id + 1).is_none());
}

#[test]
fn a_copied_text_becomes_a_text_entry() {
    let mut state = BackendState::default();
    assert_eq!(state.add_clipboard_item("Hello, world!".to_string(), 7), Some(1));
    assert_eq!(state.add_clipboard_item(String::new(), 8), Some(2));
    let entry = state.get_item_by_id(1).unwrap();
    assert_eq!(entry.content_preview, "Hello, world!");
    assert_eq!(entry.timestamp, 7);
    assert_eq!(entry.mime_data, text_map("Hello, world!"));
    let empty = state.get_item_by_id(2).unwrap();
    assert_eq!(empty.content_preview, "");
    assert_eq!(empty.mime_data, text_map(""));
    assert_eq!(state.add_clipboard_item("Hello, world!".to_string(), 9), Some(3));
    let order: Vec<u64> = state.get_history().iter().map(|p| p.item_id).collect();
    assert_eq!(order, vec![3, 2]);
}

#[test]
fn suppression_outlives_the_deleting_of_the_owned_entry() {
    let mut state = bound();
    let a = state.add_clipboard_item_from_mime_map(text_map("a"), 1, None).unwrap();
    let b = state.add_clipboard_item_from_mime_map(text_map("b"), 1, None).unwrap();
    state.set_clipboard_by_id(a).unwrap();
    state.delete_item_by_id(a).unwrap();
    assert_eq!(state.owned_source(), None);
    assert!(state.is_suppressed());

    state.on_data_offer(40);
    assert_eq!(state.on_selection(Some(40)).outcome, SelectionOutcome::Suppressed);
    assert!(state.on_cancelled(1).is_empty());
    assert!(state.is_suppressed());

    state.set_clipboard_by_id(b).unwrap();
    let source = state.owned_source().unwrap().source;
    assert_eq!(state.on_cancelled(source), vec![Request::DestroySource { source }]);
    assert!(!state.is_suppressed());
    state.on_data_offer(41);
    assert_eq!(state.on_selection(Some(41)).outcome, SelectionOutcome::Read);
}

#[test]
fn a_new_source_never_has_the_handle_of_the_one_it_supersedes() {
    let mut state = bound();
    let a = state.add_clipboard_item_from_mime_map(text_map("a"), 1, None).unwrap();
    let b = state.add_clipboard_item_from_mime_map(text_map("b"), 1, None).unwrap();
    state.set_clipboard_by_id(a).unwrap();
    for round in 0..10u32 {
        let old = state.owned_source().unwrap();
        let id = if round % 2 == 0 { b } else { a };
        let requests = state.set_clipboard_by_id(id).unwrap();
        let new = state.owned_source().unwrap();
        assert_ne!(new.source, old.source);
        assert_eq!(new.entry_id, id);
        assert_eq!(requests[0], Request::DestroySource { source: old.source });
        assert_eq!(requests[1], Request::CreateSource { source: new.source });
        let made = requests.iter().filter(|r| matches!(r, Request::CreateSource { .. })).count();
        let ended = requests.iter().filter(|r| matches!(r, Request::DestroySource { .. })).count();
        assert_eq!((made, ended), (1, 1));
    }
}
