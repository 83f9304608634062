use bytes::Bytes;
use cursor_clip::backend_state::BackendState;
use cursor_clip::content_type::ClipboardContentType;
use cursor_clip::error::ClipboardError;
use cursor_clip::item::ClipboardItemPreview;
use cursor_clip::messages::{BackendMessage, FrontendMessage};
use cursor_clip::protocol::{BindError, DataControlProtocol};
use cursor_clip::request::Request;
use indexmap::IndexMap;

fn state_with(texts: &[&str]) -> BackendState {
    let mut state = BackendState::new();
    state.bind(DataControlProtocol::Wlr);
    for t in texts {
        let mut map = IndexMap::new();
        map.insert(
            "text/plain;charset=utf-8".to_string(),
            Bytes::from(t.as_bytes().to_vec()),
        );
        state.add_clipboard_item_from_mime_map(map, 10, None);
    }
    state
}

#[test]
fn get_history_answers_with_previews() {
    let mut state = state_with(&["one", "/two"]);
    let (reply, requests) = state.handle_message(FrontendMessage::GetHistory);
    assert!(requests.is_empty());
    assert_eq!(
        reply,
        BackendMessage::History {
            items: vec![
                ClipboardItemPreview {
                    item_id: 2,
                    content_preview: "/two".to_string(),
                    content_type: ClipboardContentType::File,
                    timestamp: 10,
                    pinned: false,
                    thumbnail: None,
                },
                ClipboardItemPreview {
                    item_id: 1,
                    content_preview: "one".to_string(),
                    content_type: ClipboardContentType::Text,
                    timestamp: 10,
                    pinned: false,
                    thumbnail: None,
                },
            ],
        }
    );
}

#[test]
fn set_clipboard_by_id_answers_and_asks_for_the_selection() {
    let mut state = state_with(&["one"]);
    let (reply, requests) = state.handle_message(FrontendMessage::SetClipboardById { id: 1 });
    assert_eq!(reply, BackendMessage::ClipboardSet);
    assert_eq!(requests.len(), 4);
    assert_eq!(requests[0], Request::CreateSource { source: 1 });
    assert_eq!(requests[3], Request::Flush);
    let (reply, requests) = state.handle_message(FrontendMessage::SetClipboardById { id: 42 });
    assert_eq!(
        reply,
        BackendMessage::Error { message: "No clipboard item found with ID: 42".to_string() }
    );
    assert!(requests.is_empty());
}

#[test]
fn set_clipboard_by_id_without_a_device_is_an_error() {
    let mut state = BackendState::new();
    let mut map = IndexMap::new();
    map.insert("a/b".to_string(), Bytes::from(vec![1u8]));
    state.add_clipboard_item_from_mime_map(map, 10, None);
    let (reply, requests) = state.handle_message(FrontendMessage::SetClipboardById { id: 1 });
    assert_eq!(
        reply,
        BackendMessage::Error { message: "Wayland clipboard objects not available yet".to_string() }
    );
    assert!(requests.is_empty());
}

#[test]
fn set_pinned_answers_with_the_pin() {
    let mut state = state_with(&["one", "two"]);
    let (reply, requests) =
        state.handle_message(FrontendMessage::SetPinned { id: 1, pinned: true });
    assert_eq!(reply, BackendMessage::ItemPinned { id: 1, pinned: true });
    assert!(requests.is_empty());
    assert!(state.get_history()[0].pinned);
    assert_eq!(state.get_history()[0].item_id, 1);
    let (reply, _) = state.handle_message(FrontendMessage::SetPinned { id: 5, pinned: true });
    assert_eq!(
        reply,
        BackendMessage::Error { message: "No clipboard item found with ID: 5".to_string() }
    );
}

#[test]
fn delete_answers_and_gives_up_the_source_of_the_entry() {
    let mut state = state_with(&["one", "two"]);
    state.handle_message(FrontendMessage::SetClipboardById { id: 2 });
    let (reply, requests) = state.handle_message(FrontendMessage::DeleteItemById { id: 2 });
    assert_eq!(reply, BackendMessage::ItemDeleted { id: 2 });
    assert_eq!(requests, vec![Request::DestroySource { source: 1 }]);
    let (reply, requests) = state.handle_message(FrontendMessage::DeleteItemById { id: 2 });
    assert_eq!(
        reply,
        BackendMessage::Error { message: "No clipboard item found with ID: 2".to_string() }
    );
    assert!(requests.is_empty());
    let (reply, requests) = state.handle_message(FrontendMessage::DeleteItemById { id: 1 });
    assert_eq!(reply, BackendMessage::ItemDeleted { id: 1 });
    assert!(requests.is_empty());
}

#[test]
fn clear_history_answers_and_empties() {
    let mut state = state_with(&["one", "two"]);
    let (reply, requests) = state.handle_message(FrontendMessage::ClearHistory);
    assert_eq!(reply, BackendMessage::HistoryCleared);
    assert!(requests.is_empty());
    let (reply, _) = state.handle_message(FrontendMessage::GetHistory);
    assert_eq!(reply, BackendMessage::History { items: Vec::new() });
}

#[test]
fn error_messages_name_the_entry() {
    assert_eq!(
        ClipboardError::UnknownEntry { id: 0 }.message(),
        "No clipboard item found with ID: 0"
    );
    assert_eq!(
        ClipboardError::UnknownEntry { id: 1234567890 }.message(),
        "No clipboard item found with ID: 1234567890"
    );
    assert_eq!(
        ClipboardError::UnknownEntry { id: u64::MAX }.message(),
        "No clipboard item found with ID: 18446744073709551615"
    );
    assert_eq!(ClipboardError::NotBound.message(), "Wayland clipboard objects not available yet");
}

#[test]
fn the_standard_protocol_is_bound_before_the_older_one() {
    assert_eq!(DataControlProtocol::negotiate(true, true, true), Ok(DataControlProtocol::Ext));
    assert_eq!(DataControlProtocol::negotiate(true, true, false), Ok(DataControlProtocol::Ext));
    assert_eq!(DataControlProtocol::negotiate(true, false, true), Ok(DataControlProtocol::Wlr));
    assert_eq!(DataControlProtocol::negotiate(true, false, false), Err(BindError::NoDataControl));
}

#[test]
fn nothing_is_bound_without_a_seat() {
    for ext in [false, true] {
        for wlr in [false, true] {
            assert_eq!(DataControlProtocol::negotiate(false, ext, wlr), Err(BindError::NoSeat));
        }
    }
}

#[test]
fn bind_errors_say_what_is_missing() {
    assert_eq!(BindError::NoSeat.message(), "wl_seat not available");
    let both = BindError::NoDataControl.message();
    assert_eq!(
        both,
        "neither ext_data_control_manager_v1 nor zwlr_data_control_manager_v1 is available"
    );
    assert!(both.contains(DataControlProtocol::Ext.manager_interface()));
    assert!(both.contains(DataControlProtocol::Wlr.manager_interface()));
}

#[test]
fn preview_of_an_entry_leaves_the_payloads_out() {
    let state = state_with(&["https://example.org"]);
    let entry = state.get_item_by_id(1).unwrap();
    let preview = ClipboardItemPreview::from(&entry);
    assert_eq!(preview.item_id, 1);
    assert_eq!(preview.content_preview, "https://example.org");
    assert_eq!(preview.content_type, ClipboardContentType::Url);
    assert_eq!(preview.timestamp, 10);
    assert!(!preview.pinned);
    assert_eq!(preview.thumbnail, None);
    assert_eq!(preview.clone(), preview);
}

#[test]
fn a_client_accepts_the_answer_that_fits_its_message() {
    let history = BackendMessage::History { items: Vec::new() };
    let error = BackendMessage::Error { message: "No clipboard item found with ID: 3".to_string() };
    assert_eq!(FrontendMessage::GetHistory.check_reply(&history), Ok(()));
    assert_eq!(
        FrontendMessage::SetClipboardById { id: 3 }.check_reply(&BackendMessage::ClipboardSet),
        Ok(())
    );
    assert_eq!(
        FrontendMessage::SetPinned { id: 3, pinned: true }
            .check_reply(&BackendMessage::ItemPinned { id: 3, pinned: true }),
        Ok(())
    );
    assert_eq!(
        FrontendMessage::DeleteItemById { id: 3 }.check_reply(&BackendMessage::ItemDeleted { id: 3 }),
        Ok(())
    );
    assert_eq!(
        FrontendMessage::ClearHistory.check_reply(&BackendMessage::HistoryCleared),
        Ok(())
    );
    assert_eq!(
        FrontendMessage::SetClipboardById { id: 3 }.check_reply(&error),
        Err("No clipboard item found with ID: 3".to_string())
    );
    assert_eq!(
        FrontendMessage::GetHistory.check_reply(&BackendMessage::ClipboardSet),
        Err("Unexpected response".to_string())
    );
    assert_eq!(
        FrontendMessage::ClearHistory.check_reply(&history),
        Err("Unexpected response".to_string())
    );
}

#[test]
fn every_answer_of_the_engine_is_one_that_the_client_expects() {
    let mut state = state_with(&["one", "two"]);
    let asked = [
        FrontendMessage::GetHistory,
        FrontendMessage::SetClipboardById { id: 1 },
        FrontendMessage::SetClipboardById { id: 9 },
        FrontendMessage::SetPinned { id: 2, pinned: true },
        FrontendMessage::SetPinned { id: 9, pinned: true },
        FrontendMessage::DeleteItemById { id: 1 },
        FrontendMessage::DeleteItemById { id: 1 },
        FrontendMessage::ClearHistory,
    ];
    let expected = [true, true, false, true, false, true, false, true];
    for (message, ok) in asked.iter().zip(expected) {
        let (reply, _) = state.handle_message(*message);
        let checked = message.check_reply(&reply);
        assert_eq!(checked.is_ok(), ok);
        if let Err(reason) = checked {
            assert!(reason.starts_with("No clipboard item found with ID: "));
        }
    }
}
