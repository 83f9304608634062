use cursor_clip::frame_callback::{FrameAction, FrameCallbackData};
use cursor_clip::overlay::{configured_layer, is_left_press, next_turn, ConfiguredLayer, LoopTurn};
use cursor_clip::relative_time::format_timestamp;

#[test]
fn capture_layer_frame_sets_up_the_update_layer() {
    assert_eq!(FrameCallbackData::CaptureLayer.on_done(), FrameAction::SetupUpdateLayer);
}

#[test]
fn update_layer_is_kept_for_three_counted_frames() {
    assert_eq!(FrameCallbackData::UpdateLayer.on_done(), FrameAction::ScheduleFrameCheck(0));
    assert_eq!(
        FrameCallbackData::UpdateLayerFrameCount(0).on_done(),
        FrameAction::ScheduleFrameCheck(1)
    );
    assert_eq!(
        FrameCallbackData::UpdateLayerFrameCount(1).on_done(),
        FrameAction::ScheduleFrameCheck(2)
    );
    assert_eq!(
        FrameCallbackData::UpdateLayerFrameCount(2).on_done(),
        FrameAction::CleanupUpdateLayer
    );
    assert_eq!(
        FrameCallbackData::UpdateLayerFrameCount(255).on_done(),
        FrameAction::CleanupUpdateLayer
    );
}

#[test]
fn recent_times_are_just_now() {
    assert_eq!(format_timestamp(1000, 1000), "Just now");
    assert_eq!(format_timestamp(1029, 1000), "Just now");
    assert_eq!(format_timestamp(1000, 2000), "Just now");
}

#[test]
fn minutes_hours_and_days_are_counted_whole() {
    assert_eq!(format_timestamp(1030, 1000), "0 minutes ago");
    assert_eq!(format_timestamp(1060, 1000), "1 minute ago");
    assert_eq!(format_timestamp(1119, 1000), "1 minute ago");
    assert_eq!(format_timestamp(1120, 1000), "2 minutes ago");
    assert_eq!(format_timestamp(4599, 1000), "59 minutes ago");
    assert_eq!(format_timestamp(4600, 1000), "1 hour ago");
    assert_eq!(format_timestamp(8200, 1000), "2 hours ago");
    assert_eq!(format_timestamp(87399, 1000), "23 hours ago");
    assert_eq!(format_timestamp(87400, 1000), "1 day ago");
    assert_eq!(format_timestamp(173800, 1000), "2 days ago");
    assert_eq!(format_timestamp(u64::MAX, 0), "213503982334601 days ago");
}

#[test]
fn only_a_press_of_the_left_button_counts() {
    assert!(is_left_press(272, true));
    assert!(!is_left_press(272, false));
    assert!(!is_left_press(273, true));
    assert!(!is_left_press(0, true));
}

#[test]
fn the_capture_layer_is_configured_first() {
    assert_eq!(configured_layer(false), ConfiguredLayer::Capture);
    assert_eq!(configured_layer(true), ConfiguredLayer::Update);
}

#[test]
fn the_window_is_made_once_the_position_is_known() {
    assert_eq!(
        next_turn(false, false, false, false),
        LoopTurn { create_window: false, close: false }
    );
    assert_eq!(
        next_turn(false, true, false, false),
        LoopTurn { create_window: true, close: false }
    );
    assert_eq!(
        next_turn(true, true, false, false),
        LoopTurn { create_window: false, close: false }
    );
}

#[test]
fn the_loop_ends_on_a_close_request_or_a_click_once_there_is_a_window() {
    assert_eq!(
        next_turn(true, true, true, false),
        LoopTurn { create_window: false, close: true }
    );
    assert_eq!(
        next_turn(true, true, false, true),
        LoopTurn { create_window: false, close: true }
    );
    assert_eq!(
        next_turn(false, true, false, true),
        LoopTurn { create_window: true, close: true }
    );
    assert_eq!(
        next_turn(false, false, true, true),
        LoopTurn { create_window: false, close: false }
    );
}
