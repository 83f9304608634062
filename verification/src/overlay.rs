//! The decisions of the overlay's event loop: when the overlay window is
//! made, when everything is closed, and which layer a configure event is for.

use vstd::prelude::*;

verus! {

/// The code of the left button of a pointer.
pub const BUTTON_LEFT: u32 = 272;

/// Whether a button event is a press of the left button.
pub fn is_left_press(button: u32, pressed: bool) -> (r: bool)
    ensures
        r == (button == BUTTON_LEFT && pressed),
{
    button == BUTTON_LEFT && pressed
}

/// The layer surface that a configure event is for.
#[derive(Debug, Clone, Copy, PartialEq, Eq, Structural)]
pub enum ConfiguredLayer {
    /// The layer that captures the pointer.
    Capture,
    /// The layer that makes the compositor send the pointer's position.
    Update,
}

/// The layer that a configure event is for: the capture layer is configured
/// first, and every later configure event is for the update layer.
pub fn configured_layer(capture_layer_ready: bool) -> (r: ConfiguredLayer)
    ensures
        r == if capture_layer_ready {
            ConfiguredLayer::Update
        } else {
            ConfiguredLayer::Capture
        },
{
    if capture_layer_ready {
        ConfiguredLayer::Update
    } else {
        ConfiguredLayer::Capture
    }
}

/// What one turn of the event loop is to do.
#[derive(Debug, Clone, Copy, PartialEq, Eq, Structural)]
pub struct LoopTurn {
    /// Make the overlay window at the pointer's position.
    pub create_window: bool,
    /// Take the window and the capture layer down and leave the loop.
    pub close: bool,
}

/// What a turn of the event loop does: the window is made once, as soon as
/// the pointer's position is known; once there is a window, a request to
/// close it or a click on the capture layer ends the loop.
pub open spec fn turn_of(
    window_created: bool,
    coords_received: bool,
    close_requested: bool,
    capture_layer_clicked: bool,
) -> LoopTurn {
    LoopTurn {
        create_window: coords_received && !window_created,
        close: (window_created || coords_received) && (close_requested || capture_layer_clicked),
    }
}

/// Decides what the turn of the event loop that follows a dispatch is to do.
pub fn next_turn(
    window_created: bool,
    coords_received: bool,
    close_requested: bool,
    capture_layer_clicked: bool,
) -> (r: LoopTurn)
    ensures
        r == turn_of(window_created, coords_received, close_requested, capture_layer_clicked),
{
    let create_window = coords_received && !window_created;
    let has_window = window_created || create_window;
    LoopTurn { create_window, close: has_window && (close_requested || capture_layer_clicked) }
}

} // verus!
