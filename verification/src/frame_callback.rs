//! The frame callbacks of the overlay's two layer surfaces: what each one
//! calls for when the compositor reports the frame as done.

use vstd::prelude::*;

verus! {

/// What a frame callback was asked for.
#[derive(Debug, Clone, Copy, PartialEq, Eq, Structural)]
pub enum FrameCallbackData {
    /// The first frame of the capture layer.
    CaptureLayer,
    /// The first frame of the update layer.
    UpdateLayer,
    /// A later frame of the update layer, with the number of frames counted so far.
    UpdateLayerFrameCount(u8),
}

/// What is to be done when a frame is done.
#[derive(Debug, Clone, Copy, PartialEq, Eq, Structural)]
pub enum FrameAction {
    /// Create the update layer surface.
    SetupUpdateLayer,
    /// Ask for another frame of the update layer, counted as given.
    ScheduleFrameCheck(u8),
    /// Take the update layer down.
    CleanupUpdateLayer,
}

/// The number of counted frames after which the update layer is taken down.
pub const FRAMES_TO_WAIT: u8 = 2;

impl FrameCallbackData {
    /// What the frame calls for: the capture layer, once shown, calls for the
    /// update layer; the update layer is kept until enough frames are counted.
    pub open spec fn action(self) -> FrameAction {
        match self {
            FrameCallbackData::CaptureLayer => FrameAction::SetupUpdateLayer,
            FrameCallbackData::UpdateLayer => FrameAction::ScheduleFrameCheck(0),
            FrameCallbackData::UpdateLayerFrameCount(n) => if n < FRAMES_TO_WAIT {
                FrameAction::ScheduleFrameCheck((n + 1) as u8)
            } else {
                FrameAction::CleanupUpdateLayer
            },
        }
    }

    /// What is to be done now that the frame of this callback is done.
    pub fn on_done(&self) -> (r: FrameAction)
        ensures
            r == self.action(),
    {
        match self {
            FrameCallbackData::CaptureLayer => FrameAction::SetupUpdateLayer,
            FrameCallbackData::UpdateLayer => FrameAction::ScheduleFrameCheck(0),
            FrameCallbackData::UpdateLayerFrameCount(n) => {
                if *n < FRAMES_TO_WAIT {
                    FrameAction::ScheduleFrameCheck(*n + 1)
                } else {
                    FrameAction::CleanupUpdateLayer
                }
            },
        }
    }
}

} // verus!
