use vstd::prelude::*;

verus! {

/// Whether the camera handle is currently held.
#[derive(Clone, Copy, Debug, PartialEq, Eq, Structural)]
pub enum CaptureState {
    Idle,
    Capturing,
}

/// What the surrounding event loop reports: the toggle button was pressed,
/// the periodic frame timer fired, or the window was asked to close.
#[derive(Clone, Copy, Debug, PartialEq, Eq, Structural)]
pub enum CameraEvent {
    ToggleCamera,
    FrameTick,
    Quit,
}

/// What the surrounding event loop must do next. `OpenAndSchedule` acquires
/// the camera and schedules the first tick; `Close` releases the handle,
/// which stops the rescheduling; `CaptureAndRender` captures one frame,
/// runs the detector on it, renders both images and schedules the next
/// tick; `Ignore` does nothing; `Shutdown` leaves the loop.
#[derive(Clone, Copy, Debug, PartialEq, Eq, Structural)]
pub enum CameraAction {
    OpenAndSchedule,
    Close,
    CaptureAndRender,
    Ignore,
    Shutdown,
}

/// The next state and action for an event in a state.
pub open spec fn step_spec(s: CaptureState, e: CameraEvent) -> (CaptureState, CameraAction) {
    match e {
        CameraEvent::ToggleCamera => match s {
            CaptureState::Idle => (CaptureState::Capturing, CameraAction::OpenAndSchedule),
            CaptureState::Capturing => (CaptureState::Idle, CameraAction::Close),
        },
        CameraEvent::FrameTick => match s {
            CaptureState::Idle => (CaptureState::Idle, CameraAction::Ignore),
            CaptureState::Capturing => (CaptureState::Capturing, CameraAction::CaptureAndRender),
        },
        CameraEvent::Quit => (s, CameraAction::Shutdown),
    }
}

/// Advances the capture lifecycle by one event: toggling while idle opens
/// the camera and starts the tick cadence, toggling while capturing closes
/// it, a tick is honored only while capturing, and quitting never touches
/// the camera state.
pub fn step(s: CaptureState, e: CameraEvent) -> (r: (CaptureState, CameraAction))
    ensures
        r == step_spec(s, e),
        e == CameraEvent::Quit ==> r.0 == s,
{
    match e {
        CameraEvent::ToggleCamera => match s {
            CaptureState::Idle => (CaptureState::Capturing, CameraAction::OpenAndSchedule),
            CaptureState::Capturing => (CaptureState::Idle, CameraAction::Close),
        },
        CameraEvent::FrameTick => match s {
            CaptureState::Idle => (CaptureState::Idle, CameraAction::Ignore),
            CaptureState::Capturing => (CaptureState::Capturing, CameraAction::CaptureAndRender),
        },
        CameraEvent::Quit => (s, CameraAction::Shutdown),
    }
}

} // verus!
