//! The controller's decisions: how press/release and window events move the
//! recording state, and what the caller must then do.

use crate::state::{AppStateManager, RecordingState};
use vstd::prelude::*;

verus! {

/// Recording control events from the hotkey and UI layer.
#[derive(Debug, Clone, Copy, PartialEq, Eq, Structural)]
pub enum HotkeyEvent {
    PushToTalkPressed,
    PushToTalkReleased,
    ToggleWindow,
    OpenPreferences,
}

/// The event that a push-to-talk key change stands for.
pub fn push_to_talk_event(is_pressed: bool) -> (e: HotkeyEvent)
    ensures
        is_pressed ==> e == HotkeyEvent::PushToTalkPressed,
        !is_pressed ==> e == HotkeyEvent::PushToTalkReleased,
{
    if is_pressed {
        HotkeyEvent::PushToTalkPressed
    } else {
        HotkeyEvent::PushToTalkReleased
    }
}

/// What the caller performs after an event was applied to the state.
#[derive(Debug, Clone, Copy, PartialEq, Eq, Structural)]
pub enum ControllerAction {
    /// The event was not acted on in the current state.
    Ignore,
    /// Show the status window and start capture.
    BeginRecording,
    /// Hide the window, stop capture, transcribe and type; then call
    /// `complete_processing`.
    EndRecording,
    ShowWindow,
    HideWindow,
    /// Left to the UI layer.
    OpenPreferences,
}

/// Applies `event` to the state and says what the caller must do.
pub fn apply_event(state: &mut AppStateManager, event: HotkeyEvent) -> (a: ControllerAction)
    ensures
        event == HotkeyEvent::PushToTalkPressed ==> if old(state).state_spec()
            == RecordingState::Idle {
            a == ControllerAction::BeginRecording && final(state).state_spec()
                == RecordingState::Recording && final(state).transcription_spec()
                == Seq::<char>::empty() && final(state).window_visible_spec()
                == old(state).window_visible_spec()
        } else {
            a == ControllerAction::Ignore && final(state).state_spec() == old(state).state_spec()
                && final(state).transcription_spec() == old(state).transcription_spec()
                && final(state).window_visible_spec() == old(state).window_visible_spec()
        },
        event == HotkeyEvent::PushToTalkReleased ==> if old(state).state_spec()
            == RecordingState::Recording {
            a == ControllerAction::EndRecording && final(state).state_spec()
                == RecordingState::Processing && final(state).transcription_spec()
                == old(state).transcription_spec() && final(state).window_visible_spec()
                == old(state).window_visible_spec()
        } else {
            a == ControllerAction::Ignore && final(state).state_spec() == old(state).state_spec()
                && final(state).transcription_spec() == old(state).transcription_spec()
                && final(state).window_visible_spec() == old(state).window_visible_spec()
        },
        event == HotkeyEvent::ToggleWindow ==> final(state).window_visible_spec()
            == !old(state).window_visible_spec() && final(state).state_spec()
            == old(state).state_spec() && final(state).transcription_spec()
            == old(state).transcription_spec() && (if old(state).window_visible_spec() {
            a == ControllerAction::HideWindow
        } else {
            a == ControllerAction::ShowWindow
        }),
        event == HotkeyEvent::OpenPreferences ==> a == ControllerAction::OpenPreferences
            && final(state).state_spec() == old(state).state_spec()
            && final(state).transcription_spec() == old(state).transcription_spec()
            && final(state).window_visible_spec() == old(state).window_visible_spec(),
        final(state).preferences_visible_spec() == old(state).preferences_visible_spec(),
{
    match event {
        HotkeyEvent::PushToTalkPressed => {
            if state.start_recording() {
                state.clear_transcription();
                ControllerAction::BeginRecording
            } else {
                ControllerAction::Ignore
            }
        },
        HotkeyEvent::PushToTalkReleased => {
            if state.stop_recording() {
                ControllerAction::EndRecording
            } else {
                ControllerAction::Ignore
            }
        },
        HotkeyEvent::ToggleWindow => {
            if state.is_window_visible() {
                state.set_window_visible(false);
                ControllerAction::HideWindow
            } else {
                state.set_window_visible(true);
                ControllerAction::ShowWindow
            }
        },
        HotkeyEvent::OpenPreferences => ControllerAction::OpenPreferences,
    }
}

/// Ends the processing phase once the final text has been handled.
pub fn complete_processing(state: &mut AppStateManager) -> (done: bool)
    ensures
        done == (old(state).state_spec() == RecordingState::Processing),
        done ==> final(state).state_spec() == RecordingState::Idle,
        !done ==> final(state).state_spec() == old(state).state_spec(),
        final(state).transcription_spec() == old(state).transcription_spec(),
        final(state).window_visible_spec() == old(state).window_visible_spec(),
        final(state).preferences_visible_spec() == old(state).preferences_visible_spec(),
{
    state.finish_processing()
}

/// Whether the final text of a recording is typed: only non-empty text,
/// and only while typing is enabled.
pub fn should_type(final_text: &str, enable_typing: bool) -> (b: bool)
    ensures
        b == (final_text@.len() > 0 && enable_typing),
{
    !final_text.is_empty() && enable_typing
}

/// What the event loop got from its channel within one wait.
#[derive(Debug, Clone, Copy, PartialEq, Eq, Structural)]
pub enum ReceiveOutcome {
    Event(HotkeyEvent),
    Timeout,
    Disconnected,
}

/// What the event loop does next.
#[derive(Debug, Clone, Copy, PartialEq, Eq, Structural)]
pub enum LoopStep {
    Dispatch(HotkeyEvent),
    Continue,
    Stop,
}

/// The run flag of the dedicated event loop and its per-wait decision.
pub struct EventLoop {
    running: bool,
}

impl EventLoop {
    pub closed spec fn running_spec(&self) -> bool {
        self.running
    }

    pub fn new() -> (r: EventLoop)
        ensures
            !r.running_spec(),
    {
        EventLoop { running: false }
    }

    pub fn start(&mut self)
        ensures
            final(self).running_spec(),
    {
        self.running = true;
    }

    pub fn stop(&mut self)
        ensures
            !final(self).running_spec(),
    {
        self.running = false;
    }

    pub fn is_running(&self) -> (b: bool)
        ensures
            b == self.running_spec(),
    {
        self.running
    }

    /// The next step after a wait on the channel: a stopped loop ends, an
    /// event is dispatched, a timeout polls again, a closed channel ends.
    pub fn step(&self, outcome: ReceiveOutcome) -> (s: LoopStep)
        ensures
            !self.running_spec() ==> s == LoopStep::Stop,
            self.running_spec() ==> s == match outcome {
                ReceiveOutcome::Event(e) => LoopStep::Dispatch(e),
                ReceiveOutcome::Timeout => LoopStep::Continue,
                ReceiveOutcome::Disconnected => LoopStep::Stop,
            },
    {
        if !self.running {
            return LoopStep::Stop;
        }
        match outcome {
            ReceiveOutcome::Event(e) => LoopStep::Dispatch(e),
            ReceiveOutcome::Timeout => LoopStep::Continue,
            ReceiveOutcome::Disconnected => LoopStep::Stop,
        }
    }
}

} // verus!
