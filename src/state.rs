//! The observable recording state that gates capture, transcription and
//! typing: Idle → Recording → Processing → Idle, with no skipping.

use vstd::prelude::*;
use vstd::string::StringExecFns;

verus! {

#[derive(Debug, Clone, Copy, PartialEq, Eq, Structural)]
pub enum RecordingState {
    Idle,
    Recording,
    Processing,
}

/// Whether the state machine may move from `from` to `to`.
pub open spec fn is_transition(from: RecordingState, to: RecordingState) -> bool {
    ||| (from == RecordingState::Idle && to == RecordingState::Recording)
    ||| (from == RecordingState::Recording && to == RecordingState::Processing)
    ||| (from == RecordingState::Processing && to == RecordingState::Idle)
}

#[derive(Debug, Clone, Copy, PartialEq, Eq, Structural)]
pub enum WindowState {
    Hidden,
    Visible,
}

/// The shared state: the recording state, the text transcribed so far for
/// display, and the visibility of the two windows. Callers that register
/// listeners notify them after each mutation that reports a change.
pub struct AppStateManager {
    recording_state: RecordingState,
    transcription: String,
    window_visible: bool,
    preferences_visible: bool,
}

impl AppStateManager {
    pub closed spec fn state_spec(&self) -> RecordingState {
        self.recording_state
    }

    pub closed spec fn transcription_spec(&self) -> Seq<char> {
        self.transcription@
    }

    pub closed spec fn window_visible_spec(&self) -> bool {
        self.window_visible
    }

    pub closed spec fn preferences_visible_spec(&self) -> bool {
        self.preferences_visible
    }

    pub fn new() -> (r: AppStateManager)
        ensures
            r.state_spec() == RecordingState::Idle,
            r.transcription_spec() == Seq::<char>::empty(),
            !r.window_visible_spec(),
            !r.preferences_visible_spec(),
    {
        AppStateManager {
            recording_state: RecordingState::Idle,
            transcription: String::new(),
            window_visible: false,
            preferences_visible: false,
        }
    }

    pub fn get_recording_state(&self) -> (s: RecordingState)
        ensures
            s == self.state_spec(),
    {
        self.recording_state
    }

    /// Moves to `state` when that is a transition of the cycle, and
    /// returns whether the state changed; any other request leaves
    /// everything as it was.
    pub fn set_recording_state(&mut self, state: RecordingState) -> (changed: bool)
        ensures
            changed == is_transition(old(self).state_spec(), state),
            changed ==> final(self).state_spec() == state,
            !changed ==> final(self).state_spec() == old(self).state_spec(),
            final(self).transcription_spec() == old(self).transcription_spec(),
            final(self).window_visible_spec() == old(self).window_visible_spec(),
            final(self).preferences_visible_spec() == old(self).preferences_visible_spec(),
    {
        let from = self.recording_state;
        let allowed = match (from, state) {
            (RecordingState::Idle, RecordingState::Recording) => true,
            (RecordingState::Recording, RecordingState::Processing) => true,
            (RecordingState::Processing, RecordingState::Idle) => true,
            _ => false,
        };
        if allowed {
            self.recording_state = state;
        }
        allowed
    }

    /// True only in Idle.
    pub fn can_start_recording(&self) -> (b: bool)
        ensures
            b == (self.state_spec() == RecordingState::Idle),
    {
        self.recording_state == RecordingState::Idle
    }

    /// True only in Recording.
    pub fn can_stop_recording(&self) -> (b: bool)
        ensures
            b == (self.state_spec() == RecordingState::Recording),
    {
        self.recording_state == RecordingState::Recording
    }

    /// Idle → Recording; in any other state nothing changes.
    pub fn start_recording(&mut self) -> (started: bool)
        ensures
            started == (old(self).state_spec() == RecordingState::Idle),
            started ==> final(self).state_spec() == RecordingState::Recording,
            !started ==> final(self).state_spec() == old(self).state_spec(),
            final(self).transcription_spec() == old(self).transcription_spec(),
            final(self).window_visible_spec() == old(self).window_visible_spec(),
            final(self).preferences_visible_spec() == old(self).preferences_visible_spec(),
    {
        self.set_recording_state(RecordingState::Recording)
    }

    /// Recording → Processing; in any other state nothing changes.
    pub fn stop_recording(&mut self) -> (stopped: bool)
        ensures
            stopped == (old(self).state_spec() == RecordingState::Recording),
            stopped ==> final(self).state_spec() == RecordingState::Processing,
            !stopped ==> final(self).state_spec() == old(self).state_spec(),
            final(self).transcription_spec() == old(self).transcription_spec(),
            final(self).window_visible_spec() == old(self).window_visible_spec(),
            final(self).preferences_visible_spec() == old(self).preferences_visible_spec(),
    {
        self.set_recording_state(RecordingState::Processing)
    }

    /// Processing → Idle; in any other state nothing changes.
    pub fn finish_processing(&mut self) -> (finished: bool)
        ensures
            finished == (old(self).state_spec() == RecordingState::Processing),
            finished ==> final(self).state_spec() == RecordingState::Idle,
            !finished ==> final(self).state_spec() == old(self).state_spec(),
            final(self).transcription_spec() == old(self).transcription_spec(),
            final(self).window_visible_spec() == old(self).window_visible_spec(),
            final(self).preferences_visible_spec() == old(self).preferences_visible_spec(),
    {
        self.set_recording_state(RecordingState::Idle)
    }

    pub fn get_transcription(&self) -> (t: String)
        ensures
            t@ == self.transcription_spec(),
    {
        self.transcription.clone()
    }

    pub fn set_transcription(&mut self, text: String)
        ensures
            final(self).transcription_spec() == text@,
            final(self).state_spec() == old(self).state_spec(),
            final(self).window_visible_spec() == old(self).window_visible_spec(),
            final(self).preferences_visible_spec() == old(self).preferences_visible_spec(),
    {
        self.transcription = text;
    }

    pub fn append_transcription(&mut self, text: &str)
        ensures
            final(self).transcription_spec() == old(self).transcription_spec() + text@,
            final(self).state_spec() == old(self).state_spec(),
            final(self).window_visible_spec() == old(self).window_visible_spec(),
            final(self).preferences_visible_spec() == old(self).preferences_visible_spec(),
    {
        self.transcription.append(text);
    }

    pub fn clear_transcription(&mut self)
        ensures
            final(self).transcription_spec() == Seq::<char>::empty(),
            final(self).state_spec() == old(self).state_spec(),
            final(self).window_visible_spec() == old(self).window_visible_spec(),
            final(self).preferences_visible_spec() == old(self).preferences_visible_spec(),
    {
        self.transcription = String::new();
    }

    pub fn is_window_visible(&self) -> (b: bool)
        ensures
            b == self.window_visible_spec(),
    {
        self.window_visible
    }

    pub fn window_state(&self) -> (w: WindowState)
        ensures
            w == (if self.window_visible_spec() { WindowState::Visible } else { WindowState::Hidden }),
    {
        if self.window_visible {
            WindowState::Visible
        } else {
            WindowState::Hidden
        }
    }

    pub fn set_window_visible(&mut self, visible: bool)
        ensures
            final(self).window_visible_spec() == visible,
            final(self).state_spec() == old(self).state_spec(),
            final(self).transcription_spec() == old(self).transcription_spec(),
            final(self).preferences_visible_spec() == old(self).preferences_visible_spec(),
    {
        self.window_visible = visible;
    }

    pub fn is_preferences_visible(&self) -> (b: bool)
        ensures
            b == self.preferences_visible_spec(),
    {
        self.preferences_visible
    }

    pub fn set_preferences_visible(&mut self, visible: bool)
        ensures
            final(self).preferences_visible_spec() == visible,
            final(self).state_spec() == old(self).state_spec(),
            final(self).transcription_spec() == old(self).transcription_spec(),
            final(self).window_visible_spec() == old(self).window_visible_spec(),
    {
        self.preferences_visible = visible;
    }
}

/// From Idle only a start can begin a cycle, and every state is left only
/// along the cycle Idle → Recording → Processing → Idle: a start request in
/// any state but Idle, and a stop request in any state but Recording, leave
/// the state where it was.
pub proof fn lemma_transitions_follow_cycle(from: RecordingState, to: RecordingState)
    ensures
        is_transition(from, to) ==> from != to,
        is_transition(from, RecordingState::Recording) <==> from == RecordingState::Idle,
        is_transition(from, RecordingState::Processing) <==> from == RecordingState::Recording,
        is_transition(from, RecordingState::Idle) <==> from == RecordingState::Processing,
{
}

} // verus!
