use voicy::live::{LiveTextAction, LiveTextTracker};
use voicy::controller::{
    apply_event, complete_processing, push_to_talk_event, should_type, ControllerAction, EventLoop,
    HotkeyEvent, LoopStep, ReceiveOutcome,
};
use voicy::modifiers::{any_down, fmt_snapshot, modifier_wait_step, wait_deadline};
use voicy::state::{AppStateManager, RecordingState, WindowState};
use voicy::typing::{
    backoff_ms, injection_plan, typing_command, FailureTracker, RetryDecision, RetryState, TypingCommand,
    TypingRequest,
};

#[test]
fn start_only_from_idle() {
    let mut s = AppStateManager::new();
    assert!(s.can_start_recording());
    assert!(!s.can_stop_recording());
    assert!(s.start_recording());
    assert_eq!(s.get_recording_state(), RecordingState::Recording);
    assert!(!s.can_start_recording());
    assert!(!s.start_recording());
    assert_eq!(s.get_recording_state(), RecordingState::Recording);
    assert!(s.stop_recording());
    assert!(!s.start_recording());
    assert_eq!(s.get_recording_state(), RecordingState::Processing);
}

#[test]
fn cycle_in_order_and_no_skipping() {
    let mut s = AppStateManager::new();
    assert!(s.set_recording_state(RecordingState::Recording));
    assert!(s.set_recording_state(RecordingState::Processing));
    assert!(!s.set_recording_state(RecordingState::Recording));
    assert_eq!(s.get_recording_state(), RecordingState::Processing);
    assert!(s.set_recording_state(RecordingState::Idle));
    assert_eq!(s.get_recording_state(), RecordingState::Idle);
    assert!(!s.set_recording_state(RecordingState::Processing));
    assert!(!s.set_recording_state(RecordingState::Idle));
    assert_eq!(s.get_recording_state(), RecordingState::Idle);
}

#[test]
fn transcription_text_and_windows() {
    let mut s = AppStateManager::new();
    s.append_transcription("hello");
    s.append_transcription(" there");
    assert_eq!(s.get_transcription(), "hello there");
    s.clear_transcription();
    assert_eq!(s.get_transcription(), "");
    s.set_transcription("x".to_string());
    assert_eq!(s.get_transcription(), "x");
    assert_eq!(s.window_state(), WindowState::Hidden);
    s.set_window_visible(true);
    assert!(s.is_window_visible());
    assert_eq!(s.window_state(), WindowState::Visible);
    s.set_preferences_visible(true);
    assert!(s.is_preferences_visible());
}

#[test]
fn controller_press_release_cycle() {
    let mut s = AppStateManager::new();
    s.set_transcription("old".to_string());
    assert_eq!(apply_event(&mut s, HotkeyEvent::PushToTalkReleased), ControllerAction::Ignore);
    assert_eq!(apply_event(&mut s, HotkeyEvent::PushToTalkPressed), ControllerAction::BeginRecording);
    assert_eq!(s.get_transcription(), "");
    assert_eq!(apply_event(&mut s, HotkeyEvent::PushToTalkPressed), ControllerAction::Ignore);
    assert_eq!(apply_event(&mut s, HotkeyEvent::PushToTalkReleased), ControllerAction::EndRecording);
    assert_eq!(s.get_recording_state(), RecordingState::Processing);
    assert_eq!(apply_event(&mut s, HotkeyEvent::PushToTalkPressed), ControllerAction::Ignore);
    assert!(complete_processing(&mut s));
    assert_eq!(s.get_recording_state(), RecordingState::Idle);
    assert!(!complete_processing(&mut s));
}

#[test]
fn controller_toggles_window() {
    let mut s = AppStateManager::new();
    assert_eq!(apply_event(&mut s, HotkeyEvent::ToggleWindow), ControllerAction::ShowWindow);
    assert!(s.is_window_visible());
    assert_eq!(apply_event(&mut s, HotkeyEvent::ToggleWindow), ControllerAction::HideWindow);
    assert!(!s.is_window_visible());
    assert_eq!(apply_event(&mut s, HotkeyEvent::OpenPreferences), ControllerAction::OpenPreferences);
}

#[test]
fn push_to_talk_key_maps_to_events() {
    assert_eq!(push_to_talk_event(true), HotkeyEvent::PushToTalkPressed);
    assert_eq!(push_to_talk_event(false), HotkeyEvent::PushToTalkReleased);
}

#[test]
fn typing_decision_after_processing() {
    assert!(should_type("hi", true));
    assert!(!should_type("", true));
    assert!(!should_type("hi", false));
}

#[test]
fn event_loop_steps() {
    let mut l = EventLoop::new();
    assert!(!l.is_running());
    assert_eq!(l.step(ReceiveOutcome::Timeout), LoopStep::Stop);
    l.start();
    assert_eq!(
        l.step(ReceiveOutcome::Event(HotkeyEvent::ToggleWindow)),
        LoopStep::Dispatch(HotkeyEvent::ToggleWindow)
    );
    assert_eq!(l.step(ReceiveOutcome::Timeout), LoopStep::Continue);
    assert_eq!(l.step(ReceiveOutcome::Disconnected), LoopStep::Stop);
    l.stop();
    assert_eq!(l.step(ReceiveOutcome::Event(HotkeyEvent::ToggleWindow)), LoopStep::Stop);
}

#[test]
fn empty_typing_request_enqueues_nothing() {
    assert!(typing_command(String::new(), false).is_none());
    match typing_command(String::new(), true) {
        Some(TypingCommand::Type { text, add_space }) => {
            assert_eq!(text, "");
            assert!(add_space);
        }
        _ => panic!("a leading space is still typed"),
    }
    let r = TypingRequest { text: "abc".to_string(), add_space: false };
    match r.into_command() {
        Some(TypingCommand::Type { text, add_space }) => {
            assert_eq!(text, "abc");
            assert!(!add_space);
        }
        _ => panic!("text must be queued"),
    }
}

#[test]
fn failing_injection_tried_three_times_with_growing_waits() {
    let mut r = RetryState::new();
    assert_eq!(r.record_attempt(false), RetryDecision::RetryAfter(10));
    assert_eq!(r.record_attempt(false), RetryDecision::RetryAfter(20));
    assert_eq!(r.record_attempt(false), RetryDecision::Done(false));
    assert!(r.finished);
    assert!(!r.succeeded);
    assert_eq!(backoff_ms(0), 10);
    assert_eq!(backoff_ms(1), 20);
}

#[test]
fn injection_success_stops_retrying() {
    let mut r = RetryState::new();
    assert_eq!(r.record_attempt(false), RetryDecision::RetryAfter(10));
    assert_eq!(r.record_attempt(true), RetryDecision::Done(true));
    assert!(r.finished && r.succeeded);
}

#[test]
fn repeated_failures_warn_from_the_fifth() {
    let mut f = FailureTracker::new();
    for _ in 0..4 {
        assert!(!f.record(false));
    }
    assert!(f.record(false));
    assert!(f.record(false));
    assert!(!f.record(true));
    assert_eq!(f.consecutive_failures, 0);
}

#[test]
fn modifier_snapshots() {
    let none = [false; 8];
    assert!(!any_down(&none));
    assert_eq!(fmt_snapshot(&none), "<none>");
    let mut s = [false; 8];
    s[0] = true;
    s[3] = true;
    s[7] = true;
    assert!(any_down(&s));
    assert_eq!(fmt_snapshot(&s), "CmdL,ShiftR,CtrlR");
    let mut one = [false; 8];
    one[4] = true;
    assert_eq!(fmt_snapshot(&one), "OptL");
}

#[test]
fn modifier_wait_decisions() {
    let d = wait_deadline(1000, 300);
    assert_eq!(d, 1300);
    assert_eq!(wait_deadline(u64::MAX - 1, 300), u64::MAX);
    let mut held = [false; 8];
    held[2] = true;
    assert_eq!(modifier_wait_step(1100, d, &held), None);
    assert_eq!(modifier_wait_step(1100, d, &[false; 8]), Some(true));
    assert_eq!(modifier_wait_step(1300, d, &held), Some(false));
    assert_eq!(modifier_wait_step(1400, d, &[false; 8]), Some(true));
}

#[test]
fn live_text_types_only_the_continuation() {
    let mut t = LiveTextTracker::new();
    match t.process_live_text("hello") {
        LiveTextAction::Type(d) => assert_eq!(d, "hello"),
        other => panic!("unexpected {:?}", other),
    }
    t.mark_typed("hello");
    match t.process_live_text("hello wörld") {
        LiveTextAction::Type(d) => assert_eq!(d, " wörld"),
        other => panic!("unexpected {:?}", other),
    }
    t.mark_typed("hello wörld");
    assert!(matches!(t.process_live_text("hello"), LiveTextAction::Nothing));
    assert!(matches!(t.process_live_text("help me out there"), LiveTextAction::Correction));
    assert_eq!(t.get_pending_corrections(), Some("help me out there".to_string()));
    t.reset();
    assert_eq!(t.get_pending_corrections(), None);
}

#[test]
fn injection_plan_types_space_once_and_empty_text_succeeds() {
    let p = injection_plan("", true);
    assert!(p.leading_space);
    assert!(!p.type_text);
    let r = RetryState::start(p.type_text);
    assert!(r.finished && r.succeeded);
    let p = injection_plan("hi", false);
    assert!(!p.leading_space);
    assert!(p.type_text);
    let r = RetryState::start(p.type_text);
    assert!(!r.finished && !r.succeeded);
}
