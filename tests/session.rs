use voicy::config::{Config, ModelConfig, ResamplerQuality, StreamingConfig};
use voicy::error::{handle_recoverable, VoicyError};
use voicy::processor::{streaming_schedule, StreamingPoller};
use voicy::transcriber::{
    needs_normalization, peak_magnitude_bits,
    session_end, transcription_outcome, SessionEnd, SwiftTranscriber, TranscribeGate,
    TranscriptionSession, ENGINE_SAMPLE_RATE,
};

#[test]
fn empty_session_does_not_reach_the_engine() {
    let mut s = TranscriptionSession::new(ENGINE_SAMPLE_RATE);
    s.start_session();
    assert!(matches!(s.end_session(), SessionEnd::NoAudio));
    assert!(matches!(session_end(Vec::new()), SessionEnd::NoAudio));
}

#[test]
fn session_accumulates_and_empties() {
    let mut s = TranscriptionSession::new(16000);
    assert_eq!(s.get_sample_rate(), 16000);
    s.append_audio(&[1, 2]);
    s.start_session();
    s.append_audio(&[3, 4]);
    s.append_audio(&[5]);
    match s.end_session() {
        SessionEnd::Submit(v) => assert_eq!(v, vec![3, 4, 5]),
        SessionEnd::NoAudio => panic!("audio was accumulated"),
    }
    assert!(matches!(s.end_session(), SessionEnd::NoAudio));
}

#[test]
fn engine_text_is_trimmed() {
    let r = transcription_outcome(Ok("  hello world \n".to_string()));
    assert_eq!(r.unwrap(), "hello world");
    let r = transcription_outcome(Ok("   ".to_string()));
    assert_eq!(r.unwrap(), "");
}

#[test]
fn engine_failure_is_a_transcription_error() {
    match transcription_outcome(Err("boom".to_string())) {
        Err(VoicyError::TranscriptionFailed(m)) => assert_eq!(m, "boom"),
        _ => panic!("expected a transcription failure"),
    }
}

#[test]
fn swift_transcriber_gates_requests() {
    let mut t = SwiftTranscriber::new();
    assert!(!t.is_initialized());
    assert_eq!(t.transcribe_gate(10), TranscribeGate::NotInitialized);
    assert!(t.record_init_status(3).is_err());
    assert!(!t.is_initialized());
    assert!(t.record_init_status(0).is_ok());
    assert_eq!(t.transcribe_gate(0), TranscribeGate::NothingToDo);
    assert_eq!(t.transcribe_gate(10), TranscribeGate::Submit);
    assert!(t.cleanup());
    assert!(!t.cleanup());
}

#[test]
fn streaming_schedule_from_config() {
    let cfg = StreamingConfig {
        enabled: true,
        process_interval_ms: 500,
        min_initial_audio_ms: 500,
        lookahead_tokens: 3,
    };
    let s = streaming_schedule(&cfg, 16000);
    assert_eq!(s.process_interval_ms, 250);
    assert_eq!(s.min_samples, 8000);
    assert_eq!(s.read_chunk, 1600);
}

#[test]
fn poller_submits_only_new_audio() {
    let cfg = StreamingConfig {
        enabled: true,
        process_interval_ms: 200,
        min_initial_audio_ms: 1,
        lookahead_tokens: 0,
    };
    let mut p = StreamingPoller::new(streaming_schedule(&cfg, 3000), 1000);
    assert_eq!(p.read_chunk(), 300);
    p.on_audio(&[1, 2]);
    assert_eq!(p.poll(1050), None);
    p.on_audio(&[3, 4]);
    assert_eq!(p.poll(1100), Some(vec![1, 2, 3, 4]));
    p.on_audio(&[5]);
    assert_eq!(p.poll(1150), None);
    p.on_audio(&[6, 7]);
    assert_eq!(p.poll(1250), Some(vec![5, 6, 7]));
    assert_eq!(p.poll(2000), None);
}

#[test]
fn error_messages_name_the_failure() {
    let e = VoicyError::AudioInitFailed("No input device available".to_string());
    assert_eq!(e.message(), "Audio initialization failed: No input device available");
    let e = VoicyError::WindowOperationFailed("x".to_string());
    assert_eq!(e.message(), "Window operation failed: x");
}

#[test]
fn recoverable_errors_fall_back_to_default() {
    assert_eq!(handle_recoverable(Ok(3), 9), 3);
    assert_eq!(handle_recoverable(Err(VoicyError::ConfigLoadFailed("bad".to_string())), 9), 9);
}

#[test]
fn default_config_values() {
    let c = Config::default();
    assert_eq!(c.audio.target_sample_rate, 16000);
    assert_eq!(c.audio.resampler_quality, ResamplerQuality::High);
    assert!(!c.streaming.enabled);
    assert!(c.output.enable_typing);
    assert!(c.output.add_space_between_utterances);
    assert_eq!(c.hotkeys.push_to_talk, "fn");
    assert_eq!(c.model.model_path(), None);
}

#[test]
fn absolute_model_name_is_a_path() {
    let m = ModelConfig {
        model_name: "/models/parakeet".to_string(),
        left_context_seconds: 5,
        right_context_seconds: 3,
    };
    assert_eq!(m.model_path(), Some("/models/parakeet".to_string()));
    let m = ModelConfig { model_name: String::new(), left_context_seconds: 0, right_context_seconds: 0 };
    assert_eq!(m.model_path(), None);
}

#[test]
fn peak_of_loud_batch_calls_for_rescaling() {
    let batch: Vec<u32> = [0.5f32, -2.0, 1.0, -0.25].iter().map(|x| x.to_bits()).collect();
    let peak = peak_magnitude_bits(&batch);
    assert_eq!(f32::from_bits(peak), 2.0);
    assert!(needs_normalization(peak));
    let scale = 0.99 / f32::from_bits(peak);
    let scaled: Vec<f32> = [0.5f32, -2.0, 1.0, -0.25].iter().map(|x| x * scale).collect();
    assert!((scaled[1] + 0.99).abs() < 1e-6);
    assert!((scaled[0] / scaled[2] - 0.5).abs() < 1e-6);
}

#[test]
fn peak_ignores_nan_and_quiet_batches_stay() {
    let batch: Vec<u32> = [f32::NAN, -1.2f32, 0.3].iter().map(|x| x.to_bits()).collect();
    let peak = peak_magnitude_bits(&batch);
    assert_eq!(f32::from_bits(peak), 1.2);
    assert!(!needs_normalization(peak));
    assert!(!needs_normalization(1.5f32.to_bits()));
    assert!(needs_normalization(1.5001f32.to_bits()));
    assert_eq!(peak_magnitude_bits(&[]), 0);
    assert_eq!(f32::from_bits(peak_magnitude_bits(&[f32::NEG_INFINITY.to_bits()])), f32::INFINITY);
}
