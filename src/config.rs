//! The settings that the core reads. Loading and saving them is the
//! application's business; the core re-reads the fields it needs on each
//! operation.

use vstd::prelude::*;
use vstd::string::{StrSliceExecFns, StringExecFns};

verus! {

#[derive(Debug, Clone, Copy, PartialEq, Eq, Structural)]
pub enum ResamplerQuality {
    Low,
    Medium,
    High,
}

#[derive(Debug, Clone)]
pub struct AudioConfig {
    pub target_sample_rate: u32,
    pub chunk_duration_ms: u32,
    pub buffer_size_seconds: u32,
    pub resampler_quality: ResamplerQuality,
}

/// Streaming (type-while-speaking) settings.
#[derive(Debug, Clone)]
pub struct StreamingConfig {
    pub enabled: bool,
    /// Milliseconds between two submissions of new audio.
    pub process_interval_ms: u32,
    /// Milliseconds of new audio needed before a submission.
    pub min_initial_audio_ms: u32,
    pub lookahead_tokens: usize,
}

#[derive(Debug, Clone)]
pub struct ModelConfig {
    pub model_name: String,
    pub left_context_seconds: usize,
    pub right_context_seconds: usize,
}

#[derive(Debug, Clone)]
pub struct OutputConfig {
    pub enable_typing: bool,
    pub add_space_between_utterances: bool,
}

#[derive(Debug, Clone)]
pub struct HotkeyConfig {
    pub toggle_window: Option<String>,
    pub push_to_talk: String,
    pub preferences: Option<String>,
}

#[derive(Debug, Clone)]
pub struct Config {
    pub audio: AudioConfig,
    pub streaming: StreamingConfig,
    pub model: ModelConfig,
    pub output: OutputConfig,
    pub hotkeys: HotkeyConfig,
}

/// Whether a model name is an absolute path to the model.
pub open spec fn is_model_path(name: Seq<char>) -> bool {
    name.len() > 0 && name[0] == '/'
}

impl ModelConfig {
    /// The path to hand to the engine: the model name when it is an
    /// absolute path, else none (the engine's default location).
    pub fn model_path(&self) -> (p: Option<String>)
        ensures
            is_model_path(self.model_name@) ==> (p matches Some(s) && s@ == self.model_name@),
            !is_model_path(self.model_name@) ==> p is None,
    {
        let name = self.model_name.as_str();
        if name.unicode_len() > 0 && name.get_char(0) == '/' {
            Some(String::from_str(name))
        } else {
            None
        }
    }
}

impl Default for Config {
    fn default() -> (c: Config)
        ensures
            c.audio.target_sample_rate == 16000,
            c.audio.chunk_duration_ms == 500,
            c.audio.buffer_size_seconds == 10,
            c.audio.resampler_quality == ResamplerQuality::High,
            !c.streaming.enabled,
            c.streaming.process_interval_ms == 500,
            c.streaming.min_initial_audio_ms == 500,
            c.streaming.lookahead_tokens == 3,
            c.model.model_name@ == "mlx-community/parakeet-tdt-0.6b-v3"@,
            c.model.left_context_seconds == 5,
            c.model.right_context_seconds == 3,
            c.output.enable_typing,
            c.output.add_space_between_utterances,
            c.hotkeys.toggle_window is None,
            c.hotkeys.push_to_talk@ == "fn"@,
            c.hotkeys.preferences is None,
    {
        Config {
            audio: AudioConfig {
                target_sample_rate: 16000,
                chunk_duration_ms: 500,
                buffer_size_seconds: 10,
                resampler_quality: ResamplerQuality::High,
            },
            streaming: StreamingConfig {
                enabled: false,
                process_interval_ms: 500,
                min_initial_audio_ms: 500,
                lookahead_tokens: 3,
            },
            model: ModelConfig {
                model_name: String::from_str("mlx-community/parakeet-tdt-0.6b-v3"),
                left_context_seconds: 5,
                right_context_seconds: 3,
            },
            output: OutputConfig { enable_typing: true, add_space_between_utterances: true },
            hotkeys: HotkeyConfig {
                toggle_window: None,
                push_to_talk: String::from_str("fn"),
                preferences: None,
            },
        }
    }
}

} // verus!
