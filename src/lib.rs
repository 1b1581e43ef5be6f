//! Push-to-talk dictation core: the real-time sample transfer between the
//! audio device and the application, session bookkeeping around a
//! transcription engine, the keystroke-injection retry policy and the
//! recording state machine.
//!
//! Samples travel through this library as the bit patterns of their
//! single-precision values (`u32`), so that what the sample queue and the
//! transcription session pass on can be stated bit for bit; conversion to
//! and from `f32`, and the float arithmetic itself, happen at the edges.

pub mod capture;
pub mod config;
pub mod controller;
pub mod error;
pub mod live;
pub mod modifiers;
pub mod processor;
pub mod ring;
pub mod state;
pub mod transcriber;
pub mod typing;
