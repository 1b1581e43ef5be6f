//! Session bookkeeping around the external transcription engine: audio is
//! accumulated between the start and the end of a session and handed to
//! the engine once, at the end.

use crate::error::{VoicyError, VoicyResult};
use vstd::prelude::*;
use vstd::string::StringExecFns;

verus! {

/// The text with leading and trailing whitespace removed.
pub uninterp spec fn trimmed(s: Seq<char>) -> Seq<char>;

/// Relies on `str::trim`: leading and trailing whitespace is removed; the
/// result depends on the text alone, and empty text stays empty.
#[verifier::external_body]
fn trim_text(s: &str) -> (r: String)
    ensures
        r@ == trimmed(s@),
        s@.len() == 0 ==> r@.len() == 0,
{
    s.trim().to_string()
}

/// The final text of a session from what the engine returned: the trimmed
/// text, or a transcription failure that carries the engine's message.
pub fn transcription_outcome(result: Result<String, String>) -> (r: VoicyResult<String>)
    ensures
        match result {
            Ok(t) => r matches Ok(u) && u@ == trimmed(t@),
            Err(e) => r matches Err(VoicyError::TranscriptionFailed(m)) && m@ == e@,
        },
{
    match result {
        Ok(text) => Ok(trim_text(text.as_str())),
        Err(e) => Err(VoicyError::TranscriptionFailed(e)),
    }
}

/// Bit pattern of 1.5: batches whose peak magnitude exceeds it are
/// rescaled before they are accumulated.
pub const NORMALIZE_THRESHOLD_BITS: u32 = 0x3FC0_0000;

/// Bit pattern of positive infinity; larger magnitudes are NaN.
pub const INFINITY_BITS: u32 = 0x7F80_0000;

/// The magnitude of a sample: its bits without the sign. For values that
/// are not NaN, magnitudes order as the absolute values do.
pub open spec fn magnitude_bits(b: u32) -> u32 {
    b & 0x7FFF_FFFFu32
}

/// The largest magnitude in `s`, NaN samples ignored; zero when empty.
pub open spec fn peak_bits_of(s: Seq<u32>) -> u32
    decreases s.len(),
{
    if s.len() == 0 {
        0
    } else {
        let p = peak_bits_of(s.drop_last());
        let m = magnitude_bits(s.last());
        if m <= INFINITY_BITS && m > p {
            m
        } else {
            p
        }
    }
}

/// The peak is at least the magnitude of every sample that is not NaN, and
/// it is either zero or the magnitude of one of them.
pub proof fn lemma_peak_bounds(s: Seq<u32>)
    ensures
        forall|i: int|
            0 <= i < s.len() && magnitude_bits(s[i]) <= INFINITY_BITS ==> magnitude_bits(s[i])
                <= peak_bits_of(s),
        peak_bits_of(s) == 0 || exists|i: int|
            0 <= i < s.len() && magnitude_bits(s[i]) == peak_bits_of(s),
    decreases s.len(),
{
    if s.len() > 0 {
        let t = s.drop_last();
        lemma_peak_bounds(t);
        assert forall|i: int|
            0 <= i < s.len() && magnitude_bits(s[i]) <= INFINITY_BITS implies magnitude_bits(s[i])
                <= peak_bits_of(s) by {
            if i < s.len() - 1 {
                assert(s[i] == t[i]);
            }
        }
        if peak_bits_of(s) != 0 {
            if peak_bits_of(s) == peak_bits_of(t) {
                let j = choose|j: int| 0 <= j < t.len() && magnitude_bits(t[j]) == peak_bits_of(t);
                assert(s[j] == t[j]);
            } else {
                assert(magnitude_bits(s[s.len() - 1]) == peak_bits_of(s));
            }
        }
    }
}

/// The peak magnitude of a batch, as the bits of its absolute value.
pub fn peak_magnitude_bits(samples: &[u32]) -> (r: u32)
    ensures
        r == peak_bits_of(samples@),
        forall|i: int|
            0 <= i < samples@.len() && magnitude_bits(samples@[i]) <= INFINITY_BITS
                ==> magnitude_bits(samples@[i]) <= r,
{
    proof {
        lemma_peak_bounds(samples@);
    }
    let mut peak: u32 = 0;
    let mut i: usize = 0;
    while i < samples.len()
        invariant
            i <= samples@.len(),
            peak == peak_bits_of(samples@.take(i as int)),
        decreases samples@.len() - i,
    {
        let m = samples[i] & 0x7FFF_FFFFu32;
        assert(samples@.take(i + 1).drop_last() =~= samples@.take(i as int));
        if m <= INFINITY_BITS && m > peak {
            peak = m;
        }
        i = i + 1;
    }
    assert(samples@.take(samples@.len() as int) =~= samples@);
    peak
}

/// Whether a batch with this peak is rescaled (so that its peak becomes
/// 0.99) to prevent clipping downstream.
pub fn needs_normalization(peak_bits: u32) -> (b: bool)
    ensures
        b == (peak_bits > NORMALIZE_THRESHOLD_BITS),
{
    peak_bits > NORMALIZE_THRESHOLD_BITS
}

/// How a session ends.
#[derive(Debug)]
pub enum SessionEnd {
    /// Nothing was accumulated: the result is empty text and the engine is
    /// not called.
    NoAudio,
    /// The accumulated audio, to be transcribed.
    Submit(Vec<u32>),
}

/// What ending a session with `audio` accumulated yields.
pub open spec fn session_end_of(audio: Seq<u32>, end: SessionEnd) -> bool {
    if audio.len() == 0 {
        end is NoAudio
    } else {
        end matches SessionEnd::Submit(v) && v@ == audio
    }
}

/// The decision for audio accumulated in a session, or drained at the end
/// of a recording.
pub fn session_end(audio: Vec<u32>) -> (end: SessionEnd)
    ensures
        session_end_of(audio@, end),
{
    if audio.len() == 0 {
        SessionEnd::NoAudio
    } else {
        SessionEnd::Submit(audio)
    }
}

/// The accumulation buffer of one transcription session, in sample bits.
pub struct TranscriptionSession {
    sample_rate: u32,
    buffer: Vec<u32>,
}

impl View for TranscriptionSession {
    type V = Seq<u32>;

    closed spec fn view(&self) -> Seq<u32> {
        self.buffer@
    }
}

/// The rate at which the engine takes audio.
pub const ENGINE_SAMPLE_RATE: u32 = 16000;

impl TranscriptionSession {
    pub closed spec fn sample_rate_spec(&self) -> u32 {
        self.sample_rate
    }

    pub fn new(sample_rate: u32) -> (r: TranscriptionSession)
        ensures
            r@ == Seq::<u32>::empty(),
            r.sample_rate_spec() == sample_rate,
    {
        TranscriptionSession { sample_rate, buffer: Vec::new() }
    }

    /// The rate that capture must deliver; fixed by the engine.
    pub fn get_sample_rate(&self) -> (r: u32)
        ensures
            r == self.sample_rate_spec(),
    {
        self.sample_rate
    }

    /// Clears the accumulation buffer.
    pub fn start_session(&mut self)
        ensures
            final(self)@ == Seq::<u32>::empty(),
            final(self).sample_rate_spec() == old(self).sample_rate_spec(),
    {
        self.buffer.clear();
    }

    /// Appends a batch (already normalised) to the buffer.
    pub fn append_audio(&mut self, samples: &[u32])
        ensures
            final(self)@ == old(self)@ + samples@,
            final(self).sample_rate_spec() == old(self).sample_rate_spec(),
    {
        let mut i: usize = 0;
        while i < samples.len()
            invariant
                i <= samples@.len(),
                self.sample_rate == old(self).sample_rate,
                self.buffer@ == old(self).buffer@ + samples@.take(i as int),
            decreases samples@.len() - i,
        {
            self.buffer.push(samples[i]);
            i = i + 1;
            assert(samples@.take(i as int) =~= samples@.take(i - 1).push(samples@[i - 1]));
        }
        assert(samples@.take(samples@.len() as int) =~= samples@);
    }

    /// Takes the accumulated audio, leaving the buffer empty, and says
    /// whether there is anything to transcribe.
    pub fn end_session(&mut self) -> (end: SessionEnd)
        ensures
            final(self)@ == Seq::<u32>::empty(),
            final(self).sample_rate_spec() == old(self).sample_rate_spec(),
            session_end_of(old(self)@, end),
    {
        let mut audio: Vec<u32> = Vec::new();
        std::mem::swap(&mut audio, &mut self.buffer);
        session_end(audio)
    }
}

/// The state of the engine connection: whether `initialize` succeeded.
pub struct SwiftTranscriber {
    initialized: bool,
}

/// What a transcription request on the engine comes to.
#[derive(Debug, Clone, Copy, PartialEq, Eq, Structural)]
pub enum TranscribeGate {
    /// The engine was never initialised: the request fails.
    NotInitialized,
    /// No samples: the result is empty text, without calling the engine.
    NothingToDo,
    /// The samples go to the engine.
    Submit,
}

impl SwiftTranscriber {
    pub closed spec fn initialized_spec(&self) -> bool {
        self.initialized
    }

    pub fn new() -> (r: SwiftTranscriber)
        ensures
            !r.initialized_spec(),
    {
        SwiftTranscriber { initialized: false }
    }

    pub fn is_initialized(&self) -> (b: bool)
        ensures
            b == self.initialized_spec(),
    {
        self.initialized
    }

    /// Applies the status the engine's initialisation returned: zero means
    /// success.
    pub fn record_init_status(&mut self, status: i32) -> (r: Result<(), String>)
        ensures
            r is Ok <==> status == 0,
            final(self).initialized_spec() == (old(self).initialized_spec() || status == 0),
    {
        if status == 0 {
            self.initialized = true;
            Ok(())
        } else {
            Err(String::from_str("Failed to initialize Swift transcriber"))
        }
    }

    /// What a request to transcribe `n_samples` samples comes to.
    pub fn transcribe_gate(&self, n_samples: usize) -> (g: TranscribeGate)
        ensures
            !self.initialized_spec() ==> g == TranscribeGate::NotInitialized,
            self.initialized_spec() && n_samples == 0 ==> g == TranscribeGate::NothingToDo,
            self.initialized_spec() && n_samples > 0 ==> g == TranscribeGate::Submit,
    {
        if !self.initialized {
            TranscribeGate::NotInitialized
        } else if n_samples == 0 {
            TranscribeGate::NothingToDo
        } else {
            TranscribeGate::Submit
        }
    }

    /// Marks the engine released; returns whether it had been initialised
    /// and so must be cleaned up.
    pub fn cleanup(&mut self) -> (must_release: bool)
        ensures
            must_release == old(self).initialized_spec(),
            !final(self).initialized_spec(),
    {
        let was = self.initialized;
        self.initialized = false;
        was
    }
}

} // verus!
