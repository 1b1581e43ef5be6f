//! Decisions of the audio processor across a recording: the timing of
//! incremental submissions in streaming mode, and what stopping yields.

use crate::config::StreamingConfig;
use vstd::prelude::*;

verus! {

/// Timing of the background polling thread in streaming mode.
pub struct StreamingSchedule {
    /// Least time between two submissions, in milliseconds.
    pub process_interval_ms: u64,
    /// Least number of new samples for a submission.
    pub min_samples: u64,
    /// Samples read from capture per poll (100 ms of audio).
    pub read_chunk: usize,
}

/// The schedule for `cfg` at `sample_rate`: half the configured interval
/// (for quicker feedback), the configured minimum duration in samples, and
/// reads of a tenth of a second.
pub fn streaming_schedule(cfg: &StreamingConfig, sample_rate: u32) -> (s: StreamingSchedule)
    ensures
        s.process_interval_ms == cfg.process_interval_ms / 2,
        s.min_samples == cfg.min_initial_audio_ms as int * sample_rate as int / 1000,
        s.read_chunk == sample_rate / 10,
{
    let ms = cfg.min_initial_audio_ms as u64;
    let rate = sample_rate as u64;
    assert(ms * rate <= u64::MAX) by (nonlinear_arith)
        requires
            ms <= u32::MAX,
            rate <= u32::MAX,
    ;
    StreamingSchedule {
        process_interval_ms: (cfg.process_interval_ms / 2) as u64,
        min_samples: ms * rate / 1000,
        read_chunk: (sample_rate / 10) as usize,
    }
}

/// Milliseconds from `last` to `now`, zero if the clock went back.
pub open spec fn elapsed_ms(last: u64, now: u64) -> u64 {
    if now >= last {
        (now - last) as u64
    } else {
        0
    }
}

/// Audio accumulated by the polling thread, and how much of it has been
/// submitted. Each submission is the slice that arrived since the one
/// before, never the whole history.
pub struct StreamingPoller {
    schedule: StreamingSchedule,
    accumulated: Vec<u32>,
    processed: usize,
    last_process_ms: u64,
    submitted: Ghost<Seq<u32>>,
}

impl StreamingPoller {
    pub closed spec fn accumulated_spec(&self) -> Seq<u32> {
        self.accumulated@
    }

    pub closed spec fn processed_spec(&self) -> nat {
        self.processed as nat
    }

    pub closed spec fn last_process_spec(&self) -> u64 {
        self.last_process_ms
    }

    pub closed spec fn interval_spec(&self) -> u64 {
        self.schedule.process_interval_ms
    }

    pub closed spec fn min_samples_spec(&self) -> u64 {
        self.schedule.min_samples
    }

    pub closed spec fn read_chunk_spec(&self) -> usize {
        self.schedule.read_chunk
    }

    /// Everything submitted so far, in order.
    pub closed spec fn submitted_spec(&self) -> Seq<u32> {
        self.submitted@
    }

    pub closed spec fn wf(&self) -> bool {
        &&& self.processed <= self.accumulated@.len()
        &&& self.submitted@ == self.accumulated@.take(self.processed as int)
    }

    /// Whether a poll at `now` submits.
    pub open spec fn due(&self, now: u64) -> bool {
        &&& self.accumulated_spec().len() > 0
        &&& self.accumulated_spec().len() - self.processed_spec() >= self.min_samples_spec()
        &&& elapsed_ms(self.last_process_spec(), now) >= self.interval_spec()
    }

    pub fn new(schedule: StreamingSchedule, now_ms: u64) -> (r: StreamingPoller)
        ensures
            r.wf(),
            r.accumulated_spec() == Seq::<u32>::empty(),
            r.processed_spec() == 0,
            r.last_process_spec() == now_ms,
            r.interval_spec() == schedule.process_interval_ms,
            r.min_samples_spec() == schedule.min_samples,
            r.read_chunk_spec() == schedule.read_chunk,
    {
        let r = StreamingPoller {
            schedule,
            accumulated: Vec::new(),
            processed: 0,
            last_process_ms: now_ms,
            submitted: Ghost(Seq::empty()),
        };
        assert(r.submitted@ =~= r.accumulated@.take(0));
        r
    }

    pub fn read_chunk(&self) -> (n: usize)
        ensures
            n == self.read_chunk_spec(),
    {
        self.schedule.read_chunk
    }

    /// Adds audio read from capture.
    pub fn on_audio(&mut self, audio: &[u32])
        requires
            old(self).wf(),
        ensures
            final(self).wf(),
            final(self).accumulated_spec() == old(self).accumulated_spec() + audio@,
            final(self).processed_spec() == old(self).processed_spec(),
            final(self).last_process_spec() == old(self).last_process_spec(),
            final(self).interval_spec() == old(self).interval_spec(),
            final(self).min_samples_spec() == old(self).min_samples_spec(),
            final(self).submitted_spec() == old(self).submitted_spec(),
    {
        let mut i: usize = 0;
        while i < audio.len()
            invariant
                i <= audio@.len(),
                self.processed == old(self).processed,
                self.last_process_ms == old(self).last_process_ms,
                self.schedule == old(self).schedule,
                self.submitted == old(self).submitted,
                self.accumulated@ == old(self).accumulated@ + audio@.take(i as int),
            decreases audio@.len() - i,
        {
            self.accumulated.push(audio[i]);
            i = i + 1;
            assert(audio@.take(i as int) =~= audio@.take(i - 1).push(audio@[i - 1]));
        }
        assert(audio@.take(audio@.len() as int) =~= audio@);
        assert(self.submitted@ =~= self.accumulated@.take(self.processed as int));
    }

    /// At `now`: when enough new audio has arrived and enough time has
    /// passed, returns the audio that arrived since the last submission
    /// and marks it submitted; otherwise nothing changes.
    pub fn poll(&mut self, now_ms: u64) -> (r: Option<Vec<u32>>)
        requires
            old(self).wf(),
        ensures
            final(self).wf(),
            final(self).accumulated_spec() == old(self).accumulated_spec(),
            final(self).interval_spec() == old(self).interval_spec(),
            final(self).min_samples_spec() == old(self).min_samples_spec(),
            old(self).due(now_ms) ==> (r matches Some(v)
                && v@ == old(self).accumulated_spec().skip(old(self).processed_spec() as int)
                && final(self).processed_spec() == old(self).accumulated_spec().len()
                && final(self).last_process_spec() == now_ms
                && final(self).submitted_spec() == old(self).submitted_spec() + v@),
            !old(self).due(now_ms) ==> (r is None
                && final(self).processed_spec() == old(self).processed_spec()
                && final(self).last_process_spec() == old(self).last_process_spec()
                && final(self).submitted_spec() == old(self).submitted_spec()),
    {
        let total = self.accumulated.len();
        let fresh = (total - self.processed) as u64;
        let elapsed: u64 = if now_ms >= self.last_process_ms {
            now_ms - self.last_process_ms
        } else {
            0
        };
        if total > 0 && fresh >= self.schedule.min_samples && elapsed
            >= self.schedule.process_interval_ms {
            let mut slice: Vec<u32> = Vec::new();
            let mut i: usize = self.processed;
            while i < total
                invariant
                    self.processed <= i <= total,
                    total == self.accumulated@.len(),
                    slice@ == self.accumulated@.subrange(self.processed as int, i as int),
                decreases total - i,
            {
                slice.push(self.accumulated[i]);
                i = i + 1;
                assert(slice@ =~= self.accumulated@.subrange(self.processed as int, i as int));
            }
            assert(slice@ =~= self.accumulated@.skip(self.processed as int));
            self.submitted = Ghost(self.submitted@ + slice@);
            self.processed = total;
            self.last_process_ms = now_ms;
            assert(self.submitted@ =~= self.accumulated@.take(self.processed as int));
            Some(slice)
        } else {
            None
        }
    }
}

/// In streaming mode the submissions, taken together, are exactly the audio
/// accumulated up to the last one, in order: nothing is submitted twice and
/// nothing is skipped.
pub proof fn lemma_submissions_partition_audio(p: &StreamingPoller)
    requires
        p.wf(),
    ensures
        p.submitted_spec() == p.accumulated_spec().take(p.processed_spec() as int),
        p.submitted_spec().len() <= p.accumulated_spec().len(),
{
}

} // verus!
