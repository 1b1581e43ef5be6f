//! The computing part of the device callback: whether audio must be
//! resampled, and the cutting of the mono stream into the fixed-size input
//! blocks that the resampler takes.

use vstd::prelude::*;

verus! {

/// Samples per resampler input block.
pub const RESAMPLER_CHUNK: usize = 1024;

/// Resampling is skipped entirely when the device already runs at the
/// target rate; the samples are then copied as they are.
pub fn needs_resampling(device_rate: u32, target_rate: u32) -> (b: bool)
    ensures
        b == (device_rate != target_rate),
{
    device_rate != target_rate
}

/// Mono samples waiting to fill a resampler input block. Besides the
/// pending samples it keeps, as ghost state, every sample fed in and every
/// block taken out.
pub struct InputChunker {
    block: usize,
    pending: Vec<u32>,
    fed: Ghost<Seq<u32>>,
    emitted: Ghost<Seq<u32>>,
}

impl View for InputChunker {
    type V = Seq<u32>;

    closed spec fn view(&self) -> Seq<u32> {
        self.pending@
    }
}

impl InputChunker {
    pub closed spec fn block_spec(&self) -> nat {
        self.block as nat
    }

    /// Every sample fed in, in order.
    pub closed spec fn fed_spec(&self) -> Seq<u32> {
        self.fed@
    }

    /// The blocks taken out, joined in order.
    pub closed spec fn emitted_spec(&self) -> Seq<u32> {
        self.emitted@
    }

    pub closed spec fn wf(&self) -> bool {
        &&& self.block > 0
        &&& self.emitted@ + self.pending@ == self.fed@
        &&& self.emitted@.len() % (self.block as nat) == 0
    }

    pub fn new(block: usize) -> (r: InputChunker)
        requires
            block > 0,
        ensures
            r.wf(),
            r@ == Seq::<u32>::empty(),
            r.block_spec() == block,
            r.fed_spec() == Seq::<u32>::empty(),
            r.emitted_spec() == Seq::<u32>::empty(),
    {
        let r = InputChunker {
            block,
            pending: Vec::new(),
            fed: Ghost(Seq::empty()),
            emitted: Ghost(Seq::empty()),
        };
        assert(r.emitted@ + r.pending@ =~= r.fed@);
        r
    }

    /// Appends samples to the pending ones.
    pub fn extend(&mut self, samples: &[u32])
        requires
            old(self).wf(),
        ensures
            final(self).wf(),
            final(self)@ == old(self)@ + samples@,
            final(self).block_spec() == old(self).block_spec(),
            final(self).fed_spec() == old(self).fed_spec() + samples@,
            final(self).emitted_spec() == old(self).emitted_spec(),
    {
        let mut i: usize = 0;
        while i < samples.len()
            invariant
                i <= samples@.len(),
                self.block == old(self).block,
                self.emitted == old(self).emitted,
                self.fed == old(self).fed,
                self.pending@ == old(self).pending@ + samples@.take(i as int),
            decreases samples@.len() - i,
        {
            self.pending.push(samples[i]);
            i = i + 1;
            assert(samples@.take(i as int) =~= samples@.take(i - 1).push(samples@[i - 1]));
        }
        assert(samples@.take(samples@.len() as int) =~= samples@);
        self.fed = Ghost(self.fed@ + samples@);
        assert(self.emitted@ + self.pending@ =~= self.fed@);
    }

    /// The next full block, oldest samples first, when one is pending.
    pub fn take_chunk(&mut self) -> (r: Option<Vec<u32>>)
        requires
            old(self).wf(),
        ensures
            final(self).wf(),
            final(self).block_spec() == old(self).block_spec(),
            final(self).fed_spec() == old(self).fed_spec(),
            old(self)@.len() >= old(self).block_spec() ==> (r matches Some(c)
                && c@ == old(self)@.take(old(self).block_spec() as int)
                && final(self)@ == old(self)@.skip(old(self).block_spec() as int)
                && final(self).emitted_spec() == old(self).emitted_spec() + c@),
            old(self)@.len() < old(self).block_spec() ==> (r is None && final(self)@ == old(self)@
                && final(self).emitted_spec() == old(self).emitted_spec()),
    {
        let n = self.pending.len();
        if n < self.block {
            return None;
        }
        let mut chunk: Vec<u32> = Vec::new();
        let mut rest: Vec<u32> = Vec::new();
        let mut i: usize = 0;
        while i < n
            invariant
                n == self.pending@.len(),
                self.block <= n,
                i <= n,
                i <= self.block ==> chunk@ == self.pending@.take(i as int) && rest@.len() == 0,
                i > self.block ==> chunk@ == self.pending@.take(self.block as int)
                    && rest@ == self.pending@.subrange(self.block as int, i as int),
            decreases n - i,
        {
            if i < self.block {
                chunk.push(self.pending[i]);
                assert(chunk@ =~= self.pending@.take(i + 1));
            } else {
                rest.push(self.pending[i]);
                assert(rest@ =~= self.pending@.subrange(self.block as int, i + 1));
            }
            i = i + 1;
        }
        assert(rest@ =~= self.pending@.skip(self.block as int));
        let ghost old_emitted = self.emitted@;
        let ghost old_pending = self.pending@;
        self.emitted = Ghost(self.emitted@ + chunk@);
        self.pending = rest;
        assert(self.emitted@ + self.pending@ =~= old_emitted + old_pending);
        assert(self.emitted@.len() == old_emitted.len() + self.block);
        assert(self.emitted@.len() % (self.block as nat) == 0) by (nonlinear_arith)
            requires
                self.emitted@.len() == old_emitted.len() + self.block,
                old_emitted.len() % (self.block as nat) == 0,
                self.block > 0,
        ;
        Some(chunk)
    }
}

/// The blocks handed to the resampler, followed by what is still pending,
/// are exactly the samples fed in, in order; and only whole blocks leave.
pub proof fn lemma_chunks_preserve_stream(c: &InputChunker)
    requires
        c.wf(),
    ensures
        c.emitted_spec() + c@ == c.fed_spec(),
        c.emitted_spec().len() % c.block_spec() == 0,
{
}

} // verus!
