//! Fixed-capacity single-producer/single-consumer sample queue between the
//! audio device callback and the application threads.

use ringbuf::traits::{Consumer, Observer, Producer};
use vstd::prelude::*;

verus! {

/// Storage of the queue: ringbuf's lock-free `HeapRb` of sample bits. Its
/// contents and size are known to proofs only through `ring_items` and
/// `ring_bound`, as the wrappers below state them.
#[verifier::external_body]
pub struct HeapRing {
    rb: ringbuf::HeapRb<u32>,
}

/// The samples held by a ring, oldest first.
pub uninterp spec fn ring_items(r: HeapRing) -> Seq<u32>;

/// The number of samples a ring can hold.
pub uninterp spec fn ring_bound(r: HeapRing) -> nat;

/// Relies on ringbuf's `HeapRb::new`: an empty ring with exactly
/// `capacity` slots (it panics on zero, which `requires` leaves out).
#[verifier::external_body]
fn heap_ring_new(capacity: usize) -> (r: HeapRing)
    requires
        capacity > 0,
    ensures
        ring_items(r) == Seq::<u32>::empty(),
        ring_bound(r) == capacity as nat,
{
    HeapRing { rb: ringbuf::HeapRb::new(capacity) }
}

/// Relies on ringbuf's `Producer::try_push`: the item is appended unless
/// the ring is full, in which case the ring is left as it was.
#[verifier::external_body]
fn heap_ring_push(r: &mut HeapRing, x: u32) -> (ok: bool)
    ensures
        ring_bound(*final(r)) == ring_bound(*old(r)),
        ok == (ring_items(*old(r)).len() < ring_bound(*old(r))),
        ok ==> ring_items(*final(r)) == ring_items(*old(r)).push(x),
        !ok ==> ring_items(*final(r)) == ring_items(*old(r)),
{
    r.rb.try_push(x).is_ok()
}

/// Relies on ringbuf's `Consumer::try_pop`: the eldest item is removed and
/// returned, or `None` when the ring is empty.
#[verifier::external_body]
fn heap_ring_pop(r: &mut HeapRing) -> (x: Option<u32>)
    ensures
        ring_bound(*final(r)) == ring_bound(*old(r)),
        ring_items(*old(r)).len() == 0 ==> x is None && ring_items(*final(r)) == ring_items(*old(r)),
        ring_items(*old(r)).len() > 0 ==> x == Some(ring_items(*old(r))[0])
            && ring_items(*final(r)) == ring_items(*old(r)).drop_first(),
{
    r.rb.try_pop()
}

/// Relies on ringbuf's `Observer::capacity`: the number of slots.
#[verifier::external_body]
fn heap_ring_capacity(r: &HeapRing) -> (n: usize)
    ensures
        n == ring_bound(*r),
{
    r.rb.capacity().get()
}

/// Relies on ringbuf's `Observer::occupied_len`: the number of items held.
#[verifier::external_body]
fn heap_ring_len(r: &HeapRing) -> (n: usize)
    ensures
        n == ring_items(*r).len(),
{
    r.rb.occupied_len()
}

/// Every this many dropped samples an overflow report is due.
pub const OVERFLOW_REPORT_INTERVAL: u64 = 10000;

/// `count + n`, held at `u64::MAX`.
pub open spec fn saturated_sum(count: u64, n: u64) -> u64 {
    if count as int + n as int > u64::MAX as int {
        u64::MAX
    } else {
        (count + n) as u64
    }
}

/// The latest multiple of the report interval that the drop count passed
/// when it went from `before` to `after`, if it passed one.
pub open spec fn report_point(before: u64, after: u64) -> Option<u64> {
    if after / OVERFLOW_REPORT_INTERVAL > before / OVERFLOW_REPORT_INTERVAL {
        Some(((after / OVERFLOW_REPORT_INTERVAL) * OVERFLOW_REPORT_INTERVAL) as u64)
    } else {
        None
    }
}

/// Count of samples dropped because the queue was full.
pub struct OverflowCounter {
    pub count: u64,
}

impl OverflowCounter {
    pub fn new() -> (r: OverflowCounter)
        ensures
            r.count == 0,
    {
        OverflowCounter { count: 0 }
    }

    /// Adds `dropped` to the count and says which report, if any, is due.
    pub fn record(&mut self, dropped: u64) -> (report: Option<u64>)
        ensures
            final(self).count == saturated_sum(old(self).count, dropped),
            report == report_point(old(self).count, final(self).count),
    {
        let before = self.count;
        self.count = before.saturating_add(dropped);
        let after = self.count;
        if after / OVERFLOW_REPORT_INTERVAL > before / OVERFLOW_REPORT_INTERVAL {
            Some((after / OVERFLOW_REPORT_INTERVAL) * OVERFLOW_REPORT_INTERVAL)
        } else {
            None
        }
    }
}

/// What one batch of pushes did.
pub struct PushOutcome {
    /// Samples that went into the queue.
    pub pushed: usize,
    /// Samples that were dropped because the queue was full.
    pub dropped: usize,
    /// The overflow report that is due, if any (see `report_point`).
    pub report: Option<u64>,
}

/// How many of `n` offered samples fit beside `len` held ones under `bound`.
pub open spec fn admitted(len: nat, bound: nat, n: nat) -> nat {
    if len >= bound {
        0
    } else if n <= bound - len {
        n
    } else {
        (bound - len) as nat
    }
}

/// The contents after offering `samples`, in order, to a queue that holds
/// `items` and has room for `bound`: those that fit are appended, the rest
/// are dropped.
pub open spec fn after_push(items: Seq<u32>, bound: nat, samples: Seq<u32>) -> Seq<u32> {
    items + samples.take(admitted(items.len(), bound, samples.len()) as int)
}

/// How many samples a read of at most `max` takes from `items`.
pub open spec fn read_count(items: Seq<u32>, max: nat) -> nat {
    if max <= items.len() {
        max
    } else {
        items.len()
    }
}

/// The samples of an offer log that were accepted, in order.
pub open spec fn kept(offers: Seq<(u32, bool)>) -> Seq<u32>
    decreases offers.len(),
{
    if offers.len() == 0 {
        Seq::empty()
    } else if offers.last().1 {
        kept(offers.drop_last()).push(offers.last().0)
    } else {
        kept(offers.drop_last())
    }
}

/// The log of offering `samples` when the first `n` of them are accepted.
pub open spec fn offer_log(samples: Seq<u32>, n: nat) -> Seq<(u32, bool)> {
    Seq::new(samples.len(), |j: int| (samples[j], j < n))
}

/// The single-producer/single-consumer sample queue. Besides its contents
/// it keeps, as ghost state, every sample it accepted and every sample it
/// handed out, in order.
pub struct RingTransfer {
    store: HeapRing,
    overflow: OverflowCounter,
    accepted: Ghost<Seq<u32>>,
    offers: Ghost<Seq<(u32, bool)>>,
    delivered: Ghost<Seq<u32>>,
}

impl View for RingTransfer {
    type V = Seq<u32>;

    closed spec fn view(&self) -> Seq<u32> {
        ring_items(self.store)
    }
}

/// Seconds of audio at the target rate that the capture queue holds.
pub const BUFFER_SECONDS: u32 = 30;

impl RingTransfer {
    /// The number of samples the queue can hold.
    pub closed spec fn capacity_spec(&self) -> nat {
        ring_bound(self.store)
    }

    /// Every sample that was accepted, oldest first.
    pub closed spec fn accepted_spec(&self) -> Seq<u32> {
        self.accepted@
    }

    /// Every sample offered, oldest first, with whether it was accepted.
    pub closed spec fn offers_spec(&self) -> Seq<(u32, bool)> {
        self.offers@
    }

    /// Every sample that was handed out, oldest first.
    pub closed spec fn delivered_spec(&self) -> Seq<u32> {
        self.delivered@
    }

    /// Samples dropped so far because the queue was full.
    pub closed spec fn overflow_spec(&self) -> u64 {
        self.overflow.count
    }

    pub closed spec fn wf(&self) -> bool {
        &&& self.capacity_spec() > 0
        &&& self@.len() <= self.capacity_spec()
        &&& self.delivered@ + self@ == self.accepted@
        &&& kept(self.offers@) == self.accepted@
    }

    /// An empty queue with room for `capacity` samples.
    pub fn new(capacity: usize) -> (r: RingTransfer)
        requires
            capacity > 0,
        ensures
            r.wf(),
            r@ == Seq::<u32>::empty(),
            r.capacity_spec() == capacity,
            r.accepted_spec() == Seq::<u32>::empty(),
            r.offers_spec() == Seq::<(u32, bool)>::empty(),
            r.delivered_spec() == Seq::<u32>::empty(),
            r.overflow_spec() == 0,
    {
        let store = heap_ring_new(capacity);
        let r = RingTransfer {
            store,
            overflow: OverflowCounter::new(),
            accepted: Ghost(Seq::empty()),
            offers: Ghost(Seq::empty()),
            delivered: Ghost(Seq::empty()),
        };
        assert(r.delivered@ + r@ =~= r.accepted@);
        r
    }

    /// An empty queue sized for `BUFFER_SECONDS` of audio at `target_rate`.
    pub fn for_sample_rate(target_rate: u32) -> (r: RingTransfer)
        requires
            target_rate > 0,
            target_rate as int * BUFFER_SECONDS as int <= usize::MAX as int,
        ensures
            r.wf(),
            r@ == Seq::<u32>::empty(),
            r.capacity_spec() == target_rate as int * BUFFER_SECONDS as int,
            r.accepted_spec() == Seq::<u32>::empty(),
            r.offers_spec() == Seq::<(u32, bool)>::empty(),
            r.delivered_spec() == Seq::<u32>::empty(),
            r.overflow_spec() == 0,
    {
        let capacity = (target_rate as usize) * (BUFFER_SECONDS as usize);
        RingTransfer::new(capacity)
    }

    pub fn capacity(&self) -> (n: usize)
        requires
            self.wf(),
        ensures
            n == self.capacity_spec(),
    {
        heap_ring_capacity(&self.store)
    }

    /// The number of samples waiting to be read.
    pub fn len(&self) -> (n: usize)
        requires
            self.wf(),
        ensures
            n == self@.len(),
    {
        heap_ring_len(&self.store)
    }

    pub fn is_empty(&self) -> (b: bool)
        requires
            self.wf(),
        ensures
            b == (self@.len() == 0),
    {
        self.len() == 0
    }

    pub fn overflow_count(&self) -> (n: u64)
        ensures
            n == self.overflow_spec(),
    {
        self.overflow.count
    }

    /// Appends one sample; when the queue is full the sample is dropped
    /// and counted, and `false` comes back.
    pub fn try_push(&mut self, sample: u32) -> (ok: bool)
        requires
            old(self).wf(),
        ensures
            final(self).wf(),
            final(self).capacity_spec() == old(self).capacity_spec(),
            final(self).delivered_spec() == old(self).delivered_spec(),
            ok == (old(self)@.len() < old(self).capacity_spec()),
            final(self).offers_spec() == old(self).offers_spec().push((sample, ok)),
            ok ==> final(self)@ == old(self)@.push(sample)
                && final(self).accepted_spec() == old(self).accepted_spec().push(sample)
                && final(self).overflow_spec() == old(self).overflow_spec(),
            !ok ==> final(self)@ == old(self)@
                && final(self).accepted_spec() == old(self).accepted_spec()
                && final(self).overflow_spec() == saturated_sum(old(self).overflow_spec(), 1),
    {
        let ok = heap_ring_push(&mut self.store, sample);
        let ghost prev_offers = self.offers@;
        self.offers = Ghost(self.offers@.push((sample, ok)));
        assert(self.offers@.drop_last() =~= prev_offers);
        if ok {
            self.accepted = Ghost(self.accepted@.push(sample));
            assert(self.delivered@ + self@ =~= self.accepted@);
        } else {
            self.overflow.record(1);
        }
        ok
    }

    /// Removes and returns the eldest sample, or `None` when empty.
    pub fn try_pop(&mut self) -> (x: Option<u32>)
        requires
            old(self).wf(),
        ensures
            final(self).wf(),
            final(self).capacity_spec() == old(self).capacity_spec(),
            final(self).accepted_spec() == old(self).accepted_spec(),
            final(self).offers_spec() == old(self).offers_spec(),
            final(self).overflow_spec() == old(self).overflow_spec(),
            old(self)@.len() == 0 ==> x is None && final(self)@ == old(self)@
                && final(self).delivered_spec() == old(self).delivered_spec(),
            old(self)@.len() > 0 ==> x == Some(old(self)@[0])
                && final(self)@ == old(self)@.drop_first()
                && final(self).delivered_spec() == old(self).delivered_spec().push(old(self)@[0]),
    {
        let x = heap_ring_pop(&mut self.store);
        match x {
            Some(v) => {
                let ghost prev = self.delivered@;
                self.delivered = Ghost(self.delivered@.push(v));
                assert(self.delivered@ + self@ =~= prev + old(self)@);
            },
            None => {},
        }
        x
    }
    /// Offers `samples` in order: those that fit are appended, the rest
    /// are dropped and counted.
    pub fn push_samples(&mut self, samples: &[u32]) -> (out: PushOutcome)
        requires
            old(self).wf(),
        ensures
            final(self).wf(),
            final(self).capacity_spec() == old(self).capacity_spec(),
            final(self).delivered_spec() == old(self).delivered_spec(),
            out.pushed == admitted(old(self)@.len(), old(self).capacity_spec(), samples@.len()),
            out.pushed + out.dropped == samples@.len(),
            final(self)@ == after_push(old(self)@, old(self).capacity_spec(), samples@),
            final(self).accepted_spec() == old(self).accepted_spec()
                + samples@.take(out.pushed as int),
            final(self).offers_spec() == old(self).offers_spec() + offer_log(samples@, out.pushed as nat),
            final(self).overflow_spec() == saturated_sum(old(self).overflow_spec(), out.dropped as u64),
            out.report == report_point(old(self).overflow_spec(), final(self).overflow_spec()),
    {
        let ghost start = self@;
        let ghost start_accepted = self.accepted@;
        let mut pushed: usize = 0;
        let mut i: usize = 0;
        while i < samples.len()
            invariant
                self.wf(),
                self.capacity_spec() == old(self).capacity_spec(),
                self.delivered@ == old(self).delivered@,
                self.overflow == old(self).overflow,
                start == old(self)@,
                start_accepted == old(self).accepted@,
                i <= samples@.len(),
                pushed == admitted(start.len(), self.capacity_spec(), i as nat),
                self@ == start + samples@.take(pushed as int),
                self.accepted@ == start_accepted + samples@.take(pushed as int),
                pushed <= i,
                self.offers@ == old(self).offers@ + offer_log(samples@.take(i as int), pushed as nat),
            decreases samples@.len() - i,
        {
            let x = samples[i];
            let ok = heap_ring_push(&mut self.store, x);
            let ghost prev_offers = self.offers@;
            self.offers = Ghost(self.offers@.push((x, ok)));
            assert(self.offers@.drop_last() =~= prev_offers);
            if ok {
                let ghost prev = self.accepted@;
                self.accepted = Ghost(self.accepted@.push(x));
                assert(samples@.take(pushed as int + 1) =~= samples@.take(pushed as int).push(x)) by {
                    assert(pushed <= i);
                    assert(pushed == i);
                }
                pushed = pushed + 1;
                assert(self.delivered@ + self@ =~= self.accepted@);
            }
            i = i + 1;
            assert(self.offers@ =~= old(self).offers@ + offer_log(samples@.take(i as int), pushed as nat));
        }
        assert(samples@.take(samples@.len() as int) =~= samples@);
        let dropped = samples.len() - pushed;
        let report = self.overflow.record(dropped as u64);
        PushOutcome { pushed, dropped, report }
    }

    /// Takes up to `max_samples` of the eldest samples, oldest first;
    /// fewer when fewer are there. Never waits.
    pub fn read_audio(&mut self, max_samples: usize) -> (r: Vec<u32>)
        requires
            old(self).wf(),
        ensures
            final(self).wf(),
            final(self).capacity_spec() == old(self).capacity_spec(),
            final(self).accepted_spec() == old(self).accepted_spec(),
            final(self).offers_spec() == old(self).offers_spec(),
            final(self).overflow_spec() == old(self).overflow_spec(),
            r@ == old(self)@.take(read_count(old(self)@, max_samples as nat) as int),
            final(self)@ == old(self)@.skip(read_count(old(self)@, max_samples as nat) as int),
            final(self).delivered_spec() == old(self).delivered_spec() + r@,
    {
        let mut samples: Vec<u32> = Vec::new();
        while samples.len() < max_samples
            invariant
                self.wf(),
                self.capacity_spec() == old(self).capacity_spec(),
                self.accepted@ == old(self).accepted@,
                self.offers@ == old(self).offers@,
                self.overflow == old(self).overflow,
                samples@.len() <= max_samples,
                samples@.len() <= old(self)@.len(),
                samples@ == old(self)@.take(samples@.len() as int),
                self@ == old(self)@.skip(samples@.len() as int),
                self.delivered@ == old(self).delivered@ + samples@,
            ensures
                samples@.len() == read_count(old(self)@, max_samples as nat),
                samples@ == old(self)@.take(samples@.len() as int),
                self@ == old(self)@.skip(samples@.len() as int),
            decreases max_samples - samples@.len(),
        {
            match self.try_pop() {
                Some(x) => {
                    let ghost n = samples@.len();
                    samples.push(x);
                    assert(samples@ =~= old(self)@.take(n as int + 1));
                    assert(self@ =~= old(self)@.skip(n as int + 1));
                },
                None => {
                    assert(samples@.len() == old(self)@.len());
                    break;
                },
            }
        }
        samples
    }

    /// Drains what is waiting, `chunk` samples per read, until a read
    /// comes back empty or `limit` samples have been taken: the eldest
    /// samples, oldest first.
    pub fn drain(&mut self, chunk: usize, limit: usize) -> (r: Vec<u32>)
        requires
            old(self).wf(),
            chunk > 0,
        ensures
            final(self).wf(),
            final(self).capacity_spec() == old(self).capacity_spec(),
            final(self).accepted_spec() == old(self).accepted_spec(),
            final(self).offers_spec() == old(self).offers_spec(),
            final(self).overflow_spec() == old(self).overflow_spec(),
            r@ == old(self)@.take(read_count(old(self)@, limit as nat) as int),
            final(self)@ == old(self)@.skip(read_count(old(self)@, limit as nat) as int),
            final(self).delivered_spec() == old(self).delivered_spec() + r@,
    {
        let mut all: Vec<u32> = Vec::new();
        while all.len() < limit
            invariant
                self.wf(),
                chunk > 0,
                self.capacity_spec() == old(self).capacity_spec(),
                self.accepted_spec() == old(self).accepted_spec(),
                self.offers_spec() == old(self).offers_spec(),
                self.overflow_spec() == old(self).overflow_spec(),
                all@.len() <= limit,
                all@.len() <= old(self)@.len(),
                all@ == old(self)@.take(all@.len() as int),
                self@ == old(self)@.skip(all@.len() as int),
                self.delivered_spec() == old(self).delivered_spec() + all@,
            ensures
                all@.len() == read_count(old(self)@, limit as nat),
                all@ == old(self)@.take(all@.len() as int),
                self@ == old(self)@.skip(all@.len() as int),
            decreases limit - all@.len(),
        {
            let room = limit - all.len();
            let want = if chunk < room {
                chunk
            } else {
                room
            };
            let ghost before = self@;
            let ghost base = all@;
            let part = self.read_audio(want);
            if part.len() == 0 {
                assert(before.len() == 0);
                break;
            }
            let mut i: usize = 0;
            while i < part.len()
                invariant
                    i <= part@.len(),
                    all@ == base + part@.take(i as int),
                decreases part@.len() - i,
            {
                all.push(part[i]);
                i = i + 1;
                assert(part@.take(i as int) =~= part@.take(i - 1).push(part@[i - 1]));
            }
            assert(part@.take(part@.len() as int) =~= part@);
            assert(all@ =~= old(self)@.take(all@.len() as int));
            assert(self@ =~= old(self)@.skip(all@.len() as int));
            assert(old(self).delivered_spec() + all@ =~= old(self).delivered_spec() + base + part@);
        }
        all
    }
}

} // verus!

verus! {

/// No sample is duplicated or reordered, and no more are read than were
/// accepted: whatever sequence of pushes, pops, reads and drains was made
/// on the queue, the samples handed out followed by those still waiting
/// are exactly the samples accepted, in order; and the accepted samples are
/// the offered ones, in order, less those that found the queue full.
pub proof fn lemma_transfer_is_fifo(r: &RingTransfer)
    requires
        r.wf(),
    ensures
        r.delivered_spec() + r@ == r.accepted_spec(),
        r.accepted_spec() == kept(r.offers_spec()),
        r.delivered_spec().len() <= r.accepted_spec().len(),
        r.delivered_spec() == r.accepted_spec().take(r.delivered_spec().len() as int),
{
    assert(r.delivered_spec() =~= r.accepted_spec().take(r.delivered_spec().len() as int));
}

/// Samples pushed into an empty queue and then read with a large enough
/// limit come back bit for bit, apart from those dropped for want of room:
/// the read returns exactly the accepted prefix of what was offered.
pub proof fn lemma_pass_through(bound: nat, samples: Seq<u32>, max: nat)
    requires
        bound > 0,
        max >= admitted(0, bound, samples.len()),
    ensures
        ({
            let held = after_push(Seq::<u32>::empty(), bound, samples);
            held.take(read_count(held, max) as int) == samples.take(
                admitted(0, bound, samples.len()) as int,
            )
        }),
        samples.len() <= bound ==> after_push(Seq::<u32>::empty(), bound, samples) == samples,
{
    let held = after_push(Seq::<u32>::empty(), bound, samples);
    assert(held =~= samples.take(admitted(0, bound, samples.len()) as int));
    assert(held.take(read_count(held, max) as int) =~= held);
    if samples.len() <= bound {
        assert(samples.take(samples.len() as int) =~= samples);
    }
}

/// Offering more samples than an empty queue can hold leaves it exactly
/// full, and the excess is counted as dropped.
pub proof fn lemma_overflow_fills_to_capacity(bound: nat, samples: Seq<u32>)
    requires
        bound > 0,
        samples.len() > bound,
        samples.len() <= u64::MAX,
    ensures
        after_push(Seq::<u32>::empty(), bound, samples).len() == bound,
        admitted(0, bound, samples.len()) == bound,
        samples.len() - admitted(0, bound, samples.len()) > 0,
        saturated_sum(0, (samples.len() - admitted(0, bound, samples.len())) as u64) > 0,
{
}

} // verus!
