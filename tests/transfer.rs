use voicy::capture::{needs_resampling, InputChunker, RESAMPLER_CHUNK};
use voicy::ring::{OverflowCounter, RingTransfer};

fn bits(v: &[f32]) -> Vec<u32> {
    v.iter().map(|x| x.to_bits()).collect()
}

#[test]
fn same_rate_capture_returns_what_was_pushed() {
    assert!(!needs_resampling(16000, 16000));
    let mut ring = RingTransfer::for_sample_rate(16000);
    let samples = bits(&vec![0.5f32; 16000]);
    let out = ring.push_samples(&samples);
    assert_eq!(out.pushed, 16000);
    assert_eq!(out.dropped, 0);
    let read = ring.read_audio(20000);
    assert_eq!(read.len(), 16000);
    assert!(read.iter().all(|b| f32::from_bits(*b) == 0.5));
    assert!(ring.is_empty());
}

#[test]
fn overflow_keeps_capacity_and_counts_drops() {
    let mut ring = RingTransfer::for_sample_rate(16000);
    assert_eq!(ring.capacity(), 480000);
    let samples = bits(&vec![0.25f32; 481000]);
    let out = ring.push_samples(&samples);
    assert_eq!(out.pushed, 480000);
    assert_eq!(out.dropped, 1000);
    assert!(ring.overflow_count() > 0);
    let mut drained = Vec::new();
    loop {
        let chunk = ring.read_audio(8000);
        if chunk.is_empty() {
            break;
        }
        drained.extend_from_slice(&chunk);
    }
    assert_eq!(drained.len(), 480000);
}

#[test]
fn pass_through_is_bit_identical() {
    let values = [0.0f32, -0.0, 1.0, -1.0, f32::MIN_POSITIVE, 0.123456, f32::NAN, -3.5];
    let samples = bits(&values);
    let mut ring = RingTransfer::new(64);
    ring.push_samples(&samples);
    let read = ring.read_audio(100);
    assert_eq!(read, samples);
}

#[test]
fn interleaved_push_pop_keeps_order_without_duplicates() {
    let mut ring = RingTransfer::new(3);
    let mut accepted = Vec::new();
    let mut delivered = Vec::new();
    for i in 0u32..20 {
        if ring.try_push(i) {
            accepted.push(i);
        }
        if i % 3 == 0 {
            if let Some(x) = ring.try_pop() {
                delivered.push(x);
            }
        }
    }
    while let Some(x) = ring.try_pop() {
        delivered.push(x);
    }
    assert_eq!(delivered, accepted);
    assert!(ring.overflow_count() > 0);
    assert_eq!(ring.try_pop(), None);
}

#[test]
fn try_push_refuses_when_full() {
    let mut ring = RingTransfer::new(2);
    assert!(ring.try_push(7));
    assert!(ring.try_push(8));
    assert!(!ring.try_push(9));
    assert_eq!(ring.len(), 2);
    assert_eq!(ring.overflow_count(), 1);
    assert_eq!(ring.read_audio(1), vec![7]);
    assert_eq!(ring.read_audio(5), vec![8]);
    assert_eq!(ring.read_audio(5), Vec::<u32>::new());
}

#[test]
fn overflow_reports_at_each_ten_thousand() {
    let mut c = OverflowCounter::new();
    assert_eq!(c.record(9999), None);
    assert_eq!(c.record(1), Some(10000));
    assert_eq!(c.record(25000), Some(30000));
    assert_eq!(c.count, 35000);
    assert_eq!(c.record(0), None);
    let mut full = OverflowCounter { count: u64::MAX - 1 };
    full.record(5);
    assert_eq!(full.count, u64::MAX);
}

#[test]
fn drain_returns_queue_in_order_and_empties_it() {
    let mut ring = RingTransfer::new(10);
    ring.push_samples(&[1, 2, 3, 4, 5, 6, 7, 8]);
    assert_eq!(ring.drain(3, 5), vec![1, 2, 3, 4, 5]);
    assert_eq!(ring.len(), 3);
    assert_eq!(ring.drain(3, 100), vec![6, 7, 8]);
    assert!(ring.is_empty());
    assert!(ring.drain(8000, 10).is_empty());
}

#[test]
fn batch_drain_after_overflow_hands_over_first_capacity_samples() {
    let mut ring = RingTransfer::for_sample_rate(16000);
    let pushed: Vec<u32> = (0..481_000u32).collect();
    let out = ring.push_samples(&pushed);
    assert_eq!(out.dropped, 1000);
    assert_eq!(ring.overflow_count(), 1000);
    let cap = ring.capacity();
    let drained = ring.drain(8000, cap);
    assert_eq!(drained, pushed[..480_000].to_vec());
    assert!(ring.is_empty());
}

#[test]
fn resampling_needed_only_when_rates_differ() {
    assert!(needs_resampling(48000, 16000));
    assert!(needs_resampling(16000, 44100));
    assert!(!needs_resampling(44100, 44100));
}

#[test]
fn chunker_emits_whole_blocks_in_order() {
    let mut c = InputChunker::new(RESAMPLER_CHUNK);
    let input: Vec<u32> = (0..2500).collect();
    c.extend(&input[..1000]);
    assert!(c.take_chunk().is_none());
    c.extend(&input[1000..]);
    let first = c.take_chunk().unwrap();
    let second = c.take_chunk().unwrap();
    assert!(c.take_chunk().is_none());
    assert_eq!(first, input[..1024].to_vec());
    assert_eq!(second, input[1024..2048].to_vec());
    c.extend(&input[..0]);
    assert!(c.take_chunk().is_none());
}
