use recorder::peaks::Meter;
use recorder::peaks::THROTTLE_MS;
use recorder::peaks::chunk_peak;

#[test]
fn peak_of_mixed_chunk() {
    assert_eq!(chunk_peak(&vec![1, -1, 2]), 2);
    assert_eq!(chunk_peak(&vec![5, -5, 3]), 5);
    assert_eq!(chunk_peak(&vec![3, -7, 2]), 7);
}

#[test]
fn peak_of_silence_and_empty() {
    assert_eq!(chunk_peak(&vec![0, 0, 0]), 0);
    assert_eq!(chunk_peak(&Vec::new()), 0);
}

#[test]
fn peak_clamps_most_negative_sample() {
    assert_eq!(chunk_peak(&vec![-128]), 127);
    assert_eq!(chunk_peak(&vec![-128, 100]), 127);
    assert_eq!(chunk_peak(&vec![127]), 127);
}

#[test]
fn meter_emits_at_most_once_per_interval() {
    // Chunks every millisecond, far faster than the 10 ms throttle.
    let mut meter = Meter::new(THROTTLE_MS, 0);
    let mut emitted: u64 = 0;
    for t in 1..=50u64 {
        if meter.on_chunk(&vec![t as i8], t).is_some() {
            emitted += 1;
        }
    }
    // emissions land at 10, 20, 30, 40 and 50
    assert_eq!(emitted, 5);
    assert!(emitted <= 1000 / THROTTLE_MS);
}

#[test]
fn meter_coalesces_within_window_and_reports_latest_peak() {
    let mut meter = Meter::new(THROTTLE_MS, 0);
    assert_eq!(meter.on_chunk(&vec![9], 3), None);
    assert_eq!(meter.on_chunk(&vec![4], 7), None);
    // the first chunk past the interval carries its own peak
    assert_eq!(meter.on_chunk(&vec![6, -8], 12), Some(8));
    // and the window restarts from the emission
    assert_eq!(meter.on_chunk(&vec![5], 19), None);
    assert_eq!(meter.on_chunk(&vec![5], 22), Some(5));
}

#[test]
fn meter_with_slow_chunks_emits_every_time() {
    let mut meter = Meter::new(THROTTLE_MS, 100);
    assert_eq!(meter.on_chunk(&vec![1], 150), Some(1));
    assert_eq!(meter.on_chunk(&vec![2], 200), Some(2));
    assert_eq!(meter.on_chunk(&vec![3], 250), Some(3));
}
