use recorder::bus::AudioBus;
use recorder::wav::AudioFileWriter;
use recorder::wav::CompletionResult;
use recorder::wav::WavEvent;
use recorder::wav::WavEventSlot;
use recorder::wav::listen_for_completion;
use recorder::wav::run_wav_consumer;
use recorder::wav::send_wav_event;

#[test]
fn body_is_ordered_concatenation_of_writes() {
    let mut w = AudioFileWriter::create("abc".to_string(), 48000, 7);
    w.write_samples(&vec![1, -1, 2]);
    w.write_samples(&Vec::new());
    w.write_samples(&vec![0, 0, 0]);
    let mut slot = WavEventSlot::new();
    let f = w.finalize(&mut slot);
    assert_eq!(f.body, vec![1, -1, 2, 0, 0, 0]);
    assert_eq!(f.sample_rate, 48000);
    assert_eq!(f.id, "abc");
}

#[test]
fn path_carries_timestamp_and_id() {
    let w = AudioFileWriter::create("xyz".to_string(), 16000, 1234567890123);
    let mut slot = WavEventSlot::new();
    let f = w.finalize(&mut slot);
    assert_eq!(f.path, "records/1234567890123_xyz.wav");
}

#[test]
fn finalize_announces_completion_in_slot() {
    let w = AudioFileWriter::create("abc".to_string(), 8000, 5);
    let mut slot = WavEventSlot::new();
    assert!(matches!(slot.observe(), WavEvent::NoEvent));
    let f = w.finalize(&mut slot);
    match listen_for_completion(Some(slot.observe())) {
        CompletionResult::Completed { id, path } => {
            assert_eq!(id, "abc");
            assert_eq!(path, f.path);
        },
        _ => panic!("expected a completion"),
    }
}

#[test]
fn listener_maps_announcements() {
    match listen_for_completion(Some(WavEvent::RecordingComplete {
        id: "a".to_string(),
        path: "p".to_string(),
    })) {
        CompletionResult::Completed { id, path } => {
            assert_eq!(id, "a");
            assert_eq!(path, "p");
        },
        _ => panic!("expected a completion"),
    }
    match listen_for_completion(Some(WavEvent::RecordingError {
        id: "a".to_string(),
        error: "boom".to_string(),
    })) {
        CompletionResult::Failed { id, error } => {
            assert_eq!(id, "a");
            assert_eq!(error, "boom");
        },
        _ => panic!("expected a failure report"),
    }
    assert!(matches!(listen_for_completion(None), CompletionResult::NoReport));
    assert!(matches!(
        listen_for_completion(Some(WavEvent::NoEvent)),
        CompletionResult::NoReport
    ));
}

#[test]
fn drain_writes_pending_chunks_in_order() {
    let mut bus = AudioBus::new(16);
    let sub = bus.subscribe();
    bus.publish(vec![1, -1, 2]);
    bus.publish(vec![0, 0, 0]);
    bus.publish(vec![5, -5, 3]);
    let mut w = AudioFileWriter::create("s".to_string(), 48000, 0);
    // producer still live: the drain stops at "pending"
    assert!(!run_wav_consumer(&mut bus, sub, &mut w));
    bus.publish(vec![9]);
    bus.close();
    assert!(run_wav_consumer(&mut bus, sub, &mut w));
    let mut slot = WavEventSlot::new();
    let f = w.finalize(&mut slot);
    assert_eq!(f.body, vec![1, -1, 2, 0, 0, 0, 5, -5, 3, 9]);
}

#[test]
fn drain_after_lag_keeps_surviving_window_in_order() {
    let mut bus = AudioBus::new(2);
    let sub = bus.subscribe();
    for k in 1..=5i8 {
        bus.publish(vec![k]);
    }
    bus.close();
    let mut w = AudioFileWriter::create("s".to_string(), 48000, 0);
    assert!(run_wav_consumer(&mut bus, sub, &mut w));
    let mut slot = WavEventSlot::new();
    let f = w.finalize(&mut slot);
    // the three oldest chunks were dropped for this subscriber
    assert_eq!(f.body, vec![4, 5]);
}

#[test]
fn slot_keeps_most_recent_announcement() {
    let mut slot = WavEventSlot::new();
    send_wav_event(&mut slot, WavEvent::RecordingError {
        id: "a".to_string(),
        error: "older".to_string(),
    });
    send_wav_event(&mut slot, WavEvent::RecordingComplete {
        id: "a".to_string(),
        path: "newer".to_string(),
    });
    match slot.observe() {
        WavEvent::RecordingComplete { id, path } => {
            assert_eq!(id, "a");
            assert_eq!(path, "newer");
        },
        _ => panic!("expected the later announcement"),
    }
}
