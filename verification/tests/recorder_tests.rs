use recorder::device::get_device_hash;
use recorder::record::RecordChannel;
use recorder::record::RecordEvent;
use recorder::recorder::Recorder;
use recorder::errors::RecorderError;
use recorder::session::InputDevice;
use recorder::session::SampleFormat;
use recorder::wav::AudioFileWriter;
use recorder::wav::WavEvent;
use recorder::wav::WavEventSlot;
use recorder::wav::run_wav_consumer;
use recorder::watchdog::Watchdog;
use recorder::watchdog::WatchdogAction;

fn one_device() -> Vec<InputDevice> {
    vec![InputDevice {
        name: "Default Mic".to_string(),
        format: SampleFormat::I16,
        sample_rate: 48000,
    }]
}

fn count_stops(channel: &Option<RecordChannel>) -> usize {
    channel
        .as_ref()
        .unwrap()
        .sent
        .iter()
        .filter(|e| matches!(e, RecordEvent::Stop { .. }))
        .count()
}

#[test]
fn starting_while_active_returns_already_recording() {
    // Exclusivity: a second start always refuses, however it selects.
    let mut rec = Recorder::new();
    let devices = one_device();
    let mut channel = Some(RecordChannel::new());
    rec.start("", &devices, Some(0), &mut channel).unwrap();
    let again = rec.start("", &devices, Some(0), &mut channel);
    assert_eq!(again.unwrap_err(), RecorderError::AlreadyRecording);
    let by_id = get_device_hash("Default Mic");
    let again2 = rec.start(by_id.as_str(), &devices, Some(0), &mut channel);
    assert_eq!(again2.unwrap_err(), RecorderError::AlreadyRecording);
    // only the one successful start notified
    let starts = channel
        .as_ref()
        .unwrap()
        .sent
        .iter()
        .filter(|e| matches!(e, RecordEvent::Start { .. }))
        .count();
    assert_eq!(starts, 1);
}

#[test]
fn unknown_selector_is_device_not_found() {
    let mut rec = Recorder::new();
    let mut channel = Some(RecordChannel::new());
    let r = rec.start("feedbeef", &one_device(), Some(0), &mut channel);
    assert_eq!(r.unwrap_err(), RecorderError::DeviceNotFound);
    // and the refusal left the engine idle: a later start succeeds
    assert!(rec.start("", &one_device(), Some(0), &mut channel).is_ok());
}

#[test]
fn empty_selector_without_default_is_device_not_found() {
    let mut rec = Recorder::new();
    let mut channel = Some(RecordChannel::new());
    let r = rec.start("", &one_device(), None, &mut channel);
    assert_eq!(r.unwrap_err(), RecorderError::DeviceNotFound);
}

#[test]
fn unsupported_format_is_device_config_error() {
    let mut rec = Recorder::new();
    let mut channel = Some(RecordChannel::new());
    let devices = vec![InputDevice {
        name: "Odd".to_string(),
        format: SampleFormat::Other,
        sample_rate: 48000,
    }];
    let r = rec.start("", &devices, Some(0), &mut channel);
    assert_eq!(r.unwrap_err(), RecorderError::DeviceConfigError);
    assert!(channel.as_ref().unwrap().sent.is_empty());
}

#[test]
fn normal_cycle_persists_all_samples_in_order() {
    // start with the default device; publish three chunks; stop; the
    // persisted body holds the nine samples in order and a completion
    // fires.
    let mut rec = Recorder::new();
    let mut channel = Some(RecordChannel::new());
    let info = rec.start("", &one_device(), Some(0), &mut channel).unwrap();
    assert_eq!(info.session_id.len(), 36);
    assert_eq!(info.sample_rate, 48000);
    rec.publish_chunk(vec![1, -1, 2]);
    rec.publish_chunk(vec![0, 0, 0]);
    rec.publish_chunk(vec![5, -5, 3]);
    let (transcript, drained) = rec.stop(&mut channel);
    assert_eq!(transcript, "");
    let mut bus = drained.unwrap();
    let mut writer = AudioFileWriter::create(info.session_id.clone(), info.sample_rate, 42);
    assert!(run_wav_consumer(&mut bus, info.wav_sub, &mut writer));
    let mut slot = WavEventSlot::new();
    let f = writer.finalize(&mut slot);
    assert_eq!(f.body, vec![1, -1, 2, 0, 0, 0, 5, -5, 3]);
    match slot.observe() {
        WavEvent::RecordingComplete { id, .. } => assert_eq!(id, info.session_id),
        _ => panic!("expected a completion announcement"),
    }
    // lifecycle notifications: one start, one stop
    let sent = &channel.as_ref().unwrap().sent;
    assert_eq!(sent.len(), 2);
    assert!(matches!(sent[0], RecordEvent::Start { .. }));
    assert!(matches!(sent[1], RecordEvent::Stop { .. }));
}

#[test]
fn chunks_after_stop_are_dropped() {
    let mut rec = Recorder::new();
    let mut channel = Some(RecordChannel::new());
    let info = rec.start("", &one_device(), Some(0), &mut channel).unwrap();
    rec.publish_chunk(vec![1]);
    let (_, drained) = rec.stop(&mut channel);
    // the callback may still fire after stop; nothing blocks or panics
    rec.publish_chunk(vec![2]);
    let mut bus = drained.unwrap();
    let mut writer = AudioFileWriter::create("s".to_string(), 48000, 0);
    assert!(run_wav_consumer(&mut bus, info.wav_sub, &mut writer));
    let mut slot = WavEventSlot::new();
    assert_eq!(writer.finalize(&mut slot).body, vec![1]);
}

#[test]
fn stop_is_idempotent_and_yields_the_transcript_once() {
    let mut rec = Recorder::new();
    let mut channel = Some(RecordChannel::new());
    rec.start("", &one_device(), Some(0), &mut channel).unwrap();
    // a transcript accumulated on a live connection
    {
        let s = rec.streamer_mut();
        s.initialize();
        let mut log = Vec::new();
        s.on_connect_result(true, 0, &mut log);
        s.on_line("spoken words");
    }
    let (first, drained) = rec.stop(&mut channel);
    assert_eq!(first, "spoken words\n");
    assert!(drained.is_some());
    // the second stop — user and watchdog racing — still succeeds, with
    // nothing left to return and no second notification
    let (second, none) = rec.stop(&mut channel);
    assert_eq!(second, "");
    assert!(none.is_none());
    assert_eq!(count_stops(&channel), 1);
}

#[test]
fn watchdog_cutoff_closes_the_session_exactly_once() {
    // max duration of two time units; nobody calls stop
    let mut rec = Recorder::new();
    let mut channel = Some(RecordChannel::new());
    rec.start("", &one_device(), Some(0), &mut channel).unwrap();
    let mut dog = Watchdog::new(2);
    let mut force_stops: u32 = 0;
    loop {
        match dog.tick(rec.is_active()) {
            WatchdogAction::Sleep => {},
            WatchdogAction::ForceStop => {
                force_stops += 1;
                let (t, _) = rec.stop(&mut channel);
                assert_eq!(t, "");
                break;
            },
            WatchdogAction::Exit => panic!("session should still be active"),
        }
    }
    assert_eq!(force_stops, 1);
    assert!(!rec.is_active());
    assert_eq!(count_stops(&channel), 1);
    // the next poll after the stop ends the watchdog silently
    assert!(matches!(dog.tick(rec.is_active()), WatchdogAction::Exit));
}

#[test]
fn watchdog_exits_when_user_stops_first() {
    let mut rec = Recorder::new();
    let mut channel = Some(RecordChannel::new());
    rec.start("", &one_device(), Some(0), &mut channel).unwrap();
    let mut dog = Watchdog::new(100);
    assert!(matches!(dog.tick(rec.is_active()), WatchdogAction::Sleep));
    rec.stop(&mut channel);
    assert!(matches!(dog.tick(rec.is_active()), WatchdogAction::Exit));
    assert_eq!(count_stops(&channel), 1);
}
