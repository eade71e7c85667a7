use recorder::errors::ErrorCode;
use recorder::errors::ErrorEmitter;
use recorder::events::Message;
use recorder::message::MessageEvent;
use recorder::record::RecordChannel;
use recorder::record::RecordEvent;
use recorder::utils::get_current_timestamp;

#[test]
fn error_codes_carry_their_names_and_values() {
    let cases = [
        (ErrorCode::ConfigError, 0u8, "CONFIG_ERROR"),
        (ErrorCode::ConnectionError, 10, "CONNECTION_ERROR"),
        (ErrorCode::NotConnected, 11, "NOT_CONNECTED"),
        (ErrorCode::StreamError, 20, "STREAM_ERROR"),
        (ErrorCode::WriteError, 21, "WRITE_ERROR"),
        (ErrorCode::ReadError, 22, "READ_ERROR"),
        (ErrorCode::AppHandleNotInitialized, 30, "APP_HANDLE_NOT_INITIALIZED"),
    ];
    for (code, value, name) in cases {
        assert_eq!(code.code(), value);
        assert_eq!(code.as_str(), name);
    }
}

#[test]
fn emit_error_appends_one_message() {
    let mut log: Vec<Message> = Vec::new();
    ErrorEmitter::emit_error(ErrorCode::StreamError, "stream gone".to_string(), 777, &mut log);
    assert_eq!(log.len(), 1);
    match &log[0] {
        Message::Error { code, code_str, message, timestamp } => {
            assert_eq!(*code, 20);
            assert_eq!(code_str, "STREAM_ERROR");
            assert_eq!(message, "stream gone");
            assert_eq!(*timestamp, 777);
        },
    }
}

#[test]
fn message_event_renders_its_code_in_decimal() {
    let m = MessageEvent::error(21, "cannot write");
    match &m {
        MessageEvent::Error { code, code_str, message, .. } => {
            assert_eq!(*code, 21);
            assert_eq!(code_str, "21");
            assert_eq!(message, "cannot write");
        },
    }
    let mut sink: Vec<MessageEvent> = Vec::new();
    m.send(&mut sink);
    m.send(&mut sink);
    assert_eq!(sink.len(), 2);
}

#[test]
fn record_events_carry_their_payload() {
    assert!(matches!(RecordEvent::start(), RecordEvent::Start { .. }));
    assert!(matches!(RecordEvent::stop(), RecordEvent::Stop { .. }));
    match RecordEvent::progress(42) {
        RecordEvent::Progress { peak, .. } => assert_eq!(peak, 42),
        _ => panic!("expected a progress event"),
    }
}

#[test]
fn sends_without_a_channel_are_dropped() {
    let mut nothing: Option<RecordChannel> = None;
    RecordEvent::start().send(&mut nothing);
    assert!(nothing.is_none());
    let mut attached = Some(RecordChannel::new());
    RecordEvent::start().send(&mut attached);
    RecordEvent::progress(7).send(&mut attached);
    let sent = &attached.as_ref().unwrap().sent;
    assert_eq!(sent.len(), 2);
    assert!(matches!(sent[0], RecordEvent::Start { .. }));
    assert!(matches!(sent[1], RecordEvent::Progress { peak: 7, .. }));
}

#[test]
fn clock_reads_after_the_epoch() {
    let t = get_current_timestamp();
    // sometime after 2020-01-01 in milliseconds
    assert!(t > 1_577_836_800_000);
    let later = get_current_timestamp();
    assert!(later >= t);
}
