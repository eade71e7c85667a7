use recorder::bus::AudioBus;
use recorder::bus::RecvOutcome;

fn expect_chunk(r: RecvOutcome) -> Vec<i8> {
    match r {
        RecvOutcome::Chunk(c) => c,
        _ => panic!("expected a chunk"),
    }
}

#[test]
fn subscriber_sees_chunks_in_publish_order() {
    let mut bus = AudioBus::new(16);
    let sub = bus.subscribe();
    bus.publish(vec![1, -1, 2]);
    bus.publish(vec![0, 0, 0]);
    bus.publish(vec![5, -5, 3]);
    assert_eq!(expect_chunk(bus.receive(sub)), vec![1, -1, 2]);
    assert_eq!(expect_chunk(bus.receive(sub)), vec![0, 0, 0]);
    assert_eq!(expect_chunk(bus.receive(sub)), vec![5, -5, 3]);
    assert!(matches!(bus.receive(sub), RecvOutcome::Pending));
}

#[test]
fn no_replay_before_subscription() {
    let mut bus = AudioBus::new(16);
    bus.publish(vec![9]);
    let sub = bus.subscribe();
    assert!(matches!(bus.receive(sub), RecvOutcome::Pending));
    bus.publish(vec![7]);
    assert_eq!(expect_chunk(bus.receive(sub)), vec![7]);
}

#[test]
fn lag_drops_oldest_and_reports_count() {
    let mut bus = AudioBus::new(2);
    let sub = bus.subscribe();
    bus.publish(vec![1]);
    bus.publish(vec![2]);
    bus.publish(vec![3]);
    bus.publish(vec![4]);
    // backlog 4 against capacity 2: the two oldest are gone
    match bus.receive(sub) {
        RecvOutcome::Lagged(n) => assert_eq!(n, 2),
        _ => panic!("expected a lag report"),
    }
    assert_eq!(expect_chunk(bus.receive(sub)), vec![3]);
    assert_eq!(expect_chunk(bus.receive(sub)), vec![4]);
    assert!(matches!(bus.receive(sub), RecvOutcome::Pending));
}

#[test]
fn stalled_consumer_lags_alone() {
    // Bus isolation: the stalled subscriber takes the loss; the prompt
    // one sees every chunk with no loss.
    let mut bus = AudioBus::new(2);
    let stalled = bus.subscribe();
    let prompt = bus.subscribe();
    for k in 0..5i8 {
        bus.publish(vec![k]);
        // the prompt consumer keeps up chunk by chunk
        assert_eq!(expect_chunk(bus.receive(prompt)), vec![k]);
    }
    // the stalled one lost the oldest three, and only now learns it
    match bus.receive(stalled) {
        RecvOutcome::Lagged(n) => assert_eq!(n, 3),
        _ => panic!("expected a lag report"),
    }
    assert_eq!(expect_chunk(bus.receive(stalled)), vec![3]);
    assert_eq!(expect_chunk(bus.receive(stalled)), vec![4]);
}

#[test]
fn closed_after_drain() {
    let mut bus = AudioBus::new(4);
    let sub = bus.subscribe();
    bus.publish(vec![1]);
    bus.close();
    assert_eq!(expect_chunk(bus.receive(sub)), vec![1]);
    assert!(matches!(bus.receive(sub), RecvOutcome::Closed));
    assert!(matches!(bus.receive(sub), RecvOutcome::Closed));
}
