use std::time::Duration;
use universal_service::shutdown::shutdown_channel;
use universal_service::shutdown::WaitOutcome;

#[test]
fn wait_times_out_before_any_signal() {
    let (_producer, mut consumer) = shutdown_channel();
    assert_eq!(consumer.wait(Duration::from_millis(10)), WaitOutcome::TimedOut);
    assert!(!consumer.is_stopped());
}

#[test]
fn every_wait_after_signal_reports_signaled() {
    let (mut producer, mut consumer) = shutdown_channel();
    producer.signal();
    for _ in 0..5 {
        assert_eq!(consumer.wait(Duration::from_millis(10)), WaitOutcome::Signaled);
    }
    assert!(consumer.is_stopped());
}

#[test]
fn signalling_twice_has_no_further_effect() {
    let (mut producer, mut consumer) = shutdown_channel();
    producer.signal();
    producer.signal();
    assert_eq!(consumer.wait(Duration::from_millis(10)), WaitOutcome::Signaled);
    assert_eq!(consumer.wait(Duration::from_millis(10)), WaitOutcome::Signaled);
}

#[test]
fn dropped_producer_reads_as_closed_for_good() {
    let (producer, mut consumer) = shutdown_channel();
    drop(producer);
    assert_eq!(consumer.wait(Duration::from_millis(10)), WaitOutcome::Closed);
    assert_eq!(consumer.wait(Duration::from_millis(10)), WaitOutcome::Closed);
    assert!(consumer.is_stopped());
}

#[test]
fn signal_after_consumer_is_gone_does_not_fail() {
    let (mut producer, consumer) = shutdown_channel();
    drop(consumer);
    producer.signal();
    producer.signal();
}
