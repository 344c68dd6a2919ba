use std::time::{Duration, Instant};

use winserial::bridge::{log_after_poll, open_bridge, PollOutcome};

#[test]
fn values_arrive_in_send_order() {
    let (mut producer, consumer) = open_bridge();
    assert_eq!(producer.emit_next(), Ok(1));
    assert_eq!(producer.emit_next(), Ok(2));
    assert_eq!(producer.emit_next(), Ok(3));
    assert_eq!(consumer.poll(1000), PollOutcome::Delivered(1));
    assert_eq!(consumer.poll(1000), PollOutcome::Delivered(2));
    assert_eq!(consumer.poll(1000), PollOutcome::Delivered(3));
}

#[test]
fn bounded_wait_times_out_neither_instantly_nor_indefinitely() {
    let (_producer, consumer) = open_bridge();
    let begin = Instant::now();
    let out = consumer.poll(200);
    let elapsed = begin.elapsed();
    assert_eq!(out, PollOutcome::TimedOut);
    assert!(elapsed >= Duration::from_millis(200));
    assert!(elapsed < Duration::from_secs(5));
}

#[test]
fn closed_once_every_producer_is_gone() {
    let (producer, consumer) = open_bridge();
    drop(producer);
    assert_eq!(consumer.poll(1000), PollOutcome::Closed);
}

#[test]
fn emit_reports_the_undelivered_value_after_close() {
    let (mut producer, consumer) = open_bridge();
    drop(consumer);
    assert_eq!(producer.emit_next(), Err(1));
    assert_eq!(producer.count, 1);
}

#[test]
fn two_live_producers_share_one_queue() {
    let (mut first, consumer) = open_bridge();
    let mut second = first.another_producer();
    assert_eq!(second.count, 0);
    assert_eq!(first.emit_next(), Ok(1));
    assert_eq!(second.emit_next(), Ok(1));
    assert_eq!(first.emit_next(), Ok(2));
    assert_eq!(second.emit_next(), Ok(2));
    assert_eq!(consumer.poll(1000), PollOutcome::Delivered(1));
    assert_eq!(consumer.poll(1000), PollOutcome::Delivered(1));
    assert_eq!(consumer.poll(1000), PollOutcome::Delivered(2));
    assert_eq!(consumer.poll(1000), PollOutcome::Delivered(2));
}

#[test]
fn log_grows_only_on_delivery() {
    let logs = String::new();
    let logs = log_after_poll(logs, PollOutcome::Delivered(1));
    assert_eq!(logs, "Count is 1\r\n");
    let logs = log_after_poll(logs, PollOutcome::TimedOut);
    assert_eq!(logs, "Count is 1\r\n");
    let logs = log_after_poll(logs, PollOutcome::Closed);
    assert_eq!(logs, "Count is 1\r\n");
    let logs = log_after_poll(logs, PollOutcome::Delivered(2));
    assert_eq!(logs, "Count is 1\r\nCount is 2\r\n");
}
