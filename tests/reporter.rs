use hive_router::client::{FetchError, RetryDecision, RetryPolicy};
use hive_router::reporter::{
    FieldRef, RecordResult, ReporterConfig, RequestOutcome, UsageEvent, UsageReporter, SAMPLE_SCALE,
};

fn event(n: u64) -> UsageEvent {
    UsageEvent {
        operation_id: format!("op-{}", n),
        operation_name: Some(format!("Name{}", n)),
        fields: vec![FieldRef { parent_type: "Query".to_string(), field_name: format!("f{}", n) }],
        client: Some("web".to_string()),
        timestamp: 1000 + n,
        duration_ms: n * 3,
        outcome: if n % 2 == 0 { RequestOutcome::Success } else { RequestOutcome::Error("timeout".to_string()) },
    }
}

fn config(capacity: usize) -> ReporterConfig {
    ReporterConfig { capacity, flush_threshold: capacity, flush_interval: 60, sample_rate: SAMPLE_SCALE }
}

#[test]
fn overflow_drops_and_counts() {
    let mut r = UsageReporter::new(config(500), 0);
    for n in 0..1000u64 {
        let result = r.record(event(n));
        if n < 500 {
            assert_eq!(result, RecordResult::Buffered);
        } else {
            assert_eq!(result, RecordResult::Dropped);
        }
    }
    assert_eq!(r.len(), 500);
    assert_eq!(r.counts().dropped, 500);
    let batch = r.flush(1);
    assert_eq!(batch.events.len(), 500);
    assert_eq!(batch.events[0].operation_id, "op-0");
    assert_eq!(batch.events[499].operation_id, "op-499");
}

#[test]
fn record_at_capacity_leaves_buffer_unchanged() {
    let mut r = UsageReporter::new(config(2), 0);
    assert_eq!(r.record(event(1)), RecordResult::Buffered);
    assert_eq!(r.record(event(2)), RecordResult::Buffered);
    assert_eq!(r.record(event(3)), RecordResult::Dropped);
    assert_eq!(r.len(), 2);
    assert_eq!(r.counts().dropped, 1);
    let batch = r.flush(5);
    assert_eq!(batch.events[1].operation_id, "op-2");
}

#[test]
fn zero_capacity_drops_everything() {
    let mut r = UsageReporter::new(config(0), 0);
    assert_eq!(r.record(event(1)), RecordResult::Dropped);
    assert_eq!(r.len(), 0);
    assert_eq!(r.counts().dropped, 1);
}

#[test]
fn recorded_event_is_flushed_field_for_field() {
    let mut r = UsageReporter::new(config(10), 0);
    r.record(event(7));
    let batch = r.flush(3);
    assert_eq!(batch.events.len(), 1);
    let e = &batch.events[0];
    assert_eq!(e.operation_id, "op-7");
    assert_eq!(e.operation_name.as_deref(), Some("Name7"));
    assert_eq!(e.fields.len(), 1);
    assert_eq!(e.fields[0].parent_type, "Query");
    assert_eq!(e.fields[0].field_name, "f7");
    assert_eq!(e.client.as_deref(), Some("web"));
    assert_eq!(e.timestamp, 1007);
    assert_eq!(e.duration_ms, 21);
    assert!(matches!(&e.outcome, RequestOutcome::Error(c) if c == "timeout"));
    assert_eq!(r.len(), 0);
    assert!(r.flush(4).events.is_empty());
    assert_eq!(r.counts().flushed, 1);
    assert_eq!(r.counts().dropped, 0);
}

#[test]
fn records_around_a_flush_are_kept_once() {
    let mut r = UsageReporter::new(config(100), 0);
    for n in 0..4u64 {
        r.record(event(n));
    }
    let batch = r.flush(1);
    for n in 4..10u64 {
        r.record(event(n));
    }
    let rest = r.flush(2);
    let mut ids: Vec<String> = batch.events.iter().map(|e| e.operation_id.clone()).collect();
    ids.extend(rest.events.iter().map(|e| e.operation_id.clone()));
    let expected: Vec<String> = (0..10u64).map(|n| format!("op-{}", n)).collect();
    assert_eq!(ids, expected);
    assert_eq!(r.counts().dropped, 0);
    assert_eq!(r.counts().flushed, 10);
}

#[test]
fn flush_is_due_on_size_or_interval() {
    let mut r = UsageReporter::new(
        ReporterConfig { capacity: 10, flush_threshold: 3, flush_interval: 60, sample_rate: SAMPLE_SCALE },
        100,
    );
    assert!(!r.should_flush(100));
    assert!(!r.should_flush(159));
    assert!(r.should_flush(160));
    assert!(!r.should_flush(50));
    r.record(event(1));
    r.record(event(2));
    assert!(!r.should_flush(101));
    r.record(event(3));
    assert!(r.should_flush(101));
    r.flush(101);
    assert!(!r.should_flush(102));
}

#[test]
fn sampling_applies_at_record_time() {
    let mut r = UsageReporter::new(
        ReporterConfig { capacity: 10, flush_threshold: 10, flush_interval: 60, sample_rate: 250000 },
        0,
    );
    assert_eq!(r.record_sampled(event(1), 10), RecordResult::Buffered);
    assert_eq!(r.record_sampled(event(2), 249999), RecordResult::Buffered);
    assert_eq!(r.record_sampled(event(3), 250000), RecordResult::SampledOut);
    assert_eq!(r.record_sampled(event(4), SAMPLE_SCALE + 5), RecordResult::Buffered);
    assert_eq!(r.len(), 3);
    assert_eq!(r.counts().sampled_out, 1);
}

#[test]
fn failed_submissions_retry_then_count_a_lost_batch() {
    let policy = RetryPolicy { max_attempts: 2, base_delay_ms: 10, max_delay_ms: 100 };
    let mut r = UsageReporter::new(config(10), 0);
    assert_eq!(r.on_submit_error(&policy, 1, FetchError::Network, 3), RetryDecision::RetryAfter(8));
    assert_eq!(r.counts().lost_batches, 0);
    assert_eq!(r.on_submit_error(&policy, 2, FetchError::Network, 3), RetryDecision::GiveUp(FetchError::Network));
    assert_eq!(r.counts().lost_batches, 1);
    assert_eq!(
        r.on_submit_error(&policy, 1, FetchError::ServerRejected(400), 0),
        RetryDecision::GiveUp(FetchError::ServerRejected(400))
    );
    assert_eq!(r.counts().lost_batches, 2);
}

#[test]
fn shutdown_hands_out_the_buffer_and_refuses_more() {
    let mut r = UsageReporter::new(config(10), 0);
    r.record(event(1));
    r.record(event(2));
    let last = r.shutdown(9);
    assert_eq!(last.events.len(), 2);
    assert_eq!(last.events[0].operation_id, "op-1");
    assert_eq!(r.record(event(3)), RecordResult::Closed);
    assert_eq!(r.len(), 0);
    assert_eq!(r.counts().dropped, 0);
    assert_eq!(r.counts().flushed, 2);
}
