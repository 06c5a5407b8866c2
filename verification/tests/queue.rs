use duihua::queue::{
    drain_next, retry_next, DrainEvent, DrainStep, RetryEvent, RetryStep,
    autoclaim_shorter_than_upstream, default_autoclaim_min_idle_ms, is_busygroup, is_nogroup,
    is_unsupported_xackdel, pending_retry_backoff_seconds, pending_retry_follow_up,
    queue_error_action, queue_message_from_stream_entry, response_id_from_stream_entry,
    split_stream_entries, startup_drain_continues, stream_entry_follow_up, upstream_timeout_seconds,
    with_pending_idle, EntryFollowUp, MessageResult, QueueConfig, QueueConfigError, QueueEnv,
    QueueErrorAction, QueueMessage, RetryFollowUp, StreamEntry,
};
use duihua::retry::PendingRetryScheduler;
use redis::streams::StreamId;
use redis::{FromRedisValue, Value};

/// The entry the consumer reads from a stream id that Redis returned.
fn entry_of(id: &StreamId) -> StreamEntry {
    StreamEntry {
        id: id.id.clone(),
        fields: id.map.keys().map(|k| (k.clone(), id.get::<String>(k))).collect(),
        milliseconds_elapsed_from_delivery: id.milliseconds_elapsed_from_delivery,
    }
}

fn no_env() -> QueueEnv {
    QueueEnv {
        redis_url: None,
        stream_key: None,
        consumer_group: None,
        consumer_name: None,
        hostname: None,
        block_ms: None,
        autoclaim_min_idle_ms: None,
        autoclaim_batch_size: None,
        upstream_timeout_seconds: None,
    }
}

#[test]
fn extracts_response_id_from_stream_entry() {
    let entry = StreamId {
        id: "1717670000000-0".to_string(),
        map: [(
            "response_id".to_string(),
            Value::BulkString(b"resp_abc".to_vec()),
        )]
        .into(),
        milliseconds_elapsed_from_delivery: Some(42_usize),
        delivered_count: None,
    };
    let entry = entry_of(&entry);

    assert_eq!(
        response_id_from_stream_entry(&entry).as_deref(),
        Some("resp_abc")
    );
    assert_eq!(
        queue_message_from_stream_entry(&entry),
        Some(QueueMessage {
            stream_id: "1717670000000-0".to_string(),
            response_id: "resp_abc".to_string(),
            idle_ms: Some(42),
        })
    );
}

#[test]
fn splits_invalid_stream_entries_for_explicit_ack() {
    let valid = StreamId {
        id: "1717670000000-0".to_string(),
        map: [(
            "response_id".to_string(),
            Value::BulkString(b"resp_abc".to_vec()),
        )]
        .into(),
        milliseconds_elapsed_from_delivery: None,
        delivered_count: None,
    };
    let invalid = StreamId {
        id: "1717670000001-0".to_string(),
        map: [("other".to_string(), Value::BulkString(b"x".to_vec()))].into(),
        milliseconds_elapsed_from_delivery: None,
        delivered_count: None,
    };

    let (messages, invalid_ids) = split_stream_entries(&[entry_of(&valid), entry_of(&invalid)]);
    assert_eq!(messages.len(), 1);
    assert_eq!(invalid_ids, vec!["1717670000001-0".to_string()]);
}

#[test]
fn parses_messages_from_xreadgroup_reply() {
    let value = Value::Array(vec![Value::Array(vec![
        Value::BulkString(b"duihua:responses:background".to_vec()),
        Value::Array(vec![Value::Array(vec![
            Value::BulkString(b"1717670000000-0".to_vec()),
            Value::Array(vec![
                Value::BulkString(b"response_id".to_vec()),
                Value::BulkString(b"resp_xyz".to_vec()),
            ]),
        ])]),
    ])]);
    let reply = redis::streams::StreamReadReply::from_redis_value(value).expect("reply");
    let entries: Vec<StreamEntry> = reply
        .keys
        .iter()
        .flat_map(|key| key.ids.iter().map(entry_of))
        .collect();
    assert_eq!(
        split_stream_entries(&entries).0,
        vec![QueueMessage {
            stream_id: "1717670000000-0".to_string(),
            response_id: "resp_xyz".to_string(),
            idle_ms: None,
        }]
    );
}

#[test]
fn rejects_zero_block_ms() {
    let env = QueueEnv {
        block_ms: Some("0".to_string()),
        ..no_env()
    };
    assert!(QueueConfig::from_env_values(env).is_err());
}

#[test]
fn default_autoclaim_exceeds_upstream_timeout() {
    let config = QueueConfig::from_env_values(no_env()).expect("config");
    assert_eq!(config.autoclaim_min_idle_ms, 720_000);
}

#[test]
fn rejects_zero_autoclaim_batch_size() {
    let env = QueueEnv {
        autoclaim_batch_size: Some("0".to_string()),
        ..no_env()
    };
    assert!(QueueConfig::from_env_values(env).is_err());
}

#[test]
fn detects_nogroup_errors() {
    let err = redis::make_extension_error(
        "NOGROUP".to_string(),
        Some("NOGROUP No such key or consumer group".to_string()),
    );
    assert!(is_nogroup(err.code()));
}

#[test]
fn pending_retry_scheduler_honors_backoff() {
    let mut scheduler = PendingRetryScheduler::new();
    scheduler.schedule(
        "1-0".to_string(),
        "resp_a".to_string(),
        60,
    );
    assert!(scheduler.due_stream_ids().is_empty());
    let now = scheduler.now();
    scheduler.schedule_at("1-0".to_string(), "resp_a".to_string(), now);
    assert_eq!(scheduler.due_stream_ids(), vec!["1-0".to_string()]);
}

#[test]
fn config_defaults_and_overrides() {
    let c = QueueConfig::from_env_values(no_env()).expect("config");
    assert_eq!(c.redis_url, "redis://valkey:6379");
    assert_eq!(c.stream_key, "duihua:responses:background");
    assert_eq!(c.consumer_group, "duihua-background");
    assert_eq!(c.consumer_name, "duihua-background-worker");
    assert_eq!(c.block_ms, 5_000);
    assert_eq!(c.autoclaim_batch_size, 10);

    let env = QueueEnv {
        hostname: Some("pod-7".to_string()),
        upstream_timeout_seconds: Some("30".to_string()),
        block_ms: Some("junk".to_string()),
        ..no_env()
    };
    let c = QueueConfig::from_env_values(env).expect("config");
    assert_eq!(c.consumer_name, "pod-7");
    assert_eq!(c.autoclaim_min_idle_ms, 150_000);
    assert_eq!(c.block_ms, 5_000);

    let env = QueueEnv {
        consumer_name: Some("worker-a".to_string()),
        hostname: Some("pod-7".to_string()),
        autoclaim_min_idle_ms: Some("1000".to_string()),
        ..no_env()
    };
    let c = QueueConfig::from_env_values(env).expect("config");
    assert_eq!(c.consumer_name, "worker-a");
    assert_eq!(c.autoclaim_min_idle_ms, 1000);
}

#[test]
fn zero_block_ms_is_reported_before_batch_size() {
    let env = QueueEnv {
        block_ms: Some("0".to_string()),
        autoclaim_batch_size: Some("0".to_string()),
        ..no_env()
    };
    let err = QueueConfig::from_env_values(env).err().unwrap();
    assert_eq!(err, QueueConfigError::ZeroBlockMs);
    assert_eq!(err.message(), "BACKGROUND_QUEUE_BLOCK_MS must be greater than 0");
    let env = QueueEnv {
        autoclaim_batch_size: Some("0".to_string()),
        ..no_env()
    };
    let err = QueueConfig::from_env_values(env).err().unwrap();
    assert_eq!(err.message(), "BACKGROUND_QUEUE_AUTOCLAIM_BATCH_SIZE must be greater than 0");
}

#[test]
fn autoclaim_defaults_saturate_and_outlast_upstream() {
    assert_eq!(default_autoclaim_min_idle_ms(600), 720_000);
    assert_eq!(default_autoclaim_min_idle_ms(usize::MAX), usize::MAX);
    assert!(!autoclaim_shorter_than_upstream(720_000, 600));
    assert!(autoclaim_shorter_than_upstream(599_999, 600));
    assert_eq!(upstream_timeout_seconds(&None), 600);
    assert_eq!(upstream_timeout_seconds(&Some("-1".to_string())), 600);
    assert_eq!(pending_retry_backoff_seconds(&None), 30);
    assert_eq!(pending_retry_backoff_seconds(&Some("5".to_string())), 5);
}

#[test]
fn classifies_redis_errors() {
    assert!(is_busygroup(Some("BUSYGROUP")));
    assert!(!is_busygroup(Some("NOGROUP")));
    assert!(!is_nogroup(None));
    assert_eq!(queue_error_action(Some("NOGROUP")), QueueErrorAction::RecreateGroup);
    assert_eq!(queue_error_action(Some("ERR")), QueueErrorAction::Backoff);
    assert!(is_unsupported_xackdel("ERR Unknown Command 'XACKDEL'"));
    assert!(!is_unsupported_xackdel("ERR wrong number of arguments"));
}

#[test]
fn pending_idle_time_wins_over_delivery_time() {
    let m = QueueMessage {
        stream_id: "1-0".to_string(),
        response_id: "resp_a".to_string(),
        idle_ms: Some(5),
    };
    assert_eq!(with_pending_idle(m.clone(), Some(9)).idle_ms, Some(9));
    assert_eq!(with_pending_idle(m, None).idle_ms, Some(5));
}

#[test]
fn follow_ups_after_handling() {
    assert_eq!(pending_retry_follow_up(MessageResult::Handled), RetryFollowUp::Remove);
    assert_eq!(pending_retry_follow_up(MessageResult::Failed), RetryFollowUp::Reschedule);
    assert_eq!(pending_retry_follow_up(MessageResult::Retryable), RetryFollowUp::Reschedule);
    assert_eq!(stream_entry_follow_up(MessageResult::Retryable), EntryFollowUp::ScheduleRetry);
    assert_eq!(stream_entry_follow_up(MessageResult::Failed), EntryFollowUp::ReportFailure);
    assert!(startup_drain_continues(MessageResult::Handled));
    assert!(!startup_drain_continues(MessageResult::Retryable));
}

#[test]
fn scheduler_replaces_and_removes_entries() {
    let mut s = PendingRetryScheduler::new();
    s.schedule_at("1-0".to_string(), "resp_a".to_string(), 100);
    s.schedule_at("2-0".to_string(), "resp_b".to_string(), 50);
    s.schedule_at("1-0".to_string(), "resp_c".to_string(), 10);
    assert_eq!(s.response_id_of("1-0").as_deref(), Some("resp_c"));
    let mut due = s.due_stream_ids_at(60);
    due.sort();
    assert_eq!(due, vec!["1-0".to_string(), "2-0".to_string()]);
    assert_eq!(s.due_stream_ids_at(20), vec!["1-0".to_string()]);
    assert!(s.due_stream_ids_at(9).is_empty());
    s.remove("1-0");
    assert_eq!(s.response_id_of("1-0"), None);
    assert!(s.due_stream_ids_at(20).is_empty());
    assert_eq!(s.due_stream_ids_at(50), vec!["2-0".to_string()]);
}

#[test]
fn non_string_field_values_hold_no_response_id() {
    let entry = StreamEntry {
        id: "3-0".to_string(),
        fields: vec![("response_id".to_string(), None)],
        milliseconds_elapsed_from_delivery: Some(1),
    };
    assert_eq!(queue_message_from_stream_entry(&entry), None);
    let (messages, invalid) = split_stream_entries(&[entry]);
    assert!(messages.is_empty());
    assert_eq!(invalid, vec!["3-0".to_string()]);
}

#[test]
fn scheduled_retry_time_adds_the_backoff() {
    let mut s = PendingRetryScheduler::new();
    s.schedule_after("1-0".to_string(), "resp_a".to_string(), 5, 2);
    assert!(s.due_stream_ids_at(2_000_000_004).is_empty());
    assert_eq!(s.due_stream_ids_at(2_000_000_005), vec!["1-0".to_string()]);
    s.schedule_after("2-0".to_string(), "resp_b".to_string(), u128::MAX - 1, 1);
    assert_eq!(s.due_stream_ids_at(u128::MAX - 1), vec!["1-0".to_string()]);
    assert_eq!(s.due_stream_ids_at(u128::MAX).len(), 2);
}

#[test]
fn zero_backoff_retry_is_due_at_once() {
    let mut s = PendingRetryScheduler::new();
    s.schedule("1-0".to_string(), "resp_a".to_string(), 0);
    assert_eq!(s.due_stream_ids(), vec!["1-0".to_string()]);
    s.schedule("1-0".to_string(), "resp_a".to_string(), 60);
    assert!(s.due_stream_ids().is_empty());
}

#[test]
fn startup_drain_stops_on_empty_batches_and_failures() {
    assert_eq!(drain_next(DrainEvent::Start), DrainStep::ReadPending);
    assert_eq!(drain_next(DrainEvent::PendingRead { empty: true }), DrainStep::Stop);
    assert_eq!(drain_next(DrainEvent::PendingRead { empty: false }), DrainStep::ProcessBatch);
    assert_eq!(
        drain_next(DrainEvent::PendingFailed(QueueErrorAction::RecreateGroup)),
        DrainStep::RecreateGroupThenRead
    );
    assert_eq!(
        drain_next(DrainEvent::PendingFailed(QueueErrorAction::Backoff)),
        DrainStep::BackoffThenStop
    );
    assert_eq!(drain_next(DrainEvent::MalformedAcked(true)), DrainStep::NextEntry);
    assert_eq!(drain_next(DrainEvent::MalformedAcked(false)), DrainStep::Stop);
    assert_eq!(drain_next(DrainEvent::EntryHandled(MessageResult::Handled)), DrainStep::NextEntry);
    assert_eq!(drain_next(DrainEvent::EntryHandled(MessageResult::Retryable)), DrainStep::Stop);
    assert_eq!(drain_next(DrainEvent::EntryHandled(MessageResult::Failed)), DrainStep::Stop);
    assert_eq!(drain_next(DrainEvent::BatchDone), DrainStep::ReadPending);
}

#[test]
fn due_retries_are_dropped_only_when_done() {
    assert_eq!(retry_next(RetryEvent::LookedUp { scheduled: false }), RetryStep::Skip);
    assert_eq!(retry_next(RetryEvent::LookedUp { scheduled: true }), RetryStep::LoadEntry);
    assert_eq!(retry_next(RetryEvent::Loaded { found: true }), RetryStep::Process);
    assert_eq!(retry_next(RetryEvent::Loaded { found: false }), RetryStep::AcknowledgeMissing);
    assert_eq!(retry_next(RetryEvent::MissingAcked(true)), RetryStep::Remove);
    assert_eq!(retry_next(RetryEvent::MissingAcked(false)), RetryStep::Skip);
    assert_eq!(retry_next(RetryEvent::Handled(MessageResult::Handled)), RetryStep::Remove);
    assert_eq!(retry_next(RetryEvent::Handled(MessageResult::Retryable)), RetryStep::Reschedule);
    assert_eq!(retry_next(RetryEvent::Handled(MessageResult::Failed)), RetryStep::Reschedule);
}

#[test]
fn backoff_seconds_read_unsigned_decimals() {
    let backoff = |v: &str| pending_retry_backoff_seconds(&Some(v.to_string()));
    assert_eq!(backoff("+7"), 7);
    assert_eq!(backoff("007"), 7);
    assert_eq!(backoff("18446744073709551615"), u64::MAX);
    assert_eq!(backoff("18446744073709551616"), 30);
    assert_eq!(backoff("-1"), 30);
    assert_eq!(backoff("+"), 30);
    assert_eq!(backoff("1e3"), 30);
}
