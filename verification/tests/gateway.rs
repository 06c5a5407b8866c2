use duihua::clock::{unix_seconds_from, unix_seconds_now};
use duihua::common::{response_id_from_value, response_store_key, stored_response_status, StoredResponse};
use duihua::gateway::{
    background_queue_config, deletion_action, is_stale_enqueued, is_visible, queued_record,
    reconcile_stale, record_for_storage, should_reconcile_stale, store_readiness, tombstone_record,
    enqueue_next, DeletionAction, EnqueueEvent, EnqueueStep, GatewayError, StaleCheck,
};
use duihua::json::{Json, JsonObject};
use duihua::worker::is_claimable;

fn text(x: &str) -> Json {
    Json::Str(x.to_string())
}

fn obj(pairs: Vec<(&str, Json)>) -> Json {
    Json::Object(JsonObject::from_members(
        pairs.into_iter().map(|(k, v)| (k.to_string(), v)).collect(),
    ))
}

fn record(status: &str, pending: Option<Json>, enqueued_at: Option<i64>) -> StoredResponse {
    StoredResponse {
        upstream: "http://model".to_string(),
        response: obj(vec![("status", text(status)), ("background", Json::Bool(true))]),
        input: vec![],
        pending_upstream_request: pending,
        upstream_authorization: None,
        enqueued_at,
    }
}

#[test]
fn stale_requires_enqueued_at() {
    assert!(!is_stale_enqueued(None, 2_000, 60));
}

#[test]
fn detects_stale_enqueued_responses() {
    assert!(!is_stale_enqueued(Some(1_000), 1_050, 60));
    assert!(is_stale_enqueued(Some(1_000), 1_060, 60));
}

#[test]
fn reconciles_only_queued_in_flight_responses() {
    let queued = record("queued", Some(obj(vec![("input", text("hi"))])), Some(1_000));
    assert!(should_reconcile_stale(&queued));

    let in_progress = record("in_progress", None, Some(1_000));
    assert!(!should_reconcile_stale(&in_progress));
}

#[test]
fn store_extracts_response_id_from_response_objects() {
    let response = obj(vec![("id", text("resp_123")), ("object", text("response"))]);
    assert_eq!(response_id_from_value(&response).as_deref(), Some("resp_123"));

    let stream_event = obj(vec![
        ("type", text("response.created")),
        (
            "response",
            obj(vec![("id", text("resp_456")), ("object", text("response"))]),
        ),
    ]);
    assert_eq!(response_id_from_value(&stream_event).as_deref(), Some("resp_456"));
}

#[test]
fn ignores_non_response_ids() {
    let chat_completion = obj(vec![("id", text("chatcmpl_123"))]);
    assert_eq!(response_id_from_value(&chat_completion), None);

    let stream_event = obj(vec![
        ("type", text("response.created")),
        ("response", obj(vec![("id", text("not-a-response-id"))])),
    ]);
    assert_eq!(response_id_from_value(&stream_event), None);
}

#[test]
fn store_builds_response_store_keys_with_prefix() {
    assert_eq!(
        response_store_key("duihua:responses", "resp_model_a"),
        "duihua:responses:resp_model_a"
    );
}

#[test]
fn staleness_saturates_at_the_extremes() {
    assert!(is_stale_enqueued(Some(i64::MIN), i64::MAX, i64::MAX));
    assert!(!is_stale_enqueued(Some(i64::MAX), i64::MIN, -1));
    assert!(is_stale_enqueued(Some(i64::MAX), i64::MIN, i64::MIN));
    assert!(is_stale_enqueued(Some(5), 5, 0));
}

#[test]
fn stale_queued_responses_are_marked_failed() {
    let queued = record("queued", Some(obj(vec![])), Some(1_000));
    match reconcile_stale(queued, "resp_1", 5_000, 3_600) {
        StaleCheck::MarkedFailed(f) => {
            assert_eq!(stored_response_status(&f), Some("failed"));
            assert!(f.pending_upstream_request.is_none());
            assert_eq!(
                f.response.get("error"),
                Some(&obj(vec![
                    ("message", text("background response stale")),
                    ("type", text("server_error")),
                ]))
            );
        }
        StaleCheck::Fresh(_) => panic!("expected a stale response"),
    }
    let queued = record("queued", Some(obj(vec![])), Some(1_000));
    assert!(matches!(reconcile_stale(queued, "resp_1", 1_100, 3_600), StaleCheck::Fresh(_)));
    let running = record("in_progress", None, Some(1_000));
    assert!(matches!(reconcile_stale(running, "resp_1", 99_999, 3_600), StaleCheck::Fresh(_)));
}

#[test]
fn deleting_an_in_flight_response_leaves_a_tombstone() {
    let queued = record("queued", Some(obj(vec![])), Some(1));
    assert_eq!(deletion_action(&queued), DeletionAction::Tombstone);
    let tombstone = tombstone_record(queued, "resp_1");
    assert_eq!(
        tombstone.response,
        obj(vec![
            ("id", text("resp_1")),
            ("object", text("response")),
            ("status", text("deleted")),
            ("background", Json::Bool(true)),
            ("deleted", Json::Bool(true)),
        ])
    );
    assert!(!is_visible(&tombstone));
    assert!(!is_claimable(&tombstone));
    assert_eq!(deletion_action(&tombstone), DeletionAction::Delete);
    assert_eq!(deletion_action(&record("completed", None, None)), DeletionAction::Delete);
}

#[test]
fn gateway_errors_have_statuses_and_messages() {
    assert_eq!(GatewayError::NotFound.status_code(), 404);
    assert_eq!(GatewayError::NotFound.message(), None);
    assert_eq!(GatewayError::QueueUnavailable.status_code(), 503);
    assert_eq!(
        GatewayError::QueueUnavailable.message().as_deref(),
        Some("background responses require queue support")
    );
    assert_eq!(GatewayError::EnqueueFailed.status_code(), 502);
    assert_eq!(
        GatewayError::StoreUnavailable.message().as_deref(),
        Some("response id store unavailable")
    );
    assert_eq!(store_readiness(false, true), Err(GatewayError::NotFound));
    assert_eq!(store_readiness(true, false), Err(GatewayError::StoreUnavailable));
    assert_eq!(store_readiness(true, true), Ok(()));
}

#[test]
fn background_queue_needs_to_be_enabled() {
    assert!(background_queue_config(None, None, None, None).is_none());
    assert!(background_queue_config(Some("no"), None, None, None).is_none());
    let c = background_queue_config(Some("TRUE"), None, None, Some("-5")).expect("config");
    assert_eq!(c.url, "redis://valkey:6379");
    assert_eq!(c.stream_key, "duihua:responses:background");
    assert_eq!(c.stale_seconds, -5);
    let c = background_queue_config(Some("1"), Some("redis://q"), Some("k"), Some("x")).expect("config");
    assert_eq!(c.stale_seconds, 3600);
    assert_eq!(c.url, "redis://q");
}

#[test]
fn only_responses_with_ids_are_stored() {
    assert!(record_for_storage("u".to_string(), obj(vec![("id", text("chatcmpl_1"))]), vec![]).is_none());
    let (id, stored) =
        record_for_storage("u".to_string(), obj(vec![("id", text("resp_7"))]), vec![text("hi")]).expect("stored");
    assert_eq!(id, "resp_7");
    assert_eq!(stored.input, vec![text("hi")]);
    assert!(stored.pending_upstream_request.is_none());
    let queued = queued_record("u".to_string(), obj(vec![]), vec![], obj(vec![]), None, 42);
    assert_eq!(queued.enqueued_at, Some(42));
    assert!(queued.pending_upstream_request.is_some());
}

#[test]
fn queued_records_are_in_flight_until_claimed() {
    let queued = queued_record(
        "u".to_string(),
        obj(vec![("status", text("queued"))]),
        vec![],
        obj(vec![]),
        Some("Bearer t".to_string()),
        10,
    );
    assert!(duihua::common::is_in_flight_background(&queued));
    assert!(should_reconcile_stale(&queued));
    assert_eq!(deletion_action(&queued), DeletionAction::Tombstone);
}

#[test]
fn staleness_persists_as_time_goes_on() {
    for now in [1_060, 1_061, 5_000, i64::MAX] {
        assert!(is_stale_enqueued(Some(1_000), now, 60));
    }
    for now in [i64::MIN, 0, 1_059] {
        assert!(!is_stale_enqueued(Some(1_000), now, 60));
    }
}

#[test]
fn enqueue_stores_the_record_before_queueing_it() {
    assert_eq!(
        enqueue_next(EnqueueEvent::Begin { store_configured: false }),
        EnqueueStep::Done(Err(GatewayError::StoreUnavailable))
    );
    assert_eq!(
        enqueue_next(EnqueueEvent::Begin { store_configured: true }),
        EnqueueStep::WriteRecord
    );
    assert_eq!(
        enqueue_next(EnqueueEvent::RecordWritten(false)),
        EnqueueStep::Done(Err(GatewayError::StoreWriteFailed))
    );
    assert_eq!(enqueue_next(EnqueueEvent::RecordWritten(true)), EnqueueStep::Enqueue);
    assert_eq!(enqueue_next(EnqueueEvent::QueueChecked(true)), EnqueueStep::Enqueue);
    assert_eq!(enqueue_next(EnqueueEvent::Enqueued(true)), EnqueueStep::Done(Ok(())));
}

#[test]
fn enqueue_failures_delete_the_stored_record() {
    assert_eq!(
        enqueue_next(EnqueueEvent::QueueChecked(false)),
        EnqueueStep::DeleteRecordThenFail(GatewayError::QueueUnavailable)
    );
    assert_eq!(
        enqueue_next(EnqueueEvent::Enqueued(false)),
        EnqueueStep::DeleteRecordThenFail(GatewayError::EnqueueFailed)
    );
}

#[test]
fn stale_seconds_read_signed_decimals() {
    let stale = |v: &str| background_queue_config(Some("true"), None, None, Some(v)).expect("config").stale_seconds;
    assert_eq!(stale("+12"), 12);
    assert_eq!(stale("-9223372036854775808"), i64::MIN);
    assert_eq!(stale("9223372036854775807"), i64::MAX);
    assert_eq!(stale("9223372036854775808"), 3600);
    assert_eq!(stale("-9223372036854775809"), 3600);
    assert_eq!(stale("-"), 3600);
    assert_eq!(stale(""), 3600);
    assert_eq!(stale("1 "), 3600);
}

#[test]
fn unix_seconds_are_zero_before_the_epoch() {
    assert_eq!(unix_seconds_from(Some(1_700_000_000)), 1_700_000_000);
    assert_eq!(unix_seconds_from(None), 0);
    assert_eq!(unix_seconds_from(Some(u64::MAX)), -1);
    assert!(unix_seconds_now() > 1_600_000_000);
}
