use duihua::common::{
    background_job_name, build_cancelled_response, build_queued_response, build_upstream_request,
    generate_response_id, is_in_flight_background, parse_bool_setting, response_id_from_value,
    response_store_key, stored_response_status, ResponseStoreConfig, StoredResponse,
};
use duihua::json::{Json, JsonObject};

fn text(x: &str) -> Json {
    Json::Str(x.to_string())
}

fn obj(pairs: Vec<(&str, Json)>) -> Json {
    Json::Object(JsonObject::from_members(
        pairs.into_iter().map(|(k, v)| (k.to_string(), v)).collect(),
    ))
}

fn stored(response: Json, pending: Option<Json>) -> StoredResponse {
    StoredResponse {
        upstream: "http://model".to_string(),
        response,
        input: vec![],
        pending_upstream_request: pending,
        upstream_authorization: None,
        enqueued_at: None,
    }
}

#[test]
fn builds_stable_background_job_names() {
    assert_eq!(background_job_name("resp_abcDEF-123"), "duihua-bg-abcdef-123");
}

#[test]
fn strips_background_from_upstream_request() {
    let request = obj(vec![
        ("model", text("demo")),
        ("input", text("hello")),
        ("background", Json::Bool(true)),
        ("previous_response_id", text("resp_old")),
        ("store", Json::Bool(true)),
    ]);
    assert_eq!(
        build_upstream_request(request),
        obj(vec![
            ("model", text("demo")),
            ("input", text("hello")),
            ("store", Json::Bool(false)),
        ])
    );
}

#[test]
fn detects_in_flight_background_responses() {
    let queued = stored(
        obj(vec![("status", text("queued")), ("background", Json::Bool(true))]),
        Some(obj(vec![("input", text("hi"))])),
    );
    assert!(is_in_flight_background(&queued));

    let completed = stored(
        obj(vec![("status", text("completed")), ("background", Json::Bool(true))]),
        None,
    );
    assert!(!is_in_flight_background(&completed));
}

#[test]
fn lib_extracts_response_id_from_response_objects() {
    let response = obj(vec![("id", text("resp_123")), ("object", text("response"))]);
    assert_eq!(response_id_from_value(&response).as_deref(), Some("resp_123"));

    let stream_event = obj(vec![
        ("type", text("response.created")),
        (
            "response",
            obj(vec![("id", text("resp_456")), ("object", text("response"))]),
        ),
    ]);
    assert_eq!(response_id_from_value(&stream_event).as_deref(), Some("resp_456"));
}

#[test]
fn lib_builds_response_store_keys_with_prefix() {
    assert_eq!(
        response_store_key("duihua:responses", "resp_model_a"),
        "duihua:responses:resp_model_a"
    );
}

#[test]
fn job_names_strip_every_leading_response_prefix() {
    assert_eq!(background_job_name("resp_resp_x"), "duihua-bg-x");
    assert_eq!(background_job_name("abc_resp_"), "duihua-bg-abc-resp-");
    assert_eq!(background_job_name(""), "duihua-bg-");
}

#[test]
fn job_names_are_cut_to_63_characters() {
    let id = format!("resp_{}", "A".repeat(100));
    let name = background_job_name(&id);
    assert_eq!(name.chars().count(), 63);
    assert_eq!(name, format!("duihua-bg-{}", "a".repeat(53)));
    let exact = format!("resp_{}", "b".repeat(53));
    assert_eq!(background_job_name(&exact), format!("duihua-bg-{}", "b".repeat(53)));
}

#[test]
fn job_names_replace_non_ascii_characters() {
    assert_eq!(background_job_name("resp_Ünï.x"), "duihua-bg--n--x");
}

#[test]
fn generated_ids_are_response_ids() {
    let id = generate_response_id();
    assert!(id.starts_with("resp_"));
    assert_eq!(id.len(), 37);
    assert!(id[5..].chars().all(|c| c.is_ascii_digit() || ('a'..='f').contains(&c)));
    assert_eq!(&id[17..18], "4");
    assert!(["8", "9", "a", "b"].contains(&&id[21..22]));
    assert_ne!(generate_response_id(), id);
    let response = obj(vec![("id", text(&id))]);
    assert_eq!(response_id_from_value(&response), Some(id));
}

#[test]
fn ignores_ids_of_other_objects_and_non_strings() {
    assert_eq!(response_id_from_value(&obj(vec![("id", Json::Bool(true))])), None);
    assert_eq!(response_id_from_value(&text("resp_1")), None);
    let both = obj(vec![
        ("id", text("chatcmpl_1")),
        ("response", obj(vec![("id", text("resp_2"))])),
    ]);
    assert_eq!(response_id_from_value(&both).as_deref(), Some("resp_2"));
}

#[test]
fn queued_response_moves_the_request_input() {
    let request = obj(vec![("model", text("demo")), ("input", text("hello"))]);
    let queued = build_queued_response("resp_1", "demo", request);
    assert_eq!(
        queued,
        obj(vec![
            ("id", text("resp_1")),
            ("object", text("response")),
            ("status", text("queued")),
            ("model", text("demo")),
            ("background", Json::Bool(true)),
            ("output", Json::Array(vec![])),
            ("input", text("hello")),
        ])
    );
    let without_input = build_queued_response("resp_2", "m", obj(vec![]));
    assert_eq!(without_input.get("input"), None);
    assert_eq!(without_input.get("status"), Some(&text("queued")));
}

#[test]
fn cancelled_response_keeps_other_fields() {
    let s = stored(
        obj(vec![("status", text("queued")), ("model", text("demo"))]),
        Some(obj(vec![])),
    );
    let cancelled = build_cancelled_response(s, "resp_9");
    assert_eq!(
        cancelled,
        obj(vec![
            ("status", text("cancelled")),
            ("model", text("demo")),
            ("id", text("resp_9")),
            ("background", Json::Bool(true)),
        ])
    );
    let from_null = build_cancelled_response(stored(Json::Null, None), "resp_8");
    assert_eq!(from_null.get("status"), Some(&text("cancelled")));
}

#[test]
fn reads_stored_status() {
    let s = stored(obj(vec![("status", text("in_progress"))]), None);
    assert_eq!(stored_response_status(&s), Some("in_progress"));
    let s = stored(obj(vec![("status", Json::Number("3".to_string()))]), None);
    assert_eq!(stored_response_status(&s), None);
    assert!(!is_in_flight_background(&s));
    let s = stored(obj(vec![("status", text("in_progress"))]), None);
    assert!(is_in_flight_background(&s));
}

#[test]
fn parses_boolean_settings_in_any_case() {
    for v in ["1", "true", "YES", "On"] {
        assert!(parse_bool_setting(Some(v), false));
    }
    for v in ["0", "FALSE", "no", "oFf"] {
        assert!(!parse_bool_setting(Some(v), true));
    }
    assert!(parse_bool_setting(Some("maybe"), true));
    assert!(!parse_bool_setting(None, false));
}

#[test]
fn store_settings_fall_back_to_defaults() {
    let c = ResponseStoreConfig::from_env_values(None, None, Some("not a number"));
    assert_eq!(c.url, "redis://valkey:6379");
    assert_eq!(c.key_prefix, "duihua:responses");
    assert_eq!(c.ttl_seconds, 86_400);
    assert_eq!(c.key("resp_1"), "duihua:responses:resp_1");
    let c = ResponseStoreConfig::from_env_values(Some("redis://x"), Some("p"), Some("+60"));
    assert_eq!(c.ttl_seconds, 60);
    assert_eq!(c.key("resp_1"), "p:resp_1");
}

#[test]
fn stripping_for_upstream_twice_changes_nothing_more() {
    let request = obj(vec![
        ("model", text("demo")),
        ("background", Json::Bool(true)),
        ("previous_response_id", text("resp_old")),
    ]);
    let once = build_upstream_request(request);
    let twice = build_upstream_request(obj(vec![
        ("model", text("demo")),
        ("store", Json::Bool(false)),
    ]));
    assert_eq!(once, twice);
    assert_eq!(build_upstream_request(text("plain")), text("plain"));
}

#[test]
fn cancelled_responses_are_left_alone_by_workers() {
    let s = stored(obj(vec![("status", text("queued"))]), Some(obj(vec![])));
    let mut cancelled = stored(build_cancelled_response(s, "resp_1"), Some(obj(vec![])));
    assert!(!duihua::worker::should_persist(&cancelled));
    assert!(!duihua::worker::is_claimable(&cancelled));
    cancelled.pending_upstream_request = None;
    assert!(duihua::worker::failed_record(cancelled, "resp_1", "late").is_none());
}
