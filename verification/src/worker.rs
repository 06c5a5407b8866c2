//! How a background worker claims a queued response, calls the upstream model,
//! and records the completion or the failure.
use vstd::prelude::*;

use crate::common::{has_status, lemma_response_keys_distinct, status_of, StoredResponse};
use crate::json::{field, fields, indexable, same_fields_except, text_field, Json, JsonObject};
use crate::text::{owned, unsigned_decimal};

verus! {

/// A response that has been cancelled or deleted, which no worker may overwrite.
pub open spec fn is_terminal(stored: StoredResponse) -> bool {
    status_of(stored) == Some("cancelled"@) || status_of(stored) == Some("deleted"@)
}

/// Whether a worker may still write the stored response.
pub fn should_persist(stored: &StoredResponse) -> (r: bool)
    ensures
        r == !is_terminal(*stored),
{
    !(has_status(stored, "cancelled") || has_status(stored, "deleted"))
}

/// A response a worker may claim: not terminal, and with a request still to send.
pub open spec fn claimable(stored: StoredResponse) -> bool {
    !is_terminal(stored) && stored.pending_upstream_request is Some
}

/// Whether a worker may claim the stored response.
pub fn is_claimable(stored: &StoredResponse) -> (r: bool)
    ensures
        r == claimable(*stored),
{
    should_persist(stored) && stored.pending_upstream_request.is_some()
}

/// What a worker needs to serve a claimed response.
pub struct ClaimedWork {
    pub upstream: String,
    pub upstream_request: Json,
    pub input: Vec<Json>,
    pub upstream_authorization: Option<String>,
}

/// The work that a claimable stored response holds; none when it is not claimable.
pub fn claimed_work(stored: StoredResponse) -> (r: Option<ClaimedWork>)
    ensures
        match r {
            Some(work) => {
                &&& claimable(stored)
                &&& work.upstream == stored.upstream
                &&& Some(work.upstream_request) == stored.pending_upstream_request
                &&& work.input == stored.input
                &&& work.upstream_authorization == stored.upstream_authorization
            },
            None => !claimable(stored),
        },
{
    if !is_claimable(&stored) {
        return None;
    }
    match stored.pending_upstream_request {
        Some(upstream_request) => Some(
            ClaimedWork {
                upstream: stored.upstream,
                upstream_request,
                input: stored.input,
                upstream_authorization: stored.upstream_authorization,
            },
        ),
        None => None,
    }
}

/// `response` with `status` written into it.
pub fn with_response_status(response: Json, status: &str) -> (r: Json)
    requires
        indexable(response),
    ensures
        r is Object,
        text_field(r, "status"@) == Some(status@),
        same_fields_except(r, response, set!["status"@]),
{
    let value = Json::text(status);
    let ghost v = value;
    let r = response.with_field(owned("status"), value);
    assert(fields(r)["status"@] == v);
    r
}

/// The record a worker writes when it claims a stored response: `in_progress`, with
/// the pending request and the authorization taken out. None when it is not claimable.
pub fn claimed_record(stored: StoredResponse) -> (r: Option<StoredResponse>)
    requires
        claimable(stored) ==> indexable(stored.response),
    ensures
        match r {
            Some(c) => {
                &&& claimable(stored)
                &&& status_of(c) == Some("in_progress"@)
                &&& same_fields_except(c.response, stored.response, set!["status"@])
                &&& c.pending_upstream_request is None
                &&& c.upstream_authorization is None
                &&& c.upstream == stored.upstream
                &&& c.input == stored.input
                &&& c.enqueued_at == stored.enqueued_at
            },
            None => !claimable(stored),
        },
{
    if !is_claimable(&stored) {
        return None;
    }
    Some(
        StoredResponse {
            upstream: stored.upstream,
            response: with_response_status(stored.response, "in_progress"),
            input: stored.input,
            pending_upstream_request: None,
            upstream_authorization: None,
            enqueued_at: stored.enqueued_at,
        },
    )
}

/// The completion to store, keeping the time at which the current record was queued.
pub fn merge_completion(current: &StoredResponse, completion: StoredResponse) -> (r: StoredResponse)
    ensures
        r.upstream == completion.upstream,
        r.response == completion.response,
        r.input == completion.input,
        r.pending_upstream_request == completion.pending_upstream_request,
        r.upstream_authorization == completion.upstream_authorization,
        r.enqueued_at == current.enqueued_at,
{
    StoredResponse { enqueued_at: current.enqueued_at, ..completion }
}

/// The record to write for a completion, given the record the store holds now:
/// nothing when that one was cancelled or deleted meanwhile.
pub fn completion_record(current: &StoredResponse, completion: StoredResponse) -> (r: Option<StoredResponse>)
    ensures
        match r {
            Some(c) => !is_terminal(*current) && c.response == completion.response && c.upstream
                == completion.upstream && c.input == completion.input && c.pending_upstream_request
                == completion.pending_upstream_request && c.upstream_authorization
                == completion.upstream_authorization && c.enqueued_at == current.enqueued_at,
            None => is_terminal(*current),
        },
{
    if !should_persist(current) {
        return None;
    }
    Some(merge_completion(current, completion))
}

/// A `failed` response object: its id, `background: true`, and an error of type
/// `server_error` with `message`.
pub open spec fn is_failed_response(r: Json, response_id: Seq<char>, message: Seq<char>) -> bool {
    &&& r is Object
    &&& fields(r).dom() == set!["id"@, "object"@, "status"@, "background"@, "error"@]
    &&& text_field(r, "id"@) == Some(response_id)
    &&& text_field(r, "object"@) == Some("response"@)
    &&& text_field(r, "status"@) == Some("failed"@)
    &&& field(r, "background"@) == Some(Json::Bool(true))
    &&& field(r, "error"@) matches Some(error) && {
        &&& error is Object
        &&& fields(error).dom() == set!["message"@, "type"@]
        &&& text_field(error, "message"@) == Some(message)
        &&& text_field(error, "type"@) == Some("server_error"@)
    }
}

/// The `failed` response object of `response_id` with error `message`.
pub fn failed_response(response_id: &str, message: &str) -> (r: Json)
    ensures
        is_failed_response(r, response_id@, message@),
{
    proof {
        lemma_response_keys_distinct();
    }
    let message_value = Json::text(message);
    let type_value = Json::text("server_error");
    let ghost (mv, tv) = (message_value, type_value);
    let mut error = JsonObject::new();
    error.insert(owned("message"), message_value);
    error.insert(owned("type"), type_value);
    assert(error@["message"@] == mv);
    assert(error@.dom() =~= set!["message"@, "type"@]);
    let error = Json::Object(error);
    let ghost ev = error;
    let id_value = Json::text(response_id);
    let object_value = Json::text("response");
    let status_value = Json::text("failed");
    let ghost (idv, ov, sv) = (id_value, object_value, status_value);
    let mut o = JsonObject::new();
    o.insert(owned("id"), id_value);
    o.insert(owned("object"), object_value);
    o.insert(owned("status"), status_value);
    o.insert(owned("background"), Json::Bool(true));
    o.insert(owned("error"), error);
    assert(o@["id"@] == idv);
    assert(o@["object"@] == ov);
    assert(o@["status"@] == sv);
    assert(o@["error"@] == ev);
    assert(o@.dom() =~= set!["id"@, "object"@, "status"@, "background"@, "error"@]);
    Json::Object(o)
}

/// The record a worker writes when serving a response failed: the `failed` object in place
/// of the response, no pending request, no authorization. Nothing when the stored
/// response was cancelled or deleted.
pub fn failed_record(stored: StoredResponse, response_id: &str, message: &str) -> (r: Option<StoredResponse>)
    ensures
        match r {
            Some(f) => {
                &&& !is_terminal(stored)
                &&& is_failed_response(f.response, response_id@, message@)
                &&& f.pending_upstream_request is None
                &&& f.upstream_authorization is None
                &&& f.upstream == stored.upstream
                &&& f.input == stored.input
                &&& f.enqueued_at == stored.enqueued_at
            },
            None => is_terminal(stored),
        },
{
    if !should_persist(&stored) {
        return None;
    }
    Some(
        StoredResponse {
            upstream: stored.upstream,
            response: failed_response(response_id, message),
            input: stored.input,
            pending_upstream_request: None,
            upstream_authorization: None,
            enqueued_at: stored.enqueued_at,
        },
    )
}

/// The upstream timeout of a background call in seconds, from
/// `BACKGROUND_UPSTREAM_TIMEOUT_SECONDS`; 600 by default.
pub fn upstream_timeout_secs(value: &Option<String>) -> (r: u64)
    ensures
        r == (match value {
            Some(v) => if unsigned_decimal(v@) is Some && unsigned_decimal(v@)->0 <= u64::MAX {
                unsigned_decimal(v@)->0 as u64
            } else {
                600
            },
            None => 600,
        }),
{
    match value {
        Some(v) => match crate::text::parse_u64(v.as_str()) {
            Some(n) => n,
            None => 600,
        },
        None => 600,
    }
}

/// The URL a background request is posted to.
pub fn responses_url(upstream: &str) -> (url: String)
    ensures
        url@ == upstream@ + "/responses"@,
{
    let mut url = owned(upstream);
    url.push_str("/responses");
    url
}

/// The credentials a background request carries upstream.
#[derive(Debug, PartialEq, Eq)]
pub enum UpstreamAuth {
    /// The client's authorization header, as stored with the request.
    Forwarded(String),
    /// The gateway's own API key, as a bearer token.
    Bearer(String),
    /// None.
    Anonymous,
}

/// The stored authorization wins over the worker's API key.
pub fn upstream_auth(stored_authorization: Option<String>, api_key: Option<String>) -> (r: UpstreamAuth)
    ensures
        r == (match stored_authorization {
            Some(a) => UpstreamAuth::Forwarded(a),
            None => match api_key {
                Some(k) => UpstreamAuth::Bearer(k),
                None => UpstreamAuth::Anonymous,
            },
        }),
{
    match stored_authorization {
        Some(a) => UpstreamAuth::Forwarded(a),
        None => match api_key {
            Some(k) => UpstreamAuth::Bearer(k),
            None => UpstreamAuth::Anonymous,
        },
    }
}

/// The upstream response object as it is stored: with the background response's id,
/// `background: true`, and status `completed` where upstream gave none.
pub fn normalize_completion(response: Json, response_id: &str) -> (r: Json)
    requires
        indexable(response),
    ensures
        r is Object,
        text_field(r, "id"@) == Some(response_id@),
        field(r, "background"@) == Some(Json::Bool(true)),
        field(response, "status"@) is Some ==> field(r, "status"@) == field(response, "status"@),
        field(response, "status"@) is None ==> text_field(r, "status"@) == Some("completed"@),
        same_fields_except(r, response, set!["id"@, "background"@, "status"@]),
{
    proof {
        lemma_response_keys_distinct();
    }
    let id_value = Json::text(response_id);
    let ghost idv = id_value;
    let r = response.with_field(owned("id"), id_value);
    let r = r.with_field(owned("background"), Json::Bool(true));
    assert(fields(r)["id"@] == idv);
    if r.get("status").is_none() {
        let status_value = Json::text("completed");
        let ghost sv = status_value;
        let r = r.with_field(owned("status"), status_value);
        assert(fields(r)["status"@] == sv);
        assert(fields(r)["id"@] == idv);
        r
    } else {
        r
    }
}

/// How the upstream call of a background response ended, as the worker observed it.
pub enum UpstreamReply {
    /// The request could not be sent; the error's text.
    SendFailed(String),
    /// The body could not be read; the error's text.
    BodyUnreadable(String),
    /// A status other than success; the body read as UTF-8, invalid sequences replaced.
    Rejected(String),
    /// A success status; the body parsed as JSON, none where it is not JSON.
    Accepted(Option<Json>),
}

/// What the worker records after the upstream call.
pub enum CompletionStep {
    /// Mark the response failed with this message.
    MarkFailed(String),
    /// Store this completed response object.
    StoreCompletion(Json),
}

/// The record that follows an upstream reply.
pub fn completion_step(response_id: &str, reply: UpstreamReply) -> (r: CompletionStep)
    requires
        reply matches UpstreamReply::Accepted(Some(body)) ==> indexable(body),
    ensures
        match reply {
            UpstreamReply::SendFailed(e) => r matches CompletionStep::MarkFailed(m) && m@ == e@,
            UpstreamReply::BodyUnreadable(e) => r matches CompletionStep::MarkFailed(m) && m@
                == "failed to read upstream background response body: "@ + e@,
            UpstreamReply::Rejected(body) => r matches CompletionStep::MarkFailed(m) && m@ == body@,
            UpstreamReply::Accepted(None) => r matches CompletionStep::MarkFailed(m) && m@
                == "upstream returned invalid JSON"@,
            UpstreamReply::Accepted(Some(body)) => r matches CompletionStep::StoreCompletion(c) && {
                &&& c is Object
                &&& text_field(c, "id"@) == Some(response_id@)
                &&& field(c, "background"@) == Some(Json::Bool(true))
                &&& field(body, "status"@) is Some ==> field(c, "status"@) == field(body, "status"@)
                &&& field(body, "status"@) is None ==> text_field(c, "status"@) == Some("completed"@)
                &&& same_fields_except(c, body, set!["id"@, "background"@, "status"@])
            },
        },
{
    match reply {
        UpstreamReply::SendFailed(e) => CompletionStep::MarkFailed(e),
        UpstreamReply::BodyUnreadable(e) => {
            let mut m = owned("failed to read upstream background response body: ");
            m.push_str(e.as_str());
            CompletionStep::MarkFailed(m)
        },
        UpstreamReply::Rejected(body) => CompletionStep::MarkFailed(body),
        UpstreamReply::Accepted(None) => CompletionStep::MarkFailed(owned("upstream returned invalid JSON")),
        UpstreamReply::Accepted(Some(body)) => CompletionStep::StoreCompletion(normalize_completion(body, response_id)),
    }
}

/// The completed record of a claimed response: the upstream object, with the claimed
/// input, and nothing pending.
pub fn completed_record(work_upstream: String, work_input: Vec<Json>, response: Json) -> (r: StoredResponse)
    ensures
        r.upstream == work_upstream,
        r.response == response,
        r.input == work_input,
        r.pending_upstream_request is None,
        r.upstream_authorization is None,
        r.enqueued_at is None,
{
    StoredResponse {
        upstream: work_upstream,
        response,
        input: work_input,
        pending_upstream_request: None,
        upstream_authorization: None,
        enqueued_at: None,
    }
}

} // verus!
