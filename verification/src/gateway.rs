//! The gateway's side of background responses and of the response store: when a
//! queued response has gone stale, what a deletion leaves behind, which errors
//! clients see, and which responses are stored.
use vstd::prelude::*;

use crate::common::{
    has_status, in_flight, is_in_flight_background, lemma_response_keys_distinct, parse_bool_setting,
    bool_setting, response_id_from_value, response_id_in, status_of, StoredResponse,
};
use crate::json::{field, fields, text_field, Json, JsonObject};
use crate::text::{opt_text, owned, parse_i64, signed_decimal};
use crate::worker::{failed_response, is_failed_response};

verus! {

/// A queued response that the gateway may mark failed once it has waited too long.
pub open spec fn reconcilable(stored: StoredResponse) -> bool {
    in_flight(stored) && status_of(stored) == Some("queued"@)
}

/// Whether the stored response is a queued background response.
pub fn should_reconcile_stale(stored: &StoredResponse) -> (r: bool)
    ensures
        r == reconcilable(*stored),
{
    is_in_flight_background(stored) && has_status(stored, "queued")
}

/// `a - b`, held within the range of `i64`.
pub open spec fn saturating_difference(a: i64, b: i64) -> i64 {
    if a - b > i64::MAX {
        i64::MAX
    } else if a - b < i64::MIN {
        i64::MIN
    } else {
        (a - b) as i64
    }
}

/// A response queued at `enqueued_at` has waited at least `stale_seconds` at `now`.
/// One with no queue time is never stale.
pub open spec fn stale(enqueued_at: Option<i64>, now: i64, stale_seconds: i64) -> bool {
    match enqueued_at {
        Some(t) => saturating_difference(now, t) >= stale_seconds,
        None => false,
    }
}

/// Whether a response queued at `enqueued_at` is stale at `now`.
pub fn is_stale_enqueued(enqueued_at: Option<i64>, now: i64, stale_seconds: i64) -> (r: bool)
    ensures
        r == stale(enqueued_at, now, stale_seconds),
{
    match enqueued_at {
        Some(t) => {
            let d = (now as i128) - (t as i128);
            let waited: i64 = if d > i64::MAX as i128 {
                i64::MAX
            } else if d < i64::MIN as i128 {
                i64::MIN
            } else {
                d as i64
            };
            waited >= stale_seconds
        },
        None => false,
    }
}

/// What the gateway does with a stored response it reads back.
pub enum StaleCheck {
    /// Return it as it is.
    Fresh(StoredResponse),
    /// Store it, now failed as stale, and return it.
    MarkedFailed(StoredResponse),
}

/// The error message of a background response that went stale.
pub open spec fn stale_message() -> Seq<char> {
    "background response stale"@
}

/// A queued response that has gone stale becomes `failed`, without its pending request
/// and authorization; any other stays as it is.
pub fn reconcile_stale(stored: StoredResponse, response_id: &str, now: i64, stale_seconds: i64) -> (r: StaleCheck)
    ensures
        match r {
            StaleCheck::Fresh(s) => s == stored && !(reconcilable(stored) && stale(stored.enqueued_at, now, stale_seconds)),
            StaleCheck::MarkedFailed(f) => {
                &&& reconcilable(stored) && stale(stored.enqueued_at, now, stale_seconds)
                &&& is_failed_response(f.response, response_id@, stale_message())
                &&& f.pending_upstream_request is None
                &&& f.upstream_authorization is None
                &&& f.upstream == stored.upstream
                &&& f.input == stored.input
                &&& f.enqueued_at == stored.enqueued_at
            },
        },
{
    if !should_reconcile_stale(&stored) {
        return StaleCheck::Fresh(stored);
    }
    if !is_stale_enqueued(stored.enqueued_at, now, stale_seconds) {
        return StaleCheck::Fresh(stored);
    }
    StaleCheck::MarkedFailed(
        StoredResponse {
            upstream: stored.upstream,
            response: failed_response(response_id, "background response stale"),
            input: stored.input,
            pending_upstream_request: None,
            upstream_authorization: None,
            enqueued_at: stored.enqueued_at,
        },
    )
}

/// Where the gateway queues background responses, and when it gives up on them.
pub struct BackgroundQueueConfig {
    pub url: String,
    pub stream_key: String,
    pub stale_seconds: i64,
}

/// The queue settings from `RESPONSES_BACKGROUND_ENABLED`, `RESPONSE_ID_STORE_URL`,
/// `BACKGROUND_QUEUE_STREAM_KEY` and `BACKGROUND_RESPONSE_STALE_SECONDS`: none unless
/// background responses are enabled.
pub fn background_queue_config(
    enabled: Option<&str>,
    url: Option<&str>,
    stream_key: Option<&str>,
    stale_seconds: Option<&str>,
) -> (r: Option<BackgroundQueueConfig>)
    ensures
        r is Some == bool_setting(
            match enabled {
                Some(v) => Some(v@),
                None => None,
            },
            false,
        ),
        r matches Some(c) ==> {
            &&& c.url@ == (match url { Some(u) => u@, None => "redis://valkey:6379"@ })
            &&& c.stream_key@ == (match stream_key { Some(k) => k@, None => "duihua:responses:background"@ })
            &&& c.stale_seconds == (match stale_seconds {
                Some(s) => if signed_decimal(s@) is Some && i64::MIN <= signed_decimal(s@)->0 <= i64::MAX {
                    signed_decimal(s@)->0 as i64
                } else {
                    3600
                },
                None => 3600,
            })
        },
{
    if !parse_bool_setting(enabled, false) {
        return None;
    }
    let url = match url {
        Some(u) => owned(u),
        None => owned("redis://valkey:6379"),
    };
    let stream_key = match stream_key {
        Some(k) => owned(k),
        None => owned("duihua:responses:background"),
    };
    let stale_seconds = match stale_seconds {
        Some(s) => match parse_i64(s) {
            Some(v) => v,
            None => 3600,
        },
        None => 3600,
    };
    Some(BackgroundQueueConfig { url, stream_key, stale_seconds })
}

/// What the gateway answers a client when the response store or the queue fails it.
#[derive(Debug, PartialEq, Eq)]
pub enum GatewayError {
    /// The response is unknown, deleted, or the store is disabled.
    NotFound,
    /// The store is enabled but not configured.
    StoreUnavailable,
    /// Writing a queued response failed.
    StoreWriteFailed,
    /// Background responses need the queue, which is not configured.
    QueueUnavailable,
    /// Adding the response to the queue failed.
    EnqueueFailed,
    /// Writing the tombstone of a deleted background response failed.
    TombstoneWriteFailed,
    /// Deleting a stored response failed.
    DeleteFailed,
    /// Reading the store failed.
    ReadFailed,
}

impl GatewayError {
    /// The HTTP status of the error.
    pub fn status_code(&self) -> (code: u16)
        ensures
            code == (match self {
                GatewayError::NotFound => 404u16,
                GatewayError::QueueUnavailable => 503u16,
                _ => 502u16,
            }),
    {
        match self {
            GatewayError::NotFound => 404,
            GatewayError::QueueUnavailable => 503,
            _ => 502,
        }
    }

    /// The plain-text body of the error; none for an unknown response, whose body names it.
    pub fn message(&self) -> (m: Option<String>)
        ensures
            opt_text(m) == (match self {
                GatewayError::NotFound => None,
                GatewayError::StoreUnavailable => Some("response id store unavailable"@),
                GatewayError::StoreWriteFailed => Some("response id store write failed"@),
                GatewayError::QueueUnavailable => Some("background responses require queue support"@),
                GatewayError::EnqueueFailed => Some("failed to enqueue background response"@),
                GatewayError::TombstoneWriteFailed => Some("response store write failed"@),
                GatewayError::DeleteFailed => Some("response store delete failed"@),
                GatewayError::ReadFailed => Some("response id store read failed"@),
            }),
    {
        match self {
            GatewayError::NotFound => None,
            GatewayError::StoreUnavailable => Some(owned("response id store unavailable")),
            GatewayError::StoreWriteFailed => Some(owned("response id store write failed")),
            GatewayError::QueueUnavailable => Some(owned("background responses require queue support")),
            GatewayError::EnqueueFailed => Some(owned("failed to enqueue background response")),
            GatewayError::TombstoneWriteFailed => Some(owned("response store write failed")),
            GatewayError::DeleteFailed => Some(owned("response store delete failed")),
            GatewayError::ReadFailed => Some(owned("response id store read failed")),
        }
    }
}


/// The record the gateway stores for a background request it queues.
pub fn queued_record(
    upstream: String,
    queued_response: Json,
    input: Vec<Json>,
    upstream_request: Json,
    upstream_authorization: Option<String>,
    enqueued_at: i64,
) -> (r: StoredResponse)
    ensures
        r.upstream == upstream,
        r.response == queued_response,
        r.input == input,
        r.pending_upstream_request == Some(upstream_request),
        r.upstream_authorization == upstream_authorization,
        r.enqueued_at == Some(enqueued_at),
{
    StoredResponse {
        upstream,
        response: queued_response,
        input,
        pending_upstream_request: Some(upstream_request),
        upstream_authorization,
        enqueued_at: Some(enqueued_at),
    }
}

/// What the gateway learned at the last stage of queueing a background response.
#[derive(Debug, PartialEq, Eq)]
pub enum EnqueueEvent {
    /// Queueing begins; whether a response store is configured.
    Begin { store_configured: bool },
    /// Whether the queued record was written to the store.
    RecordWritten(bool),
    /// Whether the background queue is configured.
    QueueChecked(bool),
    /// Whether the response id was added to the queue's stream.
    Enqueued(bool),
}

/// What the gateway does next to queue a background response.
#[derive(Debug, PartialEq, Eq)]
pub enum EnqueueStep {
    /// Write the queued record to the store.
    WriteRecord,
    /// Add the response id to the queue's stream, where the queue is configured.
    Enqueue,
    /// Delete the record written before, then answer the client with the error.
    DeleteRecordThenFail(GatewayError),
    /// Answer the client: the response is queued, or the error.
    Done(Result<(), GatewayError>),
}

/// The step that follows `event` in queueing a background response. The record is
/// stored first and only then put on the stream; where the queue is missing or refuses
/// the id, the stored record is deleted again, so that no queued response is left that
/// no worker will ever take.
pub open spec fn next_enqueue_step(event: EnqueueEvent) -> EnqueueStep {
    match event {
        EnqueueEvent::Begin { store_configured } => if store_configured {
            EnqueueStep::WriteRecord
        } else {
            EnqueueStep::Done(Err(GatewayError::StoreUnavailable))
        },
        EnqueueEvent::RecordWritten(written) => if written {
            EnqueueStep::Enqueue
        } else {
            EnqueueStep::Done(Err(GatewayError::StoreWriteFailed))
        },
        EnqueueEvent::QueueChecked(present) => if present {
            EnqueueStep::Enqueue
        } else {
            EnqueueStep::DeleteRecordThenFail(GatewayError::QueueUnavailable)
        },
        EnqueueEvent::Enqueued(added) => if added {
            EnqueueStep::Done(Ok(()))
        } else {
            EnqueueStep::DeleteRecordThenFail(GatewayError::EnqueueFailed)
        },
    }
}

/// The next step of queueing a background response after `event`.
pub fn enqueue_next(event: EnqueueEvent) -> (s: EnqueueStep)
    ensures
        s == next_enqueue_step(event),
{
    match event {
        EnqueueEvent::Begin { store_configured } => if store_configured {
            EnqueueStep::WriteRecord
        } else {
            EnqueueStep::Done(Err(GatewayError::StoreUnavailable))
        },
        EnqueueEvent::RecordWritten(written) => if written {
            EnqueueStep::Enqueue
        } else {
            EnqueueStep::Done(Err(GatewayError::StoreWriteFailed))
        },
        EnqueueEvent::QueueChecked(present) => if present {
            EnqueueStep::Enqueue
        } else {
            EnqueueStep::DeleteRecordThenFail(GatewayError::QueueUnavailable)
        },
        EnqueueEvent::Enqueued(added) => if added {
            EnqueueStep::Done(Ok(()))
        } else {
            EnqueueStep::DeleteRecordThenFail(GatewayError::EnqueueFailed)
        },
    }
}

/// How the gateway deletes a stored response.
#[derive(Debug, PartialEq, Eq)]
pub enum DeletionAction {
    /// A background response in flight is overwritten by a tombstone, so that its worker
    /// leaves it alone.
    Tombstone,
    /// Any other is removed from the store.
    Delete,
}

/// In-flight background responses are tombstoned; others are deleted.
pub fn deletion_action(stored: &StoredResponse) -> (r: DeletionAction)
    ensures
        (r == DeletionAction::Tombstone) == in_flight(*stored),
{
    if is_in_flight_background(stored) {
        DeletionAction::Tombstone
    } else {
        DeletionAction::Delete
    }
}

/// The response object of a deleted background response.
pub open spec fn is_tombstone_response(r: Json, response_id: Seq<char>) -> bool {
    &&& r is Object
    &&& fields(r).dom() == set!["id"@, "object"@, "status"@, "background"@, "deleted"@]
    &&& text_field(r, "id"@) == Some(response_id)
    &&& text_field(r, "object"@) == Some("response"@)
    &&& text_field(r, "status"@) == Some("deleted"@)
    &&& field(r, "background"@) == Some(Json::Bool(true))
    &&& field(r, "deleted"@) == Some(Json::Bool(true))
}

/// The tombstone of a deleted background response: status `deleted`, no pending
/// request, no authorization.
pub fn tombstone_record(stored: StoredResponse, response_id: &str) -> (r: StoredResponse)
    ensures
        is_tombstone_response(r.response, response_id@),
        r.pending_upstream_request is None,
        r.upstream_authorization is None,
        r.upstream == stored.upstream,
        r.input == stored.input,
        r.enqueued_at == stored.enqueued_at,
{
    proof {
        lemma_response_keys_distinct();
    }
    let id_value = Json::text(response_id);
    let object_value = Json::text("response");
    let status_value = Json::text("deleted");
    let ghost (idv, ov, sv) = (id_value, object_value, status_value);
    let mut o = JsonObject::new();
    o.insert(owned("id"), id_value);
    o.insert(owned("object"), object_value);
    o.insert(owned("status"), status_value);
    o.insert(owned("background"), Json::Bool(true));
    o.insert(owned("deleted"), Json::Bool(true));
    assert(o@["id"@] == idv);
    assert(o@["object"@] == ov);
    assert(o@["status"@] == sv);
    assert(o@.dom() =~= set!["id"@, "object"@, "status"@, "background"@, "deleted"@]);
    StoredResponse {
        upstream: stored.upstream,
        response: Json::Object(o),
        input: stored.input,
        pending_upstream_request: None,
        upstream_authorization: None,
        enqueued_at: stored.enqueued_at,
    }
}

/// A stored response that clients can read: any but a deleted one.
pub fn is_visible(stored: &StoredResponse) -> (r: bool)
    ensures
        r == (status_of(*stored) != Some("deleted"@)),
{
    !has_status(stored, "deleted")
}

/// Where the store stands for a request that reads it.
pub fn store_readiness(store_enabled: bool, store_configured: bool) -> (r: Result<(), GatewayError>)
    ensures
        r == (if !store_enabled {
            Err::<(), GatewayError>(GatewayError::NotFound)
        } else if !store_configured {
            Err(GatewayError::StoreUnavailable)
        } else {
            Ok(())
        }),
{
    if !store_enabled {
        Err(GatewayError::NotFound)
    } else if !store_configured {
        Err(GatewayError::StoreUnavailable)
    } else {
        Ok(())
    }
}

/// The key and record under which a completed response is stored: none when the
/// response carries no Responses API id.
pub fn record_for_storage(upstream: String, response: Json, input: Vec<Json>) -> (r: Option<(String, StoredResponse)>)
    ensures
        match r {
            Some((id, s)) => {
                &&& response_id_in(response) == Some(id@)
                &&& s.upstream == upstream
                &&& s.response == response
                &&& s.input == input
                &&& s.pending_upstream_request is None
                &&& s.upstream_authorization is None
                &&& s.enqueued_at is None
            },
            None => response_id_in(response) is None,
        },
{
    match response_id_from_value(&response) {
        Some(id) => Some(
            (
                id,
                StoredResponse {
                    upstream,
                    response,
                    input,
                    pending_upstream_request: None,
                    upstream_authorization: None,
                    enqueued_at: None,
                },
            ),
        ),
        None => None,
    }
}

} // verus!
