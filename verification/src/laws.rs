//! Properties that hold across the library's functions.
use vstd::prelude::*;

use crate::common::{
    bool_setting, in_flight, is_response_id, job_name_char, job_name_of, response_id_in, status_of, strip_response_prefixes, StoredResponse,
};
use crate::gateway::{is_tombstone_response, next_enqueue_step, reconcilable, stale, EnqueueEvent, EnqueueStep};
use crate::json::{text_field, Json};
use crate::queue::{
    entry_message, entry_response_id, default_autoclaim_ms, invalid_ids_of, messages_of, next_retry_step, saturating_product, MessageResult,
    RetryEvent, RetryStep, StreamEntry,
};
use crate::retry::{are_due_ids, is_due, retry_time, PendingRetryEntry};
use crate::text::ascii_lowercase;
use crate::worker::{claimable, is_terminal};

verus! {

/// Whatever id the gateway finds in a response object is a Responses API id.
pub proof fn law_found_ids_are_response_ids(value: Json)
    ensures
        response_id_in(value) matches Some(id) ==> is_response_id(id),
{
}

/// A response object whose `id` is a Responses API id, such as one that
/// `generate_response_id` made, is stored under that id.
pub proof fn law_response_object_id_is_found(value: Json, id: Seq<char>)
    requires
        text_field(value, "id"@) == Some(id),
        is_response_id(id),
    ensures
        response_id_in(value) == Some(id),
{
}

/// The members of the request sent upstream for a background response.
pub open spec fn upstream_request_fields(m: Map<Seq<char>, Json>) -> Map<Seq<char>, Json> {
    m.remove("background"@).remove("previous_response_id"@).insert("store"@, Json::Bool(false))
}

/// Stripping a client request for upstream is idempotent, and leaves neither `background`
/// nor `previous_response_id`, with `store` false.
pub proof fn law_upstream_request_is_stateless(m: Map<Seq<char>, Json>)
    ensures
        upstream_request_fields(upstream_request_fields(m)) == upstream_request_fields(m),
        !upstream_request_fields(m).contains_key("background"@),
        !upstream_request_fields(m).contains_key("previous_response_id"@),
        upstream_request_fields(m)["store"@] == Json::Bool(false),
{
    reveal_strlit("background");
    reveal_strlit("previous_response_id");
    reveal_strlit("store");
    assert("store"@.len() == 5);
    assert("background"@.len() == 10);
    assert("previous_response_id"@.len() == 20);
    assert("store"@ != "background"@);
    assert("store"@ != "previous_response_id"@);
    assert(upstream_request_fields(upstream_request_fields(m)) =~= upstream_request_fields(m));
}

/// A cancelled or deleted response is never claimed by a worker.
pub proof fn law_terminal_responses_are_not_claimed(stored: StoredResponse)
    requires
        is_terminal(stored),
    ensures
        !claimable(stored),
{
}

/// A response that a worker has claimed, now `in_progress` with no pending request,
/// cannot be claimed a second time, and still counts as in flight.
pub proof fn law_claimed_response_is_claimed_once(claimed: StoredResponse)
    requires
        status_of(claimed) == Some("in_progress"@),
        claimed.pending_upstream_request is None,
    ensures
        !claimable(claimed),
        in_flight(claimed),
{
}

/// A cancelled response, as `build_cancelled_response` writes it, is terminal: workers
/// neither claim it nor overwrite it with their results.
pub proof fn law_cancelled_responses_are_terminal(stored: StoredResponse)
    requires
        text_field(stored.response, "status"@) == Some("cancelled"@),
    ensures
        is_terminal(stored),
        !claimable(stored),
{
}

/// The tombstone of a deleted background response is terminal and no longer in flight.
pub proof fn law_tombstones_are_terminal(stored: StoredResponse, response_id: Seq<char>)
    requires
        is_tombstone_response(stored.response, response_id),
        stored.pending_upstream_request is None,
    ensures
        is_terminal(stored),
        !in_flight(stored),
        !claimable(stored),
        status_of(stored) == Some("deleted"@),
{
    reveal_strlit("queued");
    reveal_strlit("in_progress");
    reveal_strlit("deleted");
    assert("deleted"@.len() == 7);
    assert("queued"@.len() == 6);
    assert("deleted"@ != "queued"@);
    assert("deleted"@[0] != "in_progress"@[0]);
}

/// A queued response that a worker has not yet claimed is in flight, so that deleting it
/// leaves a tombstone.
pub proof fn law_queued_responses_are_in_flight(stored: StoredResponse)
    requires
        stored.pending_upstream_request is Some,
    ensures
        in_flight(stored),
{
}

/// Only in-flight queued responses are reconciled as stale.
pub proof fn law_reconciled_responses_are_queued(stored: StoredResponse)
    requires
        reconcilable(stored),
    ensures
        in_flight(stored),
        status_of(stored) == Some("queued"@),
{
}

/// A response that is stale stays stale as time goes on; one with no queue time never is.
pub proof fn law_staleness_is_monotone(enqueued_at: Option<i64>, now: i64, later: i64, stale_seconds: i64)
    requires
        now <= later,
    ensures
        stale(enqueued_at, now, stale_seconds) ==> stale(enqueued_at, later, stale_seconds),
        stale(None, now, stale_seconds) == false,
{
}

/// With the default autoclaim idle time, a call in progress is never claimed by another
/// consumer before its upstream timeout.
pub proof fn law_default_autoclaim_outlasts_upstream_timeout(upstream_timeout_seconds: usize)
    ensures
        default_autoclaim_ms(upstream_timeout_seconds) >= saturating_product(upstream_timeout_seconds, 1000),
{
    let t = upstream_timeout_seconds as int;
    let s: usize = if t + 120 <= usize::MAX { (t + 120) as usize } else { usize::MAX };
    assert(s >= t);
    assert(s * 1000 >= t * 1000) by (nonlinear_arith)
        requires
            s >= t,
            t >= 0,
    ;
}

/// Every stream entry becomes either a message or an invalid id, never both.
pub proof fn law_stream_entries_are_partitioned(entries: Seq<StreamEntry>)
    ensures
        messages_of(entries).len() + invalid_ids_of(entries).len() == entries.len(),
    decreases entries.len(),
{
    if entries.len() > 0 {
        law_stream_entries_are_partitioned(entries.drop_last());
    }
}

/// A retry scheduled for a time still to come is not due now, and a removed retry is
/// never due.
pub proof fn law_retries_honor_their_backoff(
    schedule: Map<Seq<char>, PendingRetryEntry>,
    stream_id: Seq<char>,
    entry: PendingRetryEntry,
    now: u128,
)
    requires
        now < entry.retry_at,
    ensures
        !is_due(schedule.insert(stream_id, entry), stream_id, now),
        !is_due(schedule.remove(stream_id), stream_id, now),
{
}

/// A retry scheduled at `now` with a backoff of `backoff_secs` seconds comes due exactly
/// once the clock has reached `now` plus the backoff, or its last value where that sum
/// passes it: with a zero backoff it is due at once, with a positive one not before.
pub proof fn law_retry_is_due_after_its_backoff(
    schedule: Map<Seq<char>, PendingRetryEntry>,
    stream_id: Seq<char>,
    response_id: String,
    now: u128,
    backoff_secs: u64,
    at: u128,
)
    ensures
        is_due(
            schedule.insert(stream_id, PendingRetryEntry { response_id, retry_at: retry_time(now, backoff_secs) }),
            stream_id,
            at,
        ) <==> (at >= now + backoff_secs * 1_000_000_000 || at == u128::MAX),
{
}

/// Scheduling a retry adds one to the number of scheduled retries where its stream id
/// had none, and leaves the number as it was where it replaces one.
pub proof fn law_scheduling_keeps_one_retry_per_id(
    schedule: Map<Seq<char>, PendingRetryEntry>,
    stream_id: Seq<char>,
    entry: PendingRetryEntry,
)
    requires
        schedule.dom().finite(),
    ensures
        schedule.insert(stream_id, entry).dom().finite(),
        schedule.insert(stream_id, entry).dom().len() == if schedule.contains_key(stream_id) {
            schedule.dom().len()
        } else {
            schedule.dom().len() + 1
        },
{
    assert(schedule.insert(stream_id, entry).dom() =~= schedule.dom().insert(stream_id));
}

/// A retry that is due stays due as time goes on.
pub proof fn law_due_retries_stay_due(
    schedule: Map<Seq<char>, PendingRetryEntry>,
    stream_id: Seq<char>,
    now: u128,
    later: u128,
)
    requires
        now <= later,
        is_due(schedule, stream_id, now),
    ensures
        is_due(schedule, stream_id, later),
{
}

/// A background job name starts with `duihua-bg-`, has at most 63 characters, and
/// after that prefix holds only lower-case ASCII letters, digits and hyphens.
pub proof fn law_job_names_are_valid(response_id: Seq<char>)
    ensures
        "duihua-bg-"@.is_prefix_of(job_name_of(response_id)),
        job_name_of(response_id).len() <= 63,
        forall|i: int|
            10 <= i < job_name_of(response_id).len() ==> {
                let c = #[trigger] job_name_of(response_id)[i];
                ('a' <= c && c <= 'z') || ('0' <= c && c <= '9') || c == '-'
            },
{
    reveal_strlit("duihua-bg-");
    let stripped = strip_response_prefixes(response_id);
    let full = "duihua-bg-"@ + stripped.map_values(|c: char| job_name_char(c));
    assert("duihua-bg-"@ =~= full.subrange(0, 10));
    assert forall|i: int| 10 <= i < full.len() implies {
        let c = #[trigger] full[i];
        ('a' <= c && c <= 'z') || ('0' <= c && c <= '9') || c == '-'
    } by {
        let c = stripped[i - 10];
        assert(full[i] == job_name_char(c));
    }
    if full.len() > 63 {
        assert("duihua-bg-"@ =~= full.take(63).subrange(0, 10));
    }
}

/// Boolean settings read the same in any ASCII case.
pub proof fn law_bool_settings_ignore_case(value: Seq<char>, default: bool)
    ensures
        bool_setting(Some(value), default) == bool_setting(Some(ascii_lowercase(value)), default),
{
    assert(ascii_lowercase(ascii_lowercase(value)) =~= ascii_lowercase(value));
}

/// Queueing a background response answers success only once its id is on the stream,
/// puts nothing on the stream before the record is stored, and once the record is
/// stored, answers no error without deleting the record first.
pub proof fn law_queued_records_reach_the_stream(event: EnqueueEvent)
    ensures
        (next_enqueue_step(event) == EnqueueStep::Done(Ok(()))) <==> (event == EnqueueEvent::Enqueued(true)),
        event is Begin ==> next_enqueue_step(event) != EnqueueStep::Enqueue,
        (event is QueueChecked || event is Enqueued) ==> !(next_enqueue_step(event) matches EnqueueStep::Done(Err(_))),
{
}

/// A due retry leaves the schedule only once its entry was handled, or, gone from the
/// stream, was acknowledged; a retry whose handling did not succeed is scheduled again.
pub proof fn law_retries_leave_only_when_done(event: RetryEvent)
    ensures
        (next_retry_step(event) == RetryStep::Remove) <==> (event == RetryEvent::Handled(MessageResult::Handled)
            || event == RetryEvent::MissingAcked(true)),
        (event is Handled && event != RetryEvent::Handled(MessageResult::Handled)) ==> next_retry_step(event)
            == RetryStep::Reschedule,
{
}

/// A stored response is claimable exactly when it holds a pending upstream request and
/// its status is neither `cancelled` nor `deleted`, whatever else its response object
/// holds: a queued record with a request to send is always claimed.
pub proof fn law_claimable_exactly_when_pending_and_live(stored: StoredResponse)
    ensures
        claimable(stored) <==> (stored.pending_upstream_request is Some
            && text_field(stored.response, "status"@) != Some("cancelled"@)
            && text_field(stored.response, "status"@) != Some("deleted"@)),
{
}

/// A stored response is in flight exactly when it holds a pending upstream request or
/// its status is `queued` or `in_progress`; with no pending request and any other status,
/// such as `cancelled`, it is not, and is deleted rather than tombstoned.
pub proof fn law_in_flight_exactly_when_pending_or_running(stored: StoredResponse)
    ensures
        in_flight(stored) <==> (stored.pending_upstream_request is Some
            || text_field(stored.response, "status"@) == Some("queued"@)
            || text_field(stored.response, "status"@) == Some("in_progress"@)),
{
}

/// A stored response is reconciled as stale exactly when its status is `queued`,
/// whatever else its response object holds.
pub proof fn law_queued_responses_are_reconcilable(stored: StoredResponse)
    ensures
        reconcilable(stored) <==> text_field(stored.response, "status"@) == Some("queued"@),
{
}

/// An entry yields a message exactly when it carries a response id, and the message is
/// that id under the entry's own stream id.
pub proof fn law_entry_message_carries_its_response_id(entry: StreamEntry)
    ensures
        (entry_message(entry) is Some) <==> (entry_response_id(entry) is Some),
        entry_message(entry) matches Some(m) ==> m.stream_id == entry.id
            && Some(m.response_id) == entry_response_id(entry),
{
}

/// Splitting stream entries keeps, in entry order, the message of every entry that
/// carries a response id, and, in entry order, the id of every entry that carries none:
/// no entry with a response id is dropped or acknowledged as malformed.
pub proof fn law_stream_entries_split_by_response_id(entries: Seq<StreamEntry>)
    ensures
        messages_of(entries) == entries.filter_map(|e: StreamEntry| entry_message(e)),
        invalid_ids_of(entries) == entries.filter_map(
            |e: StreamEntry| if entry_message(e) is Some { None::<String> } else { Some(e.id) },
        ),
    decreases entries.len(),
{
    if entries.len() > 0 {
        law_stream_entries_split_by_response_id(entries.drop_last());
        assert(messages_of(entries) =~= entries.filter_map(|e: StreamEntry| entry_message(e)));
        assert(invalid_ids_of(entries) =~= entries.filter_map(
            |e: StreamEntry| if entry_message(e) is Some { None::<String> } else { Some(e.id) },
        ));
    }
}

/// A retry scheduled at the clock reading `scheduled_at` with a backoff of
/// `backoff_secs` seconds is listed among the due retries at any later reading `later`
/// exactly when `later` has reached the reading plus the backoff (or the clock's last
/// value): with no backoff it is listed at the next query; with a backoff it is not
/// listed before the backoff has passed.
pub proof fn law_scheduled_retry_is_listed_after_its_backoff(
    schedule: Map<Seq<char>, PendingRetryEntry>,
    stream_id: Seq<char>,
    response_id: String,
    scheduled_at: u128,
    backoff_secs: u64,
    later: u128,
    ids: Seq<String>,
)
    requires
        scheduled_at <= later,
        are_due_ids(
            ids,
            schedule.insert(stream_id, PendingRetryEntry { response_id, retry_at: retry_time(scheduled_at, backoff_secs) }),
            later,
        ),
    ensures
        (exists|i: int| 0 <= i < ids.len() && #[trigger] ids[i]@ == stream_id) <==> (later >= scheduled_at
            + backoff_secs * 1_000_000_000 || later == u128::MAX),
        backoff_secs == 0 ==> exists|i: int| 0 <= i < ids.len() && #[trigger] ids[i]@ == stream_id,
{
    let m = schedule.insert(stream_id, PendingRetryEntry { response_id, retry_at: retry_time(scheduled_at, backoff_secs) });
    if exists|i: int| 0 <= i < ids.len() && #[trigger] ids[i]@ == stream_id {
        let i = choose|i: int| 0 <= i < ids.len() && #[trigger] ids[i]@ == stream_id;
        assert(is_due(m, ids[i]@, later));
    }
    if later >= scheduled_at + backoff_secs * 1_000_000_000 || later == u128::MAX {
        assert(is_due(m, stream_id, later));
    }
}

} // verus!
