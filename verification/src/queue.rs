//! The background worker's queue: its settings, how stream entries become messages,
//! and what the consumer loop does after each Redis reply.
use vstd::prelude::*;

use crate::text::{contains_text, occurs_in, owned, ascii_lowercase, parse_usize, same_text, to_ascii_lowercase, unsigned_decimal};

verus! {

/// A queued request to complete one background response.
#[derive(Clone, Debug, PartialEq, Eq)]
pub struct QueueMessage {
    /// The stream entry id, used to acknowledge the entry.
    pub stream_id: String,
    /// The response to complete.
    pub response_id: String,
    /// Milliseconds since the entry was last delivered, when Redis reported it.
    pub idle_ms: Option<u64>,
}

/// A stream entry as the consumer reads it: its id, each field with the string its
/// value reads as (none where the value does not read as a string), and the
/// milliseconds since the entry was last delivered.
pub struct StreamEntry {
    pub id: String,
    pub fields: Vec<(String, Option<String>)>,
    pub milliseconds_elapsed_from_delivery: Option<usize>,
}

/// The string that the first field named `key` reads as.
pub open spec fn field_text(fields: Seq<(String, Option<String>)>, key: Seq<char>) -> Option<String>
    decreases fields.len(),
{
    if fields.len() == 0 {
        None
    } else if fields[0].0@ == key {
        fields[0].1
    } else {
        field_text(fields.drop_first(), key)
    }
}

/// The response id that a stream entry carries in its `response_id` field.
pub open spec fn entry_response_id(entry: StreamEntry) -> Option<String> {
    field_text(entry.fields@, "response_id"@)
}

/// The message that a stream entry holds, when it carries a response id.
pub open spec fn entry_message(entry: StreamEntry) -> Option<QueueMessage> {
    match entry_response_id(entry) {
        Some(response_id) => Some(
            QueueMessage {
                stream_id: entry.id,
                response_id,
                idle_ms: match entry.milliseconds_elapsed_from_delivery {
                    Some(ms) => Some(ms as u64),
                    None => None,
                },
            },
        ),
        None => None,
    }
}

/// The response id of a stream entry.
pub fn response_id_from_stream_entry(entry: &StreamEntry) -> (r: Option<String>)
    ensures
        r == entry_response_id(*entry),
{
    let key = "response_id";
    let mut i: usize = 0;
    assert(entry.fields@.skip(0) =~= entry.fields@);
    while i < entry.fields.len()
        invariant
            i <= entry.fields@.len(),
            key@ == "response_id"@,
            field_text(entry.fields@, key@) == field_text(entry.fields@.skip(i as int), key@),
        decreases entry.fields@.len() - i,
    {
        assert(entry.fields@.skip(i as int).drop_first() =~= entry.fields@.skip(i + 1));
        if same_text(entry.fields[i].0.as_str(), key) {
            assert(entry.fields@.skip(i as int)[0] == entry.fields@[i as int]);
            let r = match &entry.fields[i].1 {
                Some(s) => Some(s.clone()),
                None => None,
            };
            return r;
        }
        i = i + 1;
    }
    None
}

/// The message that a stream entry holds.
pub fn queue_message_from_stream_entry(entry: &StreamEntry) -> (r: Option<QueueMessage>)
    ensures
        r == entry_message(*entry),
{
    match response_id_from_stream_entry(entry) {
        Some(response_id) => Some(
            QueueMessage {
                stream_id: entry.id.clone(),
                response_id,
                idle_ms: match entry.milliseconds_elapsed_from_delivery {
                    Some(ms) => Some(ms as u64),
                    None => None,
                },
            },
        ),
        None => None,
    }
}

/// The messages of `entries`, in order.
pub open spec fn messages_of(entries: Seq<StreamEntry>) -> Seq<QueueMessage>
    decreases entries.len(),
{
    if entries.len() == 0 {
        Seq::empty()
    } else {
        let rest = messages_of(entries.drop_last());
        match entry_message(entries.last()) {
            Some(m) => rest.push(m),
            None => rest,
        }
    }
}

/// The ids of the entries of `entries` that carry no response id, in order.
pub open spec fn invalid_ids_of(entries: Seq<StreamEntry>) -> Seq<String>
    decreases entries.len(),
{
    if entries.len() == 0 {
        Seq::empty()
    } else {
        let rest = invalid_ids_of(entries.drop_last());
        match entry_message(entries.last()) {
            Some(_) => rest,
            None => rest.push(entries.last().id),
        }
    }
}

/// The messages of a batch of stream entries, and the ids of the entries that hold
/// none, to be acknowledged without processing.
pub fn split_stream_entries(entries: &[StreamEntry]) -> (r: (Vec<QueueMessage>, Vec<String>))
    ensures
        r.0@ == messages_of(entries@),
        r.1@ == invalid_ids_of(entries@),
{
    let mut messages: Vec<QueueMessage> = Vec::new();
    let mut invalid_ids: Vec<String> = Vec::new();
    let mut i: usize = 0;
    while i < entries.len()
        invariant
            i <= entries@.len(),
            messages@ == messages_of(entries@.take(i as int)),
            invalid_ids@ == invalid_ids_of(entries@.take(i as int)),
        decreases entries@.len() - i,
    {
        proof {
            assert(entries@.take(i + 1).drop_last() =~= entries@.take(i as int));
        }
        match queue_message_from_stream_entry(&entries[i]) {
            Some(message) => messages.push(message),
            None => invalid_ids.push(entries[i].id.clone()),
        }
        i = i + 1;
    }
    assert(entries@.take(entries@.len() as int) =~= entries@);
    (messages, invalid_ids)
}

/// `message` with the idle time that `XPENDING` reported, when it reported one.
pub fn with_pending_idle(message: QueueMessage, idle_ms: Option<u64>) -> (r: QueueMessage)
    ensures
        r.stream_id == message.stream_id,
        r.response_id == message.response_id,
        r.idle_ms == (match idle_ms {
            Some(ms) => Some(ms),
            None => message.idle_ms,
        }),
{
    let idle = match idle_ms {
        Some(ms) => Some(ms),
        None => message.idle_ms,
    };
    QueueMessage { stream_id: message.stream_id, response_id: message.response_id, idle_ms: idle }
}

/// The consumer's settings.
pub struct QueueConfig {
    pub redis_url: String,
    pub stream_key: String,
    pub consumer_group: String,
    pub consumer_name: String,
    pub block_ms: usize,
    pub autoclaim_min_idle_ms: usize,
    pub autoclaim_batch_size: usize,
}

/// The environment values the consumer's settings are read from; `None` where a
/// variable is unset or not valid Unicode.
pub struct QueueEnv {
    /// `RESPONSE_ID_STORE_URL`
    pub redis_url: Option<String>,
    /// `BACKGROUND_QUEUE_STREAM_KEY`
    pub stream_key: Option<String>,
    /// `BACKGROUND_QUEUE_CONSUMER_GROUP`
    pub consumer_group: Option<String>,
    /// `BACKGROUND_QUEUE_CONSUMER_NAME`
    pub consumer_name: Option<String>,
    /// `HOSTNAME`
    pub hostname: Option<String>,
    /// `BACKGROUND_QUEUE_BLOCK_MS`
    pub block_ms: Option<String>,
    /// `BACKGROUND_QUEUE_AUTOCLAIM_MIN_IDLE_MS`
    pub autoclaim_min_idle_ms: Option<String>,
    /// `BACKGROUND_QUEUE_AUTOCLAIM_BATCH_SIZE`
    pub autoclaim_batch_size: Option<String>,
    /// `BACKGROUND_UPSTREAM_TIMEOUT_SECONDS`
    pub upstream_timeout_seconds: Option<String>,
}

/// Why the consumer's settings are refused.
#[derive(Debug, PartialEq, Eq)]
pub enum QueueConfigError {
    ZeroBlockMs,
    ZeroAutoclaimBatchSize,
}

impl QueueConfigError {
    /// The message the worker stops with.
    pub fn message(&self) -> (m: String)
        ensures
            m@ == (match self {
                QueueConfigError::ZeroBlockMs => "BACKGROUND_QUEUE_BLOCK_MS must be greater than 0"@,
                QueueConfigError::ZeroAutoclaimBatchSize => "BACKGROUND_QUEUE_AUTOCLAIM_BATCH_SIZE must be greater than 0"@,
            }),
    {
        match self {
            QueueConfigError::ZeroBlockMs => owned("BACKGROUND_QUEUE_BLOCK_MS must be greater than 0"),
            QueueConfigError::ZeroAutoclaimBatchSize => owned("BACKGROUND_QUEUE_AUTOCLAIM_BATCH_SIZE must be greater than 0"),
        }
    }
}

/// A numeric setting: the decimal that `value` writes when it fits in `usize`, else `default`.
pub open spec fn usize_setting(value: Option<String>, default: usize) -> usize {
    match value {
        Some(v) => if unsigned_decimal(v@) is Some && unsigned_decimal(v@)->0 <= usize::MAX {
            unsigned_decimal(v@)->0 as usize
        } else {
            default
        },
        None => default,
    }
}

/// The value of a numeric setting.
fn read_usize(value: &Option<String>, default: usize) -> (r: usize)
    ensures
        r == usize_setting(*value, default),
{
    match value {
        Some(v) => match parse_usize(v.as_str()) {
            Some(n) => n,
            None => default,
        },
        None => default,
    }
}

/// A text setting: `value`, or `default` when it is absent.
pub open spec fn text_setting(value: Option<String>, default: Seq<char>) -> Seq<char> {
    match value {
        Some(v) => v@,
        None => default,
    }
}

fn read_text(value: Option<String>, default: &str) -> (r: String)
    ensures
        r@ == text_setting(value, default@),
{
    match value {
        Some(v) => v,
        None => owned(default),
    }
}

/// `a * b`, or `usize::MAX` where the product does not fit.
pub open spec fn saturating_product(a: usize, b: usize) -> usize {
    if a * b <= usize::MAX {
        (a * b) as usize
    } else {
        usize::MAX
    }
}

fn saturating_mul(a: usize, b: usize) -> (r: usize)
    ensures
        r == saturating_product(a, b),
{
    match a.checked_mul(b) {
        Some(p) => p,
        None => usize::MAX,
    }
}

/// The worker's upstream timeout in seconds, from `BACKGROUND_UPSTREAM_TIMEOUT_SECONDS`.
pub fn upstream_timeout_seconds(value: &Option<String>) -> (r: usize)
    ensures
        r == usize_setting(*value, 600),
{
    read_usize(value, 600)
}

/// The idle time after which a pending entry is claimed from another consumer, by
/// default: two minutes more than the upstream timeout, in milliseconds.
pub open spec fn default_autoclaim_ms(upstream_timeout_seconds: usize) -> usize {
    saturating_product(
        if upstream_timeout_seconds + 120 <= usize::MAX {
            (upstream_timeout_seconds + 120) as usize
        } else {
            usize::MAX
        },
        1000,
    )
}

/// The default autoclaim idle time for an upstream timeout of `upstream_timeout_seconds`.
pub fn default_autoclaim_min_idle_ms(upstream_timeout_seconds: usize) -> (r: usize)
    ensures
        r == default_autoclaim_ms(upstream_timeout_seconds),
{
    saturating_mul(upstream_timeout_seconds.saturating_add(120), 1000)
}

/// Whether an autoclaim idle time is shorter than the upstream timeout, so that a call
/// still in progress could be claimed by another consumer.
pub fn autoclaim_shorter_than_upstream(autoclaim_min_idle_ms: usize, upstream_timeout_seconds: usize) -> (r: bool)
    ensures
        r == (autoclaim_min_idle_ms < saturating_product(upstream_timeout_seconds, 1000)),
{
    autoclaim_min_idle_ms < saturating_mul(upstream_timeout_seconds, 1000)
}

/// The autoclaim idle time that `env` sets.
pub open spec fn autoclaim_setting(env: QueueEnv) -> usize {
    usize_setting(env.autoclaim_min_idle_ms, default_autoclaim_ms(usize_setting(env.upstream_timeout_seconds, 600)))
}

/// The autoclaim idle time that the environment values set.
pub fn autoclaim_min_idle_ms(env: &QueueEnv) -> (r: usize)
    ensures
        r == autoclaim_setting(*env),
{
    let upstream = upstream_timeout_seconds(&env.upstream_timeout_seconds);
    read_usize(&env.autoclaim_min_idle_ms, default_autoclaim_min_idle_ms(upstream))
}

impl QueueConfig {
    /// The consumer's settings from its environment values. Absent or unreadable numbers
    /// fall back to their defaults; a block time or batch size of zero is refused.
    pub fn from_env_values(env: QueueEnv) -> (r: Result<QueueConfig, QueueConfigError>)
        ensures
            usize_setting(env.block_ms, 5000) == 0 <==> r == Err::<QueueConfig, QueueConfigError>(QueueConfigError::ZeroBlockMs),
            usize_setting(env.block_ms, 5000) != 0 && usize_setting(env.autoclaim_batch_size, 10) == 0
                <==> r == Err::<QueueConfig, QueueConfigError>(QueueConfigError::ZeroAutoclaimBatchSize),
            r matches Ok(c) ==> {
                &&& c.redis_url@ == text_setting(env.redis_url, "redis://valkey:6379"@)
                &&& c.stream_key@ == text_setting(env.stream_key, "duihua:responses:background"@)
                &&& c.consumer_group@ == text_setting(env.consumer_group, "duihua-background"@)
                &&& c.consumer_name@ == (match env.consumer_name {
                    Some(n) => n@,
                    None => text_setting(env.hostname, "duihua-background-worker"@),
                })
                &&& c.block_ms == usize_setting(env.block_ms, 5000)
                &&& c.autoclaim_min_idle_ms == autoclaim_setting(env)
                &&& c.autoclaim_batch_size == usize_setting(env.autoclaim_batch_size, 10)
            },
    {
        let block_ms = read_usize(&env.block_ms, 5000);
        if block_ms == 0 {
            return Err(QueueConfigError::ZeroBlockMs);
        }
        let autoclaim_min_idle_ms = autoclaim_min_idle_ms(&env);
        let autoclaim_batch_size = read_usize(&env.autoclaim_batch_size, 10);
        if autoclaim_batch_size == 0 {
            return Err(QueueConfigError::ZeroAutoclaimBatchSize);
        }
        let consumer_name = match env.consumer_name {
            Some(n) => n,
            None => read_text(env.hostname, "duihua-background-worker"),
        };
        Ok(QueueConfig {
            redis_url: read_text(env.redis_url, "redis://valkey:6379"),
            stream_key: read_text(env.stream_key, "duihua:responses:background"),
            consumer_group: read_text(env.consumer_group, "duihua-background"),
            consumer_name,
            block_ms,
            autoclaim_min_idle_ms,
            autoclaim_batch_size,
        })
    }
}

/// The seconds to wait before a pending entry is retried, from
/// `BACKGROUND_QUEUE_PENDING_RETRY_SECONDS`; 30 by default.
pub fn pending_retry_backoff_seconds(value: &Option<String>) -> (r: u64)
    ensures
        r == (match value {
            Some(v) => if unsigned_decimal(v@) is Some && unsigned_decimal(v@)->0 <= u64::MAX {
                unsigned_decimal(v@)->0 as u64
            } else {
                30
            },
            None => 30,
        }),
{
    match value {
        Some(v) => match crate::text::parse_u64(v.as_str()) {
            Some(n) => n,
            None => 30,
        },
        None => 30,
    }
}

/// The Redis error code that `XGROUP CREATE` answers when the group already exists.
pub fn is_busygroup(code: Option<&str>) -> (r: bool)
    ensures
        r == (match code {
            Some(c) => c@ == "BUSYGROUP"@,
            None => false,
        }),
{
    match code {
        Some(c) => same_text(c, "BUSYGROUP"),
        None => false,
    }
}

/// The Redis error code that stream commands answer when the consumer group is missing.
pub fn is_nogroup(code: Option<&str>) -> (r: bool)
    ensures
        r == (match code {
            Some(c) => c@ == "NOGROUP"@,
            None => false,
        }),
{
    match code {
        Some(c) => same_text(c, "NOGROUP"),
        None => false,
    }
}

/// Whether a Redis error says that the server does not know `XACKDEL`, so that the
/// consumer falls back to `XACK`.
pub fn is_unsupported_xackdel(error_text: &str) -> (r: bool)
    ensures
        r == occurs_in("unknown command"@, ascii_lowercase(error_text@)),
{
    let lowered = to_ascii_lowercase(error_text);
    contains_text(lowered.as_str(), "unknown command")
}

/// What the consumer does after a stream command failed.
#[derive(Debug, PartialEq, Eq)]
pub enum QueueErrorAction {
    /// The consumer group is missing: create it again.
    RecreateGroup,
    /// Anything else: wait a moment, then go on.
    Backoff,
}

/// The consumer's answer to a failed stream command with error code `code`.
pub fn queue_error_action(code: Option<&str>) -> (r: QueueErrorAction)
    ensures
        (r == QueueErrorAction::RecreateGroup) == (match code {
            Some(c) => c@ == "NOGROUP"@,
            None => false,
        }),
{
    if is_nogroup(code) {
        QueueErrorAction::RecreateGroup
    } else {
        QueueErrorAction::Backoff
    }
}

/// How an entry reached the consumer.
#[derive(Clone, Copy, Debug, PartialEq, Eq)]
pub enum EntrySource {
    /// A new entry read with `XREADGROUP`.
    Live,
    /// An entry claimed from another consumer with `XAUTOCLAIM`.
    Autoclaimed,
    /// An entry left pending for this consumer when it started.
    StartupPending,
}

/// What processing a message needs to know besides the response id.
pub struct ProcessContext {
    pub message_idle_ms: Option<u64>,
    pub autoclaim_min_idle_ms: usize,
    pub entry_source: EntrySource,
}

/// What processing a message decided.
#[derive(Clone, Copy, Debug, PartialEq, Eq)]
pub enum ProcessOutcome {
    /// The message is done with: acknowledge it.
    Ack,
    /// The message is to be processed again later.
    Retry,
}

/// How handling a message ended.
#[derive(Clone, Copy, Debug, PartialEq, Eq)]
pub enum MessageResult {
    /// Processed and acknowledged.
    Handled,
    /// Processing asked for a retry.
    Retryable,
    /// Processing or acknowledging failed.
    Failed,
}

/// What happens to a message after processing decided `outcome`.
pub fn message_result(outcome: ProcessOutcome, acknowledged: bool) -> (r: MessageResult)
    ensures
        r == (match outcome {
            ProcessOutcome::Ack => if acknowledged { MessageResult::Handled } else { MessageResult::Failed },
            ProcessOutcome::Retry => MessageResult::Retryable,
        }),
{
    match outcome {
        ProcessOutcome::Ack => if acknowledged { MessageResult::Handled } else { MessageResult::Failed },
        ProcessOutcome::Retry => MessageResult::Retryable,
    }
}

/// What becomes of a scheduled retry once it has run.
#[derive(Debug, PartialEq, Eq)]
pub enum RetryFollowUp {
    /// Done: drop it from the schedule.
    Remove,
    /// Schedule it again after the backoff.
    Reschedule,
}

/// A scheduled retry that was handled is dropped; any other is scheduled again.
pub fn pending_retry_follow_up(result: MessageResult) -> (r: RetryFollowUp)
    ensures
        (r == RetryFollowUp::Remove) == (result == MessageResult::Handled),
{
    match result {
        MessageResult::Handled => RetryFollowUp::Remove,
        _ => RetryFollowUp::Reschedule,
    }
}

/// What follows the handling of an entry read from the stream.
#[derive(Debug, PartialEq, Eq)]
pub enum EntryFollowUp {
    Done,
    ScheduleRetry,
    ReportFailure,
}

/// An entry that asked for a retry is scheduled; a failed one is reported.
pub fn stream_entry_follow_up(result: MessageResult) -> (r: EntryFollowUp)
    ensures
        r == (match result {
            MessageResult::Handled => EntryFollowUp::Done,
            MessageResult::Retryable => EntryFollowUp::ScheduleRetry,
            MessageResult::Failed => EntryFollowUp::ReportFailure,
        }),
{
    match result {
        MessageResult::Handled => EntryFollowUp::Done,
        MessageResult::Retryable => EntryFollowUp::ScheduleRetry,
        MessageResult::Failed => EntryFollowUp::ReportFailure,
    }
}

/// The startup drain goes on only while every entry is handled.
pub fn startup_drain_continues(result: MessageResult) -> (r: bool)
    ensures
        r == (result == MessageResult::Handled),
{
    match result {
        MessageResult::Handled => true,
        _ => false,
    }
}

/// What the consumer learned at the last stage of draining the entries left pending
/// for it when it started.
#[derive(Debug, PartialEq, Eq)]
pub enum DrainEvent {
    /// The drain begins.
    Start,
    /// A batch of pending entries was read; whether it was empty.
    PendingRead { empty: bool },
    /// Reading the pending entries failed, answered as the action says.
    PendingFailed(QueueErrorAction),
    /// A malformed entry was acknowledged, or acknowledging it failed.
    MalformedAcked(bool),
    /// An entry of the batch was handled, ending as the result says.
    EntryHandled(MessageResult),
    /// Every entry of the batch was handled.
    BatchDone,
}

/// What the startup drain does next.
#[derive(Debug, PartialEq, Eq)]
pub enum DrainStep {
    /// Read the next batch of pending entries.
    ReadPending,
    /// Create the consumer group again, then read again without waiting.
    RecreateGroupThenRead,
    /// Wait a moment, then end the drain.
    BackoffThenStop,
    /// Take the entries of the batch one by one.
    ProcessBatch,
    /// Go on with the next entry of the batch.
    NextEntry,
    /// End the drain.
    Stop,
}

/// The step of the startup drain that follows `event`: it reads batches until one is
/// empty, and ends at the first entry that is not handled or whose acknowledgement
/// fails; a missing consumer group is created again at once, any other failure ends
/// the drain after a pause.
pub open spec fn next_drain_step(event: DrainEvent) -> DrainStep {
    match event {
        DrainEvent::Start => DrainStep::ReadPending,
        DrainEvent::PendingRead { empty } => if empty {
            DrainStep::Stop
        } else {
            DrainStep::ProcessBatch
        },
        DrainEvent::PendingFailed(action) => match action {
            QueueErrorAction::RecreateGroup => DrainStep::RecreateGroupThenRead,
            QueueErrorAction::Backoff => DrainStep::BackoffThenStop,
        },
        DrainEvent::MalformedAcked(acked) => if acked {
            DrainStep::NextEntry
        } else {
            DrainStep::Stop
        },
        DrainEvent::EntryHandled(result) => if result == MessageResult::Handled {
            DrainStep::NextEntry
        } else {
            DrainStep::Stop
        },
        DrainEvent::BatchDone => DrainStep::ReadPending,
    }
}

/// The next step of the startup drain after `event`.
pub fn drain_next(event: DrainEvent) -> (s: DrainStep)
    ensures
        s == next_drain_step(event),
{
    match event {
        DrainEvent::Start => DrainStep::ReadPending,
        DrainEvent::PendingRead { empty } => if empty {
            DrainStep::Stop
        } else {
            DrainStep::ProcessBatch
        },
        DrainEvent::PendingFailed(action) => match action {
            QueueErrorAction::RecreateGroup => DrainStep::RecreateGroupThenRead,
            QueueErrorAction::Backoff => DrainStep::BackoffThenStop,
        },
        DrainEvent::MalformedAcked(acked) => if acked {
            DrainStep::NextEntry
        } else {
            DrainStep::Stop
        },
        DrainEvent::EntryHandled(result) => if startup_drain_continues(result) {
            DrainStep::NextEntry
        } else {
            DrainStep::Stop
        },
        DrainEvent::BatchDone => DrainStep::ReadPending,
    }
}

/// What the consumer learned at the last stage of running a due retry.
#[derive(Debug, PartialEq, Eq)]
pub enum RetryEvent {
    /// The retry's stream id was looked up; whether it is still scheduled.
    LookedUp { scheduled: bool },
    /// The stream entry was read; whether it was there and well formed.
    Loaded { found: bool },
    /// The entry that could not be loaded was acknowledged, or acknowledging it failed.
    MissingAcked(bool),
    /// The entry was handled, ending as the result says.
    Handled(MessageResult),
}

/// What the consumer does next with a due retry.
#[derive(Debug, PartialEq, Eq)]
pub enum RetryStep {
    /// Leave the retry as it is and go on with the next.
    Skip,
    /// Read the retry's stream entry.
    LoadEntry,
    /// Acknowledge the entry that could not be loaded.
    AcknowledgeMissing,
    /// Handle the loaded entry.
    Process,
    /// Drop the retry from the schedule.
    Remove,
    /// Schedule the retry again after the backoff.
    Reschedule,
}

/// The step of running a due retry that follows `event`: a retry no longer scheduled is
/// skipped; an entry gone from the stream is acknowledged and its retry dropped only once
/// the acknowledgement succeeded; a handled entry's retry is dropped and any other is
/// scheduled again.
pub open spec fn next_retry_step(event: RetryEvent) -> RetryStep {
    match event {
        RetryEvent::LookedUp { scheduled } => if scheduled {
            RetryStep::LoadEntry
        } else {
            RetryStep::Skip
        },
        RetryEvent::Loaded { found } => if found {
            RetryStep::Process
        } else {
            RetryStep::AcknowledgeMissing
        },
        RetryEvent::MissingAcked(acked) => if acked {
            RetryStep::Remove
        } else {
            RetryStep::Skip
        },
        RetryEvent::Handled(result) => if result == MessageResult::Handled {
            RetryStep::Remove
        } else {
            RetryStep::Reschedule
        },
    }
}

/// The next step of running a due retry after `event`.
pub fn retry_next(event: RetryEvent) -> (s: RetryStep)
    ensures
        s == next_retry_step(event),
{
    match event {
        RetryEvent::LookedUp { scheduled } => if scheduled {
            RetryStep::LoadEntry
        } else {
            RetryStep::Skip
        },
        RetryEvent::Loaded { found } => if found {
            RetryStep::Process
        } else {
            RetryStep::AcknowledgeMissing
        },
        RetryEvent::MissingAcked(acked) => if acked {
            RetryStep::Remove
        } else {
            RetryStep::Skip
        },
        RetryEvent::Handled(result) => match pending_retry_follow_up(result) {
            RetryFollowUp::Remove => RetryStep::Remove,
            RetryFollowUp::Reschedule => RetryStep::Reschedule,
        },
    }
}

} // verus!
