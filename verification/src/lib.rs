//! Background Responses API processing for an OpenAI-compatible gateway: the stored
//! form of responses, the rules by which the gateway queues, cancels, deletes and
//! reconciles them, and the rules by which background workers consume the queue,
//! claim responses and record their completions.
//!
//! - `assoc`: association lists keyed by text, viewed as maps.
//! - `json`: JSON values, with objects viewed as maps from key to value.
//! - `text`: character-level string helpers and decimal parsing.
//! - `common`: stored responses, store keys, response ids, and the objects built from requests.
//! - `worker`: claiming a queued response and recording its completion or failure.
//! - `queue`: the worker's queue settings, stream entries, and the consumer's decisions.
//! - `retry`: the schedule of pending entries waiting to be retried.
//! - `gateway`: stale reconciliation, deletion, store access and error answers.
//! - `clock`: readings of the system clocks.
//! - `laws`: properties that hold across these functions.
use vstd::prelude::*;

pub mod assoc;
pub mod clock;
pub mod common;
pub mod gateway;
pub mod json;
pub mod laws;
pub mod queue;
pub mod retry;
pub mod text;
pub mod worker;

verus! {
} // verus!
