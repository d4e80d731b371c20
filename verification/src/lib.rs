//! Core logic of a text-generation inference router: request validation,
//! admission control, batching, per-request event streams, and the adapters
//! that map the HTTP request shapes onto the internal inference primitive.
//!
//! Quantities that the wire carries as fractional numbers (temperatures,
//! penalties, probabilities, log-probabilities) are held here as integers in
//! thousandths; durations are held as integer milliseconds.

pub mod chat;
pub mod errors;
pub mod health;
pub mod infer;
pub mod json;
pub mod queue;
pub mod scheduler;
pub mod server;
pub mod stream;
pub mod types;
pub mod validation;

use vstd::prelude::*;

verus! {

/// Maps a shard finish-reason code to the router's own enumeration.
/// Codes outside the shard protocol yield `None`.
pub fn finish_reason_from_code(code: i64) -> (r: Option<types::FinishReason>)
    ensures
        r == spec_finish_reason_from_code(code),
{
    if code == 0 {
        Some(types::FinishReason::Length)
    } else if code == 1 {
        Some(types::FinishReason::EndOfSequenceToken)
    } else if code == 2 {
        Some(types::FinishReason::StopSequence)
    } else {
        None
    }
}

/// The shard protocol's finish-reason encoding.
pub open spec fn spec_finish_reason_from_code(code: i64) -> Option<types::FinishReason> {
    if code == 0 {
        Some(types::FinishReason::Length)
    } else if code == 1 {
        Some(types::FinishReason::EndOfSequenceToken)
    } else if code == 2 {
        Some(types::FinishReason::StopSequence)
    } else {
        None
    }
}

} // verus!
