//! The per-request streaming state machine: turns the items of an inference
//! event channel into the server-sent events of a streaming response, in
//! order, with exactly one terminal event.

use vstd::prelude::*;
use vstd::string::*;
use crate::errors::{spec_error_message, spec_error_type, InferError};
use crate::types::{
    ErrorResponse, GenerateParameters, InferStreamResponse, StreamDetails, StreamResponse,
};
use crate::validation::{check_stream_compatible, spec_stream_gate};

verus! {

/// One outgoing server-sent event: a token event or a serialized error.
#[derive(Clone, Debug)]
pub enum StreamEvent {
    Token(StreamResponse),
    Error(ErrorResponse),
}

/// Whether an outgoing event ends the stream: every error does, and a token
/// event does exactly when it carries the final `generated_text`.
pub open spec fn is_terminal_event(e: StreamEvent) -> bool {
    match e {
        StreamEvent::Error(_) => true,
        StreamEvent::Token(r) => r.generated_text is Some,
    }
}

/// Whether a channel item ends the stream: an error or an `End`.
pub open spec fn is_terminal_item(it: Result<InferStreamResponse, InferError>) -> bool {
    match it {
        Err(_) => true,
        Ok(i) => i is End,
    }
}

/// Whether any item of the sequence is a `Prefill`.
pub open spec fn has_prefill(items: Seq<Result<InferStreamResponse, InferError>>) -> bool {
    exists|k: int|
        0 <= k < items.len() && (#[trigger] items[k] matches Ok(InferStreamResponse::Prefill(_)))
}

/// The cursor a streaming response keeps while it consumes its event
/// channel.
pub struct StreamState {
    /// Number of channel items consumed so far; token events carry it.
    pub index: u32,
    /// Set once a terminal event has been emitted; no item is consumed past
    /// it.
    pub terminated: bool,
    /// Set when the terminal event was a proper `End` (as opposed to an
    /// error).
    pub end_reached: bool,
    /// Whether the final event carries token-level details.
    pub details: bool,
    /// The prompt to prepend to the final text when `return_full_text` was
    /// requested.
    pub add_prompt: Option<String>,
}

/// A fresh cursor for one streaming response.
pub fn stream_state_new(details: bool, add_prompt: Option<String>) -> (st: StreamState)
    ensures
        st.index == 0,
        !st.terminated,
        !st.end_reached,
        st.details == details,
        st.add_prompt == add_prompt,
{
    StreamState { index: 0, terminated: false, end_reached: false, details, add_prompt }
}

/// The view of the prompt a cursor prepends, empty when none.
pub open spec fn spec_prompt_view(add_prompt: Option<String>) -> Seq<char> {
    match add_prompt {
        Some(p) => p@,
        None => Seq::empty(),
    }
}

/// Consumes one channel item: a `Prefill` is dropped, an `Intermediate`
/// becomes a token event, an `End` becomes the final token event (with the
/// prompt prepended and details attached when asked for), and an error
/// becomes the terminal error event.
pub fn stream_step(
    st: &mut StreamState,
    item: Result<InferStreamResponse, InferError>,
) -> (ev: Option<StreamEvent>)
    requires
        !old(st).terminated,
        old(st).index < u32::MAX,
    ensures
        final(st).index == old(st).index + 1,
        final(st).details == old(st).details,
        final(st).add_prompt == old(st).add_prompt,
        final(st).terminated == is_terminal_item(item),
        final(st).end_reached == (item matches Ok(InferStreamResponse::End { .. })),
        match item {
            Ok(InferStreamResponse::Prefill(_)) => ev is None,
            Ok(InferStreamResponse::Intermediate { token, top_tokens }) => {
                &&& ev matches Some(StreamEvent::Token(r))
                &&& r.index == old(st).index + 1
                &&& r.token == token
                &&& r.top_tokens == top_tokens
                &&& r.generated_text is None
                &&& r.details is None
            },
            Ok(InferStreamResponse::End { token, generated_text, top_tokens, .. }) => {
                &&& ev matches Some(StreamEvent::Token(r))
                &&& r.index == old(st).index + 1
                &&& r.token == token
                &&& r.top_tokens == top_tokens
                &&& r.generated_text matches Some(t)
                &&& t@ == spec_prompt_view(old(st).add_prompt) + generated_text.text@
                &&& r.details == (if old(st).details {
                    Some(StreamDetails {
                        finish_reason: generated_text.finish_reason,
                        generated_tokens: generated_text.generated_tokens,
                        seed: generated_text.seed,
                    })
                } else {
                    None::<StreamDetails>
                })
            },
            Err(e) => {
                &&& ev matches Some(StreamEvent::Error(b))
                &&& b.error@ == spec_error_message(e)
                &&& b.error_type@ == spec_error_type(e)
            },
        },
{
    st.index = st.index + 1;
    st.end_reached = false;
    match item {
        Ok(InferStreamResponse::Prefill(_)) => None,
        Ok(InferStreamResponse::Intermediate { token, top_tokens }) => {
            Some(StreamEvent::Token(StreamResponse {
                index: st.index,
                token,
                top_tokens,
                generated_text: None,
                details: None,
            }))
        }
        Ok(InferStreamResponse::End { token, generated_text, top_tokens, .. }) => {
            st.terminated = true;
            st.end_reached = true;
            let details = if st.details {
                Some(StreamDetails {
                    finish_reason: generated_text.finish_reason,
                    generated_tokens: generated_text.generated_tokens,
                    seed: generated_text.seed,
                })
            } else {
                None
            };
            let output_text = match &st.add_prompt {
                Some(p) => {
                    let mut s = p.clone();
                    s.append(generated_text.text.as_str());
                    s
                }
                None => generated_text.text,
            };
            Some(StreamEvent::Token(StreamResponse {
                index: st.index,
                token,
                top_tokens,
                generated_text: Some(output_text),
                details,
            }))
        }
        Err(e) => {
            st.terminated = true;
            let body = e.to_error_response();
            Some(StreamEvent::Error(body))
        }
    }
}

/// The terminal error event the stream emits when its channel closed without
/// an `End`.
pub fn incomplete_event() -> (ev: StreamEvent)
    ensures
        ev matches StreamEvent::Error(b) && b.error@ == spec_error_message(
            InferError::IncompleteGeneration,
        ) && b.error_type@ == spec_error_type(InferError::IncompleteGeneration),
{
    StreamEvent::Error(InferError::IncompleteGeneration.to_error_response())
}

/// The index of a token event, used to state ordering.
pub open spec fn event_index(e: StreamEvent) -> int {
    match e {
        StreamEvent::Token(r) => r.index as int,
        StreamEvent::Error(_) => 0,
    }
}

/// Consumes a whole channel at once and returns every outgoing event, as a
/// live stream would emit them one by one.
///
/// The events observe the stream discipline: at least one event, no event
/// after a terminal one, exactly one terminal event (the last), and token
/// indices strictly increasing. When the channel holds no `Prefill` items
/// and the stream-compatibility check admits the request, the token events
/// carry consecutive indices starting
/// at one.
pub fn stream_events(
    p: &GenerateParameters,
    inputs: &String,
    items: Vec<Result<InferStreamResponse, InferError>>,
    details: bool,
) -> (evs: Vec<StreamEvent>)
    requires
        items@.len() < u32::MAX,
    ensures
        evs@.len() >= 1,
        forall|i: int| 0 <= i < evs@.len() - 1 ==> !is_terminal_event(evs@[i]),
        is_terminal_event(evs@.last()),
        forall|i: int, j: int|
            0 <= i < j < evs@.len() && evs@[i] is Token && evs@[j] is Token
                ==> event_index(evs@[i]) < event_index(evs@[j]),
        match spec_stream_gate(*p) {
            Some(g) => {
                &&& evs@.len() == 1
                &&& evs@[0] matches StreamEvent::Error(b)
                &&& (evs@[0] matches StreamEvent::Error(b) ==> b.error@ == spec_error_message(
                    InferError::Validation(g),
                ) && b.error_type@ == spec_error_type(InferError::Validation(g)))
            },
            None => {
                &&& (forall|k: int| 0 <= k < items@.len() ==> !is_terminal_item(#[trigger] items@[k]))
                    ==> (evs@.last() matches StreamEvent::Error(b) && b.error@
                    == spec_error_message(InferError::IncompleteGeneration) && b.error_type@
                    == spec_error_type(InferError::IncompleteGeneration))
                &&& forall|t: int|
                    {
                        &&& 0 <= t < items@.len()
                        &&& is_terminal_item(items@[t])
                        &&& (forall|k: int| 0 <= k < t ==> !is_terminal_item(#[trigger] items@[k]))
                    } ==> #[trigger] terminal_matches(evs@.last(), items@[t], t, details, *p, inputs@)
                &&& (!has_prefill(items@) ==> forall|i: int|
                    0 <= i < evs@.len() && evs@[i] is Token
                        ==> event_index(#[trigger] evs@[i]) == i + 1)
                &&& (!has_prefill(items@) ==> forall|i: int|
                    0 <= i < evs@.len() - 1 ==> intermediate_matches(
                        #[trigger] evs@[i],
                        items@[i],
                        i,
                    ))
            },
        },
{
    let mut evs: Vec<StreamEvent> = Vec::new();
    if let Some(g) = check_stream_compatible(p) {
        let err = InferError::Validation(g);
        evs.push(StreamEvent::Error(err.to_error_response()));
        return evs;
    }
    let add_prompt = if p.return_full_text == Some(true) {
        Some(inputs.clone())
    } else {
        None
    };
    let ghost prompt_view = spec_prompt_view(add_prompt);
    let mut st = stream_state_new(details, add_prompt);
    let mut rest = items;
    let ghost items0 = rest@;
    let n = rest.len();
    let mut j: usize = 0;
    while j < n && !st.terminated
        invariant
            n == items0.len() < u32::MAX,
            j <= n,
            rest@ == items0.skip(j as int),
            st.index as int == j as int,
            st.details == details,
            spec_prompt_view(st.add_prompt) == prompt_view,
            prompt_view == (if p.return_full_text == Some(true) {
                inputs@
            } else {
                Seq::<char>::empty()
            }),
            forall|i: int, jj: int|
                0 <= i < jj < evs@.len() && evs@[i] is Token && evs@[jj] is Token
                    ==> event_index(evs@[i]) < event_index(evs@[jj]),
            forall|i: int|
                0 <= i < evs@.len() && evs@[i] is Token
                    ==> 1 <= event_index(#[trigger] evs@[i]) <= j as int,
            !st.terminated ==> forall|i: int|
                0 <= i < evs@.len() ==> !is_terminal_event(#[trigger] evs@[i]),
            !st.terminated ==> forall|k: int|
                0 <= k < j ==> !is_terminal_item(#[trigger] items0[k]),
            st.terminated ==> {
                &&& j >= 1
                &&& is_terminal_item(items0[j - 1])
                &&& (forall|k: int| 0 <= k < j - 1 ==> !is_terminal_item(#[trigger] items0[k]))
                &&& evs@.len() >= 1
                &&& is_terminal_event(evs@.last())
                &&& (forall|i: int| 0 <= i < evs@.len() - 1 ==> !is_terminal_event(evs@[i]))
                &&& terminal_matches(evs@.last(), items0[j - 1], j - 1, details, *p, inputs@)
            },
            !has_prefill(items0.take(j as int)) ==> (evs@.len() == j as int && (forall|i: int|
                0 <= i < evs@.len() && evs@[i] is Token
                    ==> event_index(#[trigger] evs@[i]) == i + 1) && (forall|i: int|
                0 <= i < evs@.len() ==> intermediate_matches(#[trigger] evs@[i], items0[i], i))),
        decreases n - j,
    {
        let item = rest.remove(0);
        proof {
            assert(rest@ =~= items0.skip(j + 1));
            assert(item == items0[j as int]);
            assert(items0.take(j + 1).drop_last() =~= items0.take(j as int));
            if has_prefill(items0.take(j as int)) {
                let k = choose|k: int|
                    0 <= k < items0.take(j as int).len() && (#[trigger] items0.take(j as int)[k]
                        matches Ok(InferStreamResponse::Prefill(_)));
                assert(items0.take(j + 1)[k] matches Ok(InferStreamResponse::Prefill(_)));
                assert(has_prefill(items0.take(j + 1)));
            }
        }
        let ev = stream_step(&mut st, item);
        j += 1;
        if let Some(e) = ev {
            evs.push(e);
        }
        proof {
            if !has_prefill(items0.take(j as int)) {
                assert(!(items0[j - 1] matches Ok(InferStreamResponse::Prefill(_)))) by {
                    assert(items0.take(j as int)[j - 1] == items0[j - 1]);
                }
            }
        }
    }
    if !st.terminated {
        evs.push(incomplete_event());
        proof {
            assert(j == n);
            assert(items0.take(j as int) =~= items0);
        }
    } else {
        proof {
            assert(forall|t: int|
                (0 <= t < items0.len() && is_terminal_item(items0[t]) && (forall|k: int|
                    0 <= k < t ==> !is_terminal_item(#[trigger] items0[k]))) ==> t == j - 1);
            assert(items0.take(j as int) =~= items0.take(j as int));
            if !has_prefill(items0) {
                assert(forall|k: int|
                    0 <= k < j ==> items0.take(j as int)[k] == items0[k]);
            }
        }
    }
    evs
}

/// Whether an outgoing event renders the given `Intermediate` channel item:
/// the token and its top-token row, under the index one past the items
/// before it, with neither text nor details. Items of any other shape make
/// no claim.
pub open spec fn intermediate_matches(
    ev: StreamEvent,
    item: Result<InferStreamResponse, InferError>,
    t: int,
) -> bool {
    match item {
        Ok(InferStreamResponse::Intermediate { token, top_tokens }) => {
            &&& ev matches StreamEvent::Token(r)
            &&& r.index == t + 1
            &&& r.token == token
            &&& r.top_tokens == top_tokens
            &&& r.generated_text is None
            &&& r.details is None
        },
        _ => true,
    }
}

/// Whether the last outgoing event renders the given terminal channel item:
/// an `End` becomes the final token event (prompt prepended, details
/// attached when asked for, index one past the items before it), an error
/// becomes its serialized body.
pub open spec fn terminal_matches(
    ev: StreamEvent,
    item: Result<InferStreamResponse, InferError>,
    t: int,
    details: bool,
    p: GenerateParameters,
    inputs: Seq<char>,
) -> bool {
    match item {
        Ok(InferStreamResponse::End { token, generated_text, top_tokens, .. }) => {
            &&& ev matches StreamEvent::Token(r)
            &&& r.index == t + 1
            &&& r.token == token
            &&& r.top_tokens == top_tokens
            &&& r.generated_text matches Some(out)
            &&& out@ == (if p.return_full_text == Some(true) {
                inputs
            } else {
                Seq::<char>::empty()
            }) + generated_text.text@
            &&& r.details == (if details {
                Some(StreamDetails {
                    finish_reason: generated_text.finish_reason,
                    generated_tokens: generated_text.generated_tokens,
                    seed: generated_text.seed,
                })
            } else {
                None::<StreamDetails>
            })
        },
        Err(e) => {
            &&& ev matches StreamEvent::Error(b)
            &&& b.error@ == spec_error_message(e)
            &&& b.error_type@ == spec_error_type(e)
        },
        _ => true,
    }
}

} // verus!
