//! The inference facade's request-local logic: admission accounting, the
//! collection of a per-request event channel into one response, the best-of
//! ranking, and the response timing arithmetic.

use vstd::prelude::*;
use crate::errors::InferError;
use crate::types::{GeneratedText, InferResponse, InferStreamResponse, PrefillToken, Token};

verus! {

/// The admission book-keeping of the facade: a counting permit pool sized to
/// `max_concurrent_requests`. The real scheduler suspends on channels; this
/// state carries the counts the permits are granted by.
pub struct Admission {
    pub capacity: usize,
    pub in_flight: usize,
}

/// Well-formedness of the admission state: never more requests past the
/// permit than the pool holds.
pub open spec fn admission_wf(a: Admission) -> bool {
    a.in_flight <= a.capacity
}

impl Admission {
    /// A fresh pool with every permit available.
    pub fn new(max_concurrent_requests: usize) -> (a: Admission)
        ensures
            admission_wf(a),
            a.capacity == max_concurrent_requests,
            a.in_flight == 0,
    {
        Admission { capacity: max_concurrent_requests, in_flight: 0 }
    }

    /// Takes a permit without waiting; a saturated pool refuses with
    /// `Overloaded` and is left unchanged.
    pub fn try_acquire(&mut self) -> (r: Result<(), InferError>)
        requires
            admission_wf(*old(self)),
        ensures
            admission_wf(*final(self)),
            final(self).capacity == old(self).capacity,
            old(self).in_flight < old(self).capacity ==> r is Ok && final(self).in_flight
                == old(self).in_flight + 1,
            old(self).in_flight >= old(self).capacity ==> ((r matches Err(
                InferError::Overloaded,
            )) && final(self).in_flight == old(self).in_flight),
    {
        if self.in_flight < self.capacity {
            self.in_flight = self.in_flight + 1;
            Ok(())
        } else {
            Err(InferError::Overloaded)
        }
    }

    /// Returns a permit when its response stream is dropped.
    pub fn release(&mut self)
        requires
            admission_wf(*old(self)),
            old(self).in_flight > 0,
        ensures
            admission_wf(*final(self)),
            final(self).capacity == old(self).capacity,
            final(self).in_flight == old(self).in_flight - 1,
    {
        self.in_flight = self.in_flight - 1;
    }
}

/// At most `capacity` requests are ever simultaneously past the permit:
/// every well-formed admission state bounds its in-flight count, and
/// `try_acquire` and `release` preserve well-formedness.
pub proof fn lemma_admission_bound(a: Admission)
    requires
        admission_wf(a),
    ensures
        a.in_flight <= a.capacity,
{
}

/// The tokens a channel's items carry, one per `Intermediate` and one per
/// `End`, in order.
pub open spec fn token_seq(s: Seq<Result<InferStreamResponse, InferError>>) -> Seq<Token>
    decreases s.len(),
{
    if s.len() == 0 {
        Seq::empty()
    } else {
        token_seq(s.drop_last()) + (match s.last() {
            Ok(InferStreamResponse::Intermediate { token, .. }) => seq![token],
            Ok(InferStreamResponse::End { token, .. }) => seq![token],
            _ => Seq::empty(),
        })
    }
}

/// The top-token rows a channel's items carry, aligned with `token_seq`.
pub open spec fn top_seq(s: Seq<Result<InferStreamResponse, InferError>>) -> Seq<Vec<Token>>
    decreases s.len(),
{
    if s.len() == 0 {
        Seq::empty()
    } else {
        top_seq(s.drop_last()) + (match s.last() {
            Ok(InferStreamResponse::Intermediate { top_tokens, .. }) => seq![top_tokens],
            Ok(InferStreamResponse::End { top_tokens, .. }) => seq![top_tokens],
            _ => Seq::empty(),
        })
    }
}

/// The prompt tokens of the last `Prefill` item, empty when none arrived.
pub open spec fn last_prefill(s: Seq<Result<InferStreamResponse, InferError>>) -> Seq<
    PrefillToken,
>
    decreases s.len(),
{
    if s.len() == 0 {
        Seq::empty()
    } else {
        match s.last() {
            Ok(InferStreamResponse::Prefill(p)) => p@,
            _ => last_prefill(s.drop_last()),
        }
    }
}

/// The terminal payload of the last `End` item, with its batch and queue
/// instants, when one arrived.
pub open spec fn last_end(s: Seq<Result<InferStreamResponse, InferError>>) -> Option<
    (GeneratedText, u64, u64),
>
    decreases s.len(),
{
    if s.len() == 0 {
        None
    } else {
        match s.last() {
            Ok(InferStreamResponse::End { generated_text, start_ms, queued_ms, .. }) => Some(
                (generated_text, start_ms, queued_ms),
            ),
            _ => last_end(s.drop_last()),
        }
    }
}

/// Whether any item of the channel is an error.
pub open spec fn has_err(s: Seq<Result<InferStreamResponse, InferError>>) -> bool {
    exists|k: int| 0 <= k < s.len() && (#[trigger] s[k]) is Err
}

/// Drains a whole per-request channel into one response, as the facade's
/// non-streaming path does: prompt tokens from the last `Prefill`, one token
/// and top-token row per `Intermediate` and `End`, the terminal payload from
/// the last `End`. The first error item fails the request with that error; a
/// channel that closes without an `End` is an incomplete generation.
///
/// A request that ends properly answers with every token the shards sent:
/// when the shards report one prefill token per prompt position and a
/// `generated_tokens` count equal to the tokens they streamed, the response
/// has `prefill` of length `input_length` and `tokens` of length
/// `generated_tokens`.
pub fn collect_stream(
    items: Vec<Result<InferStreamResponse, InferError>>,
    input_length: u32,
) -> (r: Result<InferResponse, InferError>)
    ensures
        forall|e: int|
            (0 <= e < items@.len() && items@[e] is Err && (forall|k: int|
                0 <= k < e ==> !((#[trigger] items@[k]) is Err))) ==> ((r matches Err(err))
                && r->Err_0 == items@[e]->Err_0),
        !has_err(items@) && last_end(items@) is Some ==> (r matches Ok(resp) && {
            &&& resp.prefill@ == last_prefill(items@)
            &&& resp.input_length == input_length
            &&& resp.tokens@ == token_seq(items@)
            &&& resp.top_tokens@ == top_seq(items@)
            &&& Some((resp.generated_text, resp.start_ms, resp.queued_ms)) == last_end(items@)
        }),
        !has_err(items@) && last_end(items@) is None ==> r matches Err(
            InferError::IncompleteGeneration,
        ),
        (!has_err(items@) && ((last_end(items@) matches Some(end)
            && end.0.generated_tokens == token_seq(items@).len())) && last_prefill(items@).len()
            == input_length) ==> ((r matches Ok(resp)) && r->Ok_0.prefill@.len() == input_length
            && r->Ok_0.tokens@.len() == r->Ok_0.generated_text.generated_tokens),
{
    let ghost items0 = items@;
    let mut rest = items;
    let n = rest.len();
    let mut j: usize = 0;
    let mut prefill: Vec<PrefillToken> = Vec::new();
    let mut tokens: Vec<Token> = Vec::new();
    let mut top_tokens: Vec<Vec<Token>> = Vec::new();
    let mut end: Option<(GeneratedText, u64, u64)> = None;
    while j < n
        invariant
            items0 == items@,
            n == items0.len(),
            j <= n,
            rest@ == items0.skip(j as int),
            forall|k: int| 0 <= k < j ==> !((#[trigger] items0[k]) is Err),
            prefill@ == last_prefill(items0.take(j as int)),
            tokens@ == token_seq(items0.take(j as int)),
            top_tokens@ == top_seq(items0.take(j as int)),
            end == last_end(items0.take(j as int)),
        decreases n - j,
    {
        let item = rest.remove(0);
        proof {
            assert(rest@ =~= items0.skip(j + 1));
            assert(item == items0[j as int]);
            assert(items0.take(j + 1).drop_last() =~= items0.take(j as int));
            assert(items0.take(j + 1).last() == items0[j as int]);
        }
        match item {
            Ok(InferStreamResponse::Prefill(p)) => {
                prefill = p;
            }
            Ok(InferStreamResponse::Intermediate { token, top_tokens: tt }) => {
                tokens.push(token);
                top_tokens.push(tt);
            }
            Ok(InferStreamResponse::End {
                token,
                generated_text,
                start_ms,
                queued_ms,
                top_tokens: tt,
            }) => {
                tokens.push(token);
                top_tokens.push(tt);
                end = Some((generated_text, start_ms, queued_ms));
            }
            Err(e) => {
                proof {
                    assert((items0[j as int]) is Err);
                    assert(items0[j as int]->Err_0 == e);
                    assert(has_err(items0));
                    assert(forall|ee: int|
                        (0 <= ee < items0.len() && items0[ee] is Err && (forall|k: int|
                            0 <= k < ee ==> !((#[trigger] items0[k]) is Err))) ==> ee
                            == j as int);
                }
                return Err(e);
            }
        }
        j += 1;
    }
    proof {
        assert(items0.take(j as int) =~= items0);
    }
    match end {
        Some((generated_text, start_ms, queued_ms)) => Ok(InferResponse {
            prefill,
            input_length,
            tokens,
            generated_text,
            queued_ms,
            start_ms,
            top_tokens,
        }),
        None => Err(InferError::IncompleteGeneration),
    }
}

/// The summed log-probability of a token sequence, in thousandths.
pub open spec fn logprob_sum(ts: Seq<Token>) -> int
    decreases ts.len(),
{
    if ts.len() == 0 {
        0
    } else {
        logprob_sum(ts.drop_last()) + ts.last().logprob_milli
    }
}

proof fn lemma_logprob_sum_bound(ts: Seq<Token>)
    ensures
        -(ts.len() as int) * 0x8000_0000_0000_0000 <= logprob_sum(ts) <= (ts.len() as int)
            * 0x8000_0000_0000_0000,
    decreases ts.len(),
{
    if ts.len() > 0 {
        lemma_logprob_sum_bound(ts.drop_last());
        assert((ts.len() as int) * 0x8000_0000_0000_0000 == (ts.len() - 1)
            * 0x8000_0000_0000_0000 + 0x8000_0000_0000_0000) by (nonlinear_arith);
    }
}

/// The summed log-probability of a response's tokens, computed exactly.
fn response_logprob(resp: &InferResponse) -> (s: i128)
    requires
        resp.tokens@.len() < 0x8000_0000_0000_0000,
    ensures
        s as int == logprob_sum(resp.tokens@),
{
    let mut acc: i128 = 0;
    let mut k: usize = 0;
    let n = resp.tokens.len();
    while k < n
        invariant
            n == resp.tokens@.len() < 0x8000_0000_0000_0000,
            k <= n,
            acc as int == logprob_sum(resp.tokens@.take(k as int)),
        decreases n - k,
    {
        proof {
            assert(resp.tokens@.take(k + 1).drop_last() =~= resp.tokens@.take(k as int));
            lemma_logprob_sum_bound(resp.tokens@.take(k as int));
            assert((k as int) * 0x8000_0000_0000_0000 < 0x8000_0000_0000_0000
                * 0x8000_0000_0000_0000) by (nonlinear_arith)
                requires
                    0 <= k < 0x8000_0000_0000_0000,
            ;
            assert(-(0x8000_0000_0000_0000 * 0x8000_0000_0000_0000) < -((k as int)
                * 0x8000_0000_0000_0000)) by (nonlinear_arith)
                requires
                    0 <= k < 0x8000_0000_0000_0000,
            ;
        }
        acc = acc + resp.tokens[k].logprob_milli as i128;
        k += 1;
    }
    proof {
        assert(resp.tokens@.take(n as int) =~= resp.tokens@);
    }
    acc
}

/// Picks the winning generation of a best-of contest: the first response
/// whose summed token log-probability is highest.
pub fn pick_best(rs: &Vec<InferResponse>) -> (best: usize)
    requires
        rs@.len() > 0,
        forall|j: int| 0 <= j < rs@.len() ==> (#[trigger] rs@[j]).tokens@.len()
            < 0x8000_0000_0000_0000,
    ensures
        best < rs@.len(),
        forall|j: int|
            0 <= j < rs@.len() ==> logprob_sum(rs@[best as int].tokens@) >= logprob_sum(
                (#[trigger] rs@[j]).tokens@,
            ),
        forall|j: int|
            0 <= j < best ==> logprob_sum(rs@[best as int].tokens@) > logprob_sum(
                (#[trigger] rs@[j]).tokens@,
            ),
{
    let mut best: usize = 0;
    let mut best_sum: i128 = response_logprob(&rs[0]);
    let mut j: usize = 1;
    while j < rs.len()
        invariant
            rs@.len() > 0,
            forall|k: int| 0 <= k < rs@.len() ==> (#[trigger] rs@[k]).tokens@.len()
                < 0x8000_0000_0000_0000,
            1 <= j <= rs@.len(),
            best < j,
            best_sum as int == logprob_sum(rs@[best as int].tokens@),
            forall|k: int|
                0 <= k < j ==> best_sum as int >= logprob_sum((#[trigger] rs@[k]).tokens@),
            forall|k: int|
                0 <= k < best ==> best_sum as int > logprob_sum((#[trigger] rs@[k]).tokens@),
        decreases rs@.len() - j,
    {
        let s = response_logprob(&rs[j]);
        if s > best_sum {
            best = j;
            best_sum = s;
        }
        j += 1;
    }
    best
}

/// The response timings the non-streaming route reports in its headers, in
/// milliseconds. `time_per_token_ms` is the inference time split over the
/// generated tokens, zero when nothing was generated.
pub struct Timings {
    pub total_ms: u64,
    pub validation_ms: u64,
    pub queue_ms: u64,
    pub inference_ms: u64,
    pub time_per_token_ms: u64,
}

/// Computes the response timings from the request's instants: arrival,
/// queueing (validation done), first batching, and now.
pub fn compute_timings(
    request_start_ms: u64,
    queued_ms: u64,
    batch_start_ms: u64,
    now_ms: u64,
    generated_tokens: u32,
) -> (t: Timings)
    requires
        request_start_ms <= queued_ms <= batch_start_ms <= now_ms,
    ensures
        t.total_ms == now_ms - request_start_ms,
        t.validation_ms == queued_ms - request_start_ms,
        t.queue_ms == batch_start_ms - queued_ms,
        t.inference_ms == now_ms - batch_start_ms,
        generated_tokens == 0 ==> t.time_per_token_ms == 0,
        generated_tokens > 0 ==> t.time_per_token_ms == (now_ms - batch_start_ms) as u64
            / generated_tokens as u64,
{
    let inference_ms = now_ms - batch_start_ms;
    let time_per_token_ms = if generated_tokens == 0 {
        0
    } else {
        inference_ms / (generated_tokens as u64)
    };
    Timings {
        total_ms: now_ms - request_start_ms,
        validation_ms: queued_ms - request_start_ms,
        queue_ms: batch_start_ms - queued_ms,
        inference_ms,
        time_per_token_ms,
    }
}

} // verus!
