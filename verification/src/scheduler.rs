//! The batching scheduler's decisions: when and how to extend the running
//! batch from the queue, how each shard generation is routed back to its
//! entry's stream, and which entries the next `filter_batch` call keeps.

use vstd::prelude::*;
use crate::types::{GeneratedText, InferStreamResponse, PrefillToken, Token};

verus! {

/// The batching parameters, fixed at construction of the router. The
/// waiting-served ratio is held in thousandths.
#[derive(Clone, Copy, Debug)]
pub struct BatchingConfig {
    pub waiting_served_ratio_permille: u64,
    pub max_batch_prefill_tokens: u32,
    pub max_batch_total_tokens: u32,
    pub max_waiting_tokens: usize,
    pub max_batch_size: Option<usize>,
}

/// The budgets and minimum size of one attempt to pull a new batch from the
/// queue next to a running batch.
#[derive(Clone, Copy, Debug)]
pub struct ExtendPlan {
    pub min_size: Option<usize>,
    pub prefill_token_budget: u32,
    pub token_budget: u32,
}

/// Plans an extension of the running batch: the token budget is the
/// headroom under `max_batch_total_tokens`, the prefill budget is capped by
/// `max_batch_prefill_tokens`, and once `max_waiting_tokens` decode steps
/// have passed since the last merge, a minimum size of
/// `floor(current_size * waiting_served_ratio)` is demanded.
pub fn extend_plan(
    batch_max_tokens: u64,
    current_size: usize,
    waiting_tokens: usize,
    cfg: &BatchingConfig,
) -> (p: ExtendPlan)
    requires
        batch_max_tokens <= cfg.max_batch_total_tokens,
        current_size as int * cfg.waiting_served_ratio_permille as int / 1000 <= usize::MAX
            as int,
    ensures
        p.token_budget == cfg.max_batch_total_tokens - batch_max_tokens,
        p.prefill_token_budget == (if cfg.max_batch_prefill_tokens <= p.token_budget {
            cfg.max_batch_prefill_tokens as int
        } else {
            p.token_budget as int
        }),
        waiting_tokens < cfg.max_waiting_tokens ==> p.min_size is None,
        waiting_tokens >= cfg.max_waiting_tokens ==> (p.min_size matches Some(m) && m as int
            == ((current_size * cfg.waiting_served_ratio_permille) as int / 1000)),
{
    let token_budget = cfg.max_batch_total_tokens - (batch_max_tokens as u32);
    let prefill_token_budget = if cfg.max_batch_prefill_tokens <= token_budget {
        cfg.max_batch_prefill_tokens
    } else {
        token_budget
    };
    let min_size = if waiting_tokens >= cfg.max_waiting_tokens {
        let scaled = (current_size as u128 * cfg.waiting_served_ratio_permille as u128) / 1000;
        Some(scaled as usize)
    } else {
        None
    };
    ExtendPlan { min_size, prefill_token_budget, token_budget }
}

/// One shard generation for one entry: the prefill tokens when this was the
/// prefill pass, the advanced tokens (more than one under speculative
/// decoding) with their top-token rows, and the terminal payload when the
/// entry ended.
#[derive(Clone, Debug)]
pub struct Generation {
    pub request_id: u64,
    pub prefill_tokens: Option<Vec<PrefillToken>>,
    pub tokens: Vec<Token>,
    pub top_tokens: Vec<Vec<Token>>,
    pub generated_text: Option<GeneratedText>,
}

/// Routes one generation to its entry's stream: the prefill tokens first
/// when present, then one `Intermediate` per advanced token in order, with
/// the last token becoming the `End` when the entry ended. An `End` is only
/// ever the last item, so each entry's channel sees at most one terminator.
pub fn events_for_generation(g: Generation, start_ms: u64, queued_ms: u64) -> (evs: Vec<
    InferStreamResponse,
>)
    requires
        g.top_tokens@.len() == g.tokens@.len(),
        g.generated_text is Some ==> g.tokens@.len() >= 1,
    ensures
        ({
            let p: int = if g.prefill_tokens is Some {
                1
            } else {
                0
            };
            &&& evs@.len() == p + g.tokens@.len()
            &&& (g.prefill_tokens matches Some(pt) ==> evs@[0] == InferStreamResponse::Prefill(
                pt,
            ))
            &&& forall|i: int|
                0 <= i < g.tokens@.len() ==> #[trigger] evs@[p + i] == (if i == g.tokens@.len()
                    - 1 && g.generated_text is Some {
                    InferStreamResponse::End {
                        token: g.tokens@[i],
                        generated_text: g.generated_text->0,
                        start_ms,
                        queued_ms,
                        top_tokens: g.top_tokens@[i],
                    }
                } else {
                    InferStreamResponse::Intermediate {
                        token: g.tokens@[i],
                        top_tokens: g.top_tokens@[i],
                    }
                })
        }),
{
    let ghost g0 = g;
    let mut evs: Vec<InferStreamResponse> = Vec::new();
    let ghost p: int = if g.prefill_tokens is Some {
        1
    } else {
        0
    };
    let has_prefill = g.prefill_tokens.is_some();
    match g.prefill_tokens {
        Some(pt) => evs.push(InferStreamResponse::Prefill(pt)),
        None => {}
    }
    let n = g.tokens.len();
    let final_end = g.generated_text.is_some();
    let mut gt = g.generated_text;
    let mut tokens = g.tokens;
    let mut tops = g.top_tokens;
    let ghost tokens0 = tokens@;
    let ghost tops0 = tops@;
    let mut i: usize = 0;
    while i < n
        invariant
            n == tokens0.len(),
            tops0.len() == tokens0.len(),
            i <= n,
            tokens@ == tokens0.skip(i as int),
            tops@ == tops0.skip(i as int),
            evs@.len() == p + i,
            p == (if has_prefill {
                1int
            } else {
                0int
            }),
            final_end ==> n >= 1,
            has_prefill ==> evs@.len() >= 1 && evs@[0] == InferStreamResponse::Prefill(
                g0.prefill_tokens->0,
            ),
            final_end == (g0.generated_text is Some),
            final_end ==> (i < n ==> gt == g0.generated_text),
            forall|k: int|
                0 <= k < i ==> #[trigger] evs@[p + k] == (if k == tokens0.len() - 1 && final_end {
                    InferStreamResponse::End {
                        token: tokens0[k],
                        generated_text: g0.generated_text->0,
                        start_ms,
                        queued_ms,
                        top_tokens: tops0[k],
                    }
                } else {
                    InferStreamResponse::Intermediate {
                        token: tokens0[k],
                        top_tokens: tops0[k],
                    }
                }),
        decreases n - i,
    {
        let token = tokens.remove(0);
        let top = tops.remove(0);
        proof {
            assert(tokens@ =~= tokens0.skip(i + 1));
            assert(tops@ =~= tops0.skip(i + 1));
            assert(token == tokens0[i as int]);
            assert(top == tops0[i as int]);
        }
        if i + 1 == n && final_end {
            let generated_text = match gt {
                Some(t) => t,
                None => vstd::pervasive::unreached(),
            };
            gt = None;
            evs.push(InferStreamResponse::End {
                token,
                generated_text,
                start_ms,
                queued_ms,
                top_tokens: top,
            });
        } else {
            evs.push(InferStreamResponse::Intermediate { token, top_tokens: top });
        }
        i += 1;
    }
    evs
}

/// The scheduler's view of one entry of the running batch.
#[derive(Clone, Copy, Debug)]
pub struct BatchEntryState {
    pub id: u64,
    /// The entry's terminal event was sent and its sender closed.
    pub finished: bool,
    /// The entry's receiver was observed closed when an event was sent.
    pub cancelled: bool,
}

/// Whether the scheduler keeps decoding an entry.
pub open spec fn keeps(e: BatchEntryState) -> bool {
    !e.finished && !e.cancelled
}

/// The ids of the entries a `filter_batch` call keeps, in order.
pub open spec fn kept_ids(s: Seq<BatchEntryState>) -> Seq<u64>
    decreases s.len(),
{
    if s.len() == 0 {
        Seq::empty()
    } else {
        kept_ids(s.drop_last()) + (if keeps(s.last()) {
            seq![s.last().id]
        } else {
            Seq::empty()
        })
    }
}

/// Whether the entries' ids are pairwise distinct.
pub open spec fn distinct_ids(s: Seq<BatchEntryState>) -> bool {
    forall|i: int, j: int|
        0 <= i < j < s.len() ==> (#[trigger] s[i]).id != (#[trigger] s[j]).id
}

/// Every kept id belongs to an entry that is neither finished nor
/// cancelled.
pub proof fn lemma_kept_member(s: Seq<BatchEntryState>, x: u64)
    requires
        kept_ids(s).contains(x),
    ensures
        exists|i: int| 0 <= i < s.len() && (#[trigger] s[i]).id == x && keeps(s[i]),
    decreases s.len(),
{
    let bl = s.drop_last();
    if keeps(s.last()) {
        assert(kept_ids(s) =~= kept_ids(bl).push(s.last().id));
    } else {
        assert(kept_ids(s) =~= kept_ids(bl));
    }
    let j = choose|j: int| 0 <= j < kept_ids(s).len() && kept_ids(s)[j] == x;
    if keeps(s.last()) && j == kept_ids(bl).len() {
        assert(s[s.len() - 1].id == x && keeps(s[s.len() - 1]));
    } else {
        assert(kept_ids(bl)[j] == x);
        assert(kept_ids(bl).contains(x));
        lemma_kept_member(bl, x);
        let i = choose|i: int| 0 <= i < bl.len() && (#[trigger] bl[i]).id == x && keeps(bl[i]);
        assert(s[i] == bl[i]);
        assert(s[i].id == x && keeps(s[i]));
    }
}

/// A finished or cancelled entry's id is not among the kept ids: once a
/// receiver closes, the entry is filtered out of the batch at the next
/// `filter_batch` call, within one decode step.
pub proof fn lemma_filtered_out(s: Seq<BatchEntryState>, i: int)
    requires
        distinct_ids(s),
        0 <= i < s.len(),
        !keeps(s[i]),
    ensures
        !kept_ids(s).contains(s[i].id),
{
    if kept_ids(s).contains(s[i].id) {
        lemma_kept_member(s, s[i].id);
        let k = choose|k: int| 0 <= k < s.len() && (#[trigger] s[k]).id == s[i].id && keeps(s[k]);
        assert(k != i);
        assert(s[k].id == s[i].id);
        assert(false);
    }
}

/// Computes the ids to hand to `filter_batch`: the entries still being
/// decoded, in batch order. Cancelled and finished entries are dropped.
pub fn filter_kept_ids(s: &Vec<BatchEntryState>) -> (r: Vec<u64>)
    ensures
        r@ == kept_ids(s@),
        distinct_ids(s@) ==> forall|i: int|
            0 <= i < s@.len() && !keeps(#[trigger] s@[i]) ==> !r@.contains(s@[i].id),
{
    let mut r: Vec<u64> = Vec::new();
    let n = s.len();
    let mut j: usize = 0;
    while j < n
        invariant
            n == s@.len(),
            j <= n,
            r@ == kept_ids(s@.take(j as int)),
        decreases n - j,
    {
        let e = s[j];
        proof {
            assert(s@.take(j + 1).drop_last() =~= s@.take(j as int));
            assert(s@.take(j + 1).last() == s@[j as int]);
        }
        if !e.finished && !e.cancelled {
            r.push(e.id);
        }
        j += 1;
    }
    proof {
        assert(s@.take(n as int) =~= s@);
        if distinct_ids(s@) {
            assert forall|i: int| 0 <= i < s@.len() && !keeps(#[trigger] s@[i]) implies !r@
                .contains(s@[i].id) by {
                lemma_filtered_out(s@, i);
            }
        }
    }
    r
}

/// Aggregates one fanned-out shard call: the call succeeds only when every
/// shard succeeded, shard 0's payload is authoritative, and the first
/// failure is the one reported. The shards are a fate-sharing unit: no
/// partial success is retried.
pub fn aggregate_shards<T, E>(results: Vec<Result<T, E>>) -> (r: Result<T, E>)
    requires
        results@.len() > 0,
    ensures
        (forall|k: int| 0 <= k < results@.len() ==> (#[trigger] results@[k]) is Ok) ==> ((
        r matches Ok(payload)) && r->Ok_0 == results@[0]->Ok_0),
        forall|e: int|
            (0 <= e < results@.len() && results@[e] is Err && (forall|k: int|
                0 <= k < e ==> !((#[trigger] results@[k]) is Err))) ==> ((r matches Err(err))
                && r->Err_0 == results@[e]->Err_0),
{
    let ghost results0 = results@;
    let mut rest = results;
    let n = rest.len();
    let first = rest.remove(0);
    let first = match first {
        Ok(payload) => payload,
        Err(e) => {
            return Err(e);
        }
    };
    let mut j: usize = 1;
    while j < n
        invariant
            results0 == results@,
            n == results0.len(),
            1 <= j <= n,
            rest@ == results0.skip(j as int),
            forall|k: int| 0 <= k < j ==> !((#[trigger] results0[k]) is Err),
        decreases n - j,
    {
        let item = rest.remove(0);
        proof {
            assert(rest@ =~= results0.skip(j + 1));
            assert(item == results0[j as int]);
        }
        match item {
            Ok(_) => {}
            Err(e) => {
                proof {
                    assert(forall|ee: int|
                        (0 <= ee < results0.len() && results0[ee] is Err && (forall|k: int|
                            0 <= k < ee ==> !((#[trigger] results0[k]) is Err))) ==> ee
                            == j as int);
                }
                return Err(e);
            }
        }
        j += 1;
    }
    Ok(first)
}

/// The sum over the resident batches of their token claims never exceeds
/// `max_batch_total_tokens`: when a new batch is formed under the headroom
/// budget `max_batch_total_tokens - resident`, the claims still fit.
pub proof fn lemma_resident_budget(resident: int, new_batch: int, max_total: int)
    requires
        0 <= resident <= max_total,
        0 <= new_batch <= max_total - resident,
    ensures
        resident + new_batch <= max_total,
{
}

} // verus!
