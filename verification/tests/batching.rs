use tgi_router::queue::Queue;
use tgi_router::scheduler::aggregate_shards;
use tgi_router::scheduler::{
    events_for_generation, extend_plan, filter_kept_ids, BatchEntryState, BatchingConfig,
    Generation,
};
use tgi_router::types::{FinishReason, GeneratedText, InferStreamResponse, Token};

#[test]
fn append_assigns_monotonic_ids() {
    let mut q = Queue::new(false);
    assert_eq!(q.append(3, 5, 0), 0);
    assert_eq!(q.append(3, 5, 1), 1);
    assert_eq!(q.append(3, 5, 2), 2);
    assert_eq!(q.len(), 3);
}

#[test]
fn batch_respects_token_budget() {
    let mut q = Queue::new(false);
    q.append(10, 10, 0);
    q.append(10, 10, 0);
    q.append(10, 10, 0);
    // Each entry claims 20 tokens; a 50-token budget fits only two.
    let b = q.next_batch(None, None, 1000, 50).unwrap();
    assert_eq!(b.size, 2);
    assert_eq!(b.request_ids, vec![0, 1]);
    assert_eq!(b.max_tokens, 40);
    assert!(b.max_tokens <= 50);
    assert_eq!(q.len(), 1);
}

#[test]
fn batch_respects_prefill_budget() {
    let mut q = Queue::new(false);
    q.append(30, 1, 0);
    q.append(30, 1, 0);
    let b = q.next_batch(None, None, 40, 1000).unwrap();
    assert_eq!(b.size, 1);
    assert_eq!(q.len(), 1);
}

#[test]
fn padding_recomputes_rectangular_cost() {
    // Without padding both entries fit: 2+10 prefill, 2 decode, 14 total.
    let mut q = Queue::new(false);
    q.append(2, 1, 0);
    q.append(10, 1, 0);
    let b = q.next_batch(None, None, 1000, 30).unwrap();
    assert_eq!(b.size, 2);

    // Under padding the second entry balloons the cost to
    // 12 prefill + (10 * 2 + 2) decode = 34 > 30, so only one fits.
    let mut q = Queue::new(true);
    q.append(2, 1, 0);
    q.append(10, 1, 0);
    let b = q.next_batch(None, None, 1000, 30).unwrap();
    assert_eq!(b.size, 1);
    assert_eq!(q.len(), 1);
}

#[test]
fn min_size_unmet_returns_none() {
    let mut q = Queue::new(false);
    q.append(10, 10, 0);
    q.append(10, 10, 0);
    // Only one entry fits the budget, but two are demanded: no batch, and
    // the queue keeps both.
    let r = q.next_batch(Some(2), None, 1000, 25);
    assert!(r.is_none());
    assert_eq!(q.len(), 2);
}

#[test]
fn max_batch_size_caps_entries() {
    let mut q = Queue::new(false);
    q.append(1, 1, 0);
    q.append(1, 1, 0);
    q.append(1, 1, 0);
    let b = q.next_batch(None, Some(2), 1000, 1000).unwrap();
    assert_eq!(b.size, 2);
    assert_eq!(q.len(), 1);
}

#[test]
fn cancelled_entries_are_dropped() {
    let mut q = Queue::new(false);
    let a = q.append(1, 1, 0);
    let b = q.append(1, 1, 0);
    let c = q.append(1, 1, 0);
    q.mark_cancelled(b);
    let batch = q.next_batch(None, None, 1000, 1000).unwrap();
    assert_eq!(batch.request_ids, vec![a, c]);
    assert_eq!(q.len(), 0);
}

#[test]
fn batch_ids_increment() {
    let mut q = Queue::new(false);
    q.append(1, 1, 0);
    let b0 = q.next_batch(None, None, 1000, 1000).unwrap();
    q.append(1, 1, 0);
    let b1 = q.next_batch(None, None, 1000, 1000).unwrap();
    assert_eq!(b0.id, 0);
    assert_eq!(b1.id, 1);
}

fn cfg() -> BatchingConfig {
    BatchingConfig {
        waiting_served_ratio_permille: 1200,
        max_batch_prefill_tokens: 4096,
        max_batch_total_tokens: 16000,
        max_waiting_tokens: 20,
        max_batch_size: None,
    }
}

#[test]
fn extend_plan_budgets_are_headroom() {
    let p = extend_plan(6000, 8, 3, &cfg());
    assert_eq!(p.token_budget, 10000);
    assert_eq!(p.prefill_token_budget, 4096);
    assert!(p.min_size.is_none());
    let p = extend_plan(14000, 8, 3, &cfg());
    assert_eq!(p.token_budget, 2000);
    assert_eq!(p.prefill_token_budget, 2000);
}

#[test]
fn extend_plan_demands_ratio_after_waiting() {
    let p = extend_plan(6000, 10, 20, &cfg());
    // floor(10 * 1.2) = 12
    assert_eq!(p.min_size, Some(12));
}

fn tok(id: u32) -> Token {
    Token { id, text: "t".to_string(), logprob_milli: -1, special: false }
}

#[test]
fn generation_routes_tokens_in_order() {
    let g = Generation {
        request_id: 1,
        prefill_tokens: None,
        tokens: vec![tok(1), tok(2), tok(3)],
        top_tokens: vec![Vec::new(), Vec::new(), Vec::new()],
        generated_text: Some(GeneratedText {
            text: "ttt".to_string(),
            generated_tokens: 3,
            finish_reason: FinishReason::Length,
            seed: None,
        }),
    };
    let evs = events_for_generation(g, 5, 3);
    assert_eq!(evs.len(), 3);
    assert!(matches!(evs[0], InferStreamResponse::Intermediate { .. }));
    assert!(matches!(evs[1], InferStreamResponse::Intermediate { .. }));
    match &evs[2] {
        InferStreamResponse::End { token, generated_text, start_ms, queued_ms, .. } => {
            assert_eq!(token.id, 3);
            assert_eq!(generated_text.generated_tokens, 3);
            assert_eq!(*start_ms, 5);
            assert_eq!(*queued_ms, 3);
        }
        _ => panic!("the last event must be the terminal one"),
    }
}

#[test]
fn generation_without_end_stays_intermediate() {
    let g = Generation {
        request_id: 1,
        prefill_tokens: Some(Vec::new()),
        tokens: vec![tok(9)],
        top_tokens: vec![Vec::new()],
        generated_text: None,
    };
    let evs = events_for_generation(g, 0, 0);
    assert_eq!(evs.len(), 2);
    assert!(matches!(evs[0], InferStreamResponse::Prefill(_)));
    assert!(matches!(evs[1], InferStreamResponse::Intermediate { .. }));
}

#[test]
fn shard_aggregation_is_fate_sharing() {
    let all_ok: Vec<Result<u32, String>> = vec![Ok(7), Ok(7), Ok(7)];
    assert_eq!(aggregate_shards(all_ok), Ok(7));
    let one_fails: Vec<Result<u32, String>> =
        vec![Ok(7), Err("shard 1 fell over".to_string()), Err("shard 2 too".to_string())];
    assert_eq!(aggregate_shards(one_fails), Err("shard 1 fell over".to_string()));
}

#[test]
fn filter_drops_cancelled_and_finished() {
    let s = vec![
        BatchEntryState { id: 1, finished: false, cancelled: false },
        BatchEntryState { id: 2, finished: false, cancelled: true },
        BatchEntryState { id: 3, finished: true, cancelled: false },
        BatchEntryState { id: 4, finished: false, cancelled: false },
    ];
    assert_eq!(filter_kept_ids(&s), vec![1, 4]);
}
