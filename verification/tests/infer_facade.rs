use tgi_router::errors::InferError;
use tgi_router::infer::{
    collect_stream, compute_timings, pick_best, Admission,
};
use tgi_router::server::build_generate_response;
use tgi_router::types::{
    FinishReason, GeneratedText, InferResponse, InferStreamResponse, PrefillToken, Token,
};

fn tok(id: u32, text: &str, logprob_milli: i64) -> Token {
    Token { id, text: text.to_string(), logprob_milli, special: false }
}

fn pre(id: u32, text: &str) -> PrefillToken {
    PrefillToken { id, text: text.to_string(), logprob_milli: -1 }
}

#[test]
fn generate_hello_world_scenario() {
    // A deterministic shard emits " world", then "!" flagged terminal with
    // an end-of-sequence finish; the collected response and its details
    // mirror them.
    let items = vec![
        Ok(InferStreamResponse::Prefill(vec![pre(10, "hello")])),
        Ok(InferStreamResponse::Intermediate {
            token: tok(1, " world", -120),
            top_tokens: Vec::new(),
        }),
        Ok(InferStreamResponse::End {
            token: tok(2, "!", -80),
            generated_text: GeneratedText {
                text: " world!".to_string(),
                generated_tokens: 2,
                finish_reason: FinishReason::EndOfSequenceToken,
                seed: Some(0),
            },
            start_ms: 30,
            queued_ms: 20,
            top_tokens: Vec::new(),
        }),
    ];
    let resp = collect_stream(items, 1).unwrap();
    assert_eq!(resp.input_length, 1);
    assert_eq!(resp.prefill.len(), 1);
    assert_eq!(resp.tokens.len(), 2);
    assert_eq!(resp.tokens.len() as u32, resp.generated_text.generated_tokens);
    assert_eq!(resp.generated_text.text, " world!");

    let out = build_generate_response(resp, None, true, None);
    assert_eq!(out.generated_text, " world!");
    let d = out.details.expect("details requested");
    assert_eq!(d.finish_reason, FinishReason::EndOfSequenceToken);
    assert_eq!(d.generated_tokens, 2);
    assert_eq!(d.tokens.len(), 2);
    assert_eq!(d.prefill.len(), 1);
}

#[test]
fn collect_without_end_is_incomplete() {
    let items = vec![Ok(InferStreamResponse::Intermediate {
        token: tok(1, "a", -1),
        top_tokens: Vec::new(),
    })];
    assert!(matches!(collect_stream(items, 1), Err(InferError::IncompleteGeneration)));
}

#[test]
fn collect_returns_first_error() {
    let items = vec![
        Ok(InferStreamResponse::Intermediate { token: tok(1, "a", -1), top_tokens: Vec::new() }),
        Err(InferError::GenerationError("first".to_string())),
        Err(InferError::GenerationError("second".to_string())),
    ];
    match collect_stream(items, 1) {
        Err(InferError::GenerationError(m)) => assert_eq!(m, "first"),
        _ => panic!("expected the first generation error"),
    }
}

#[test]
fn admission_saturates_at_capacity() {
    // With one concurrent request allowed, the second acquisition is
    // refused as overloaded (HTTP 429) until a permit returns.
    let mut a = Admission::new(1);
    assert!(a.try_acquire().is_ok());
    match a.try_acquire() {
        Err(e) => {
            assert!(matches!(e, InferError::Overloaded));
            assert_eq!(e.status_code(), 429);
        }
        Ok(()) => panic!("second acquisition must be refused"),
    }
    a.release();
    assert!(a.try_acquire().is_ok());
}

#[test]
fn best_of_picks_highest_logprob_sum() {
    let mk = |lps: &[i64]| InferResponse {
        prefill: Vec::new(),
        input_length: 1,
        tokens: lps.iter().enumerate().map(|(i, lp)| tok(i as u32, "t", *lp)).collect(),
        generated_text: GeneratedText {
            text: "t".to_string(),
            generated_tokens: lps.len() as u32,
            finish_reason: FinishReason::Length,
            seed: None,
        },
        queued_ms: 0,
        start_ms: 0,
        top_tokens: Vec::new(),
    };
    let rs = vec![mk(&[-500, -500]), mk(&[-100, -200]), mk(&[-100, -300])];
    assert_eq!(pick_best(&rs), 1);
}

#[test]
fn timings_and_time_per_token() {
    let t = compute_timings(100, 150, 250, 1250, 4);
    assert_eq!(t.total_ms, 1150);
    assert_eq!(t.validation_ms, 50);
    assert_eq!(t.queue_ms, 100);
    assert_eq!(t.inference_ms, 1000);
    assert_eq!(t.time_per_token_ms, 250);
    let t = compute_timings(100, 150, 250, 1250, 0);
    assert_eq!(t.time_per_token_ms, 0);
}

#[test]
fn full_text_prepends_prompt_in_response() {
    let resp = InferResponse {
        prefill: Vec::new(),
        input_length: 1,
        tokens: vec![tok(1, " world!", -1)],
        generated_text: GeneratedText {
            text: " world!".to_string(),
            generated_tokens: 1,
            finish_reason: FinishReason::EndOfSequenceToken,
            seed: None,
        },
        queued_ms: 0,
        start_ms: 0,
        top_tokens: Vec::new(),
    };
    let out = build_generate_response(resp, Some("hello".to_string()), false, None);
    assert_eq!(out.generated_text, "hello world!");
    assert!(out.details.is_none());
}

#[test]
fn best_of_sequences_are_rendered_in_details() {
    let mk = |text: &str| InferResponse {
        prefill: Vec::new(),
        input_length: 1,
        tokens: vec![tok(1, text, -1)],
        generated_text: GeneratedText {
            text: text.to_string(),
            generated_tokens: 1,
            finish_reason: FinishReason::Length,
            seed: Some(7),
        },
        queued_ms: 0,
        start_ms: 0,
        top_tokens: Vec::new(),
    };
    let out = build_generate_response(mk("best"), None, true, Some(vec![mk("worse")]));
    let d = out.details.unwrap();
    let bos = d.best_of_sequences.unwrap();
    assert_eq!(bos.len(), 1);
    assert_eq!(bos[0].generated_text, "worse");
    assert_eq!(bos[0].seed, Some(7));
}
