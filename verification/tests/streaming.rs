use tgi_router::errors::InferError;
use tgi_router::stream::{stream_events, stream_state_new, stream_step, StreamEvent};
use tgi_router::types::{
    FinishReason, GenerateParameters, GeneratedText, InferStreamResponse, Token,
};

fn tok(id: u32, text: &str) -> Token {
    Token { id, text: text.to_string(), logprob_milli: -100, special: false }
}

fn intermediate(id: u32, text: &str) -> Result<InferStreamResponse, InferError> {
    Ok(InferStreamResponse::Intermediate { token: tok(id, text), top_tokens: Vec::new() })
}

fn end(
    id: u32,
    text: &str,
    full: &str,
    generated: u32,
    reason: FinishReason,
) -> Result<InferStreamResponse, InferError> {
    Ok(InferStreamResponse::End {
        token: tok(id, text),
        generated_text: GeneratedText {
            text: full.to_string(),
            generated_tokens: generated,
            finish_reason: reason,
            seed: Some(0),
        },
        start_ms: 20,
        queued_ms: 10,
        top_tokens: Vec::new(),
    })
}

#[test]
fn events_are_ordered_and_indexed() {
    let p = GenerateParameters::default();
    let items = vec![
        intermediate(1, "a"),
        intermediate(2, "b"),
        end(3, "c", "abc", 3, FinishReason::EndOfSequenceToken),
    ];
    let evs = stream_events(&p, &"hi".to_string(), items, false);
    assert_eq!(evs.len(), 3);
    for (i, ev) in evs.iter().enumerate() {
        match ev {
            StreamEvent::Token(r) => {
                assert_eq!(r.index as usize, i + 1);
                if i < 2 {
                    assert!(r.generated_text.is_none());
                    assert!(r.details.is_none());
                } else {
                    assert_eq!(r.generated_text.as_deref(), Some("abc"));
                }
            }
            StreamEvent::Error(_) => panic!("unexpected error event"),
        }
    }
}

#[test]
fn best_of_stream_is_refused() {
    let mut p = GenerateParameters::default();
    p.best_of = Some(4);
    p.do_sample = true;
    let items = vec![intermediate(1, "a")];
    let evs = stream_events(&p, &"hi".to_string(), items, false);
    assert_eq!(evs.len(), 1);
    match &evs[0] {
        StreamEvent::Error(b) => {
            assert_eq!(b.error_type, "validation");
            assert!(b.error.contains("`best_of` != 1 is not supported when streaming tokens"));
        }
        StreamEvent::Token(_) => panic!("expected an error event"),
    }
    assert_eq!(
        InferError::Validation(tgi_router::errors::ValidationError::BestOfStream).status_code(),
        422
    );
}

#[test]
fn decoder_input_details_stream_refused() {
    let mut p = GenerateParameters::default();
    p.decoder_input_details = true;
    let evs = stream_events(&p, &"hi".to_string(), vec![], false);
    assert_eq!(evs.len(), 1);
    match &evs[0] {
        StreamEvent::Error(b) => assert_eq!(b.error_type, "validation"),
        StreamEvent::Token(_) => panic!("expected an error event"),
    }
}

#[test]
fn incomplete_stream_reports_500_error() {
    let p = GenerateParameters::default();
    let items = vec![intermediate(1, "a")];
    let evs = stream_events(&p, &"hi".to_string(), items, false);
    assert_eq!(evs.len(), 2);
    match &evs[1] {
        StreamEvent::Error(b) => {
            assert_eq!(b.error, "Incomplete generation");
            assert_eq!(b.error_type, "incomplete_generation");
        }
        StreamEvent::Token(_) => panic!("expected the incomplete-generation event"),
    }
    assert_eq!(InferError::IncompleteGeneration.status_code(), 500);
}

#[test]
fn length_cap_ends_with_length_details() {
    let p = GenerateParameters::default();
    let mut items: Vec<Result<InferStreamResponse, InferError>> = Vec::new();
    for i in 0..4u32 {
        items.push(intermediate(i, "t"));
    }
    items.push(end(4, "t", "ttttt", 5, FinishReason::Length));
    let evs = stream_events(&p, &"hi".to_string(), items, true);
    assert_eq!(evs.len(), 5);
    match &evs[4] {
        StreamEvent::Token(r) => {
            let d = r.details.expect("details requested");
            assert_eq!(d.finish_reason, FinishReason::Length);
            assert_eq!(d.generated_tokens, 5);
            assert!(r.generated_text.is_some());
        }
        StreamEvent::Error(_) => panic!("expected the final token event"),
    }
}

#[test]
fn return_full_text_prepends_prompt() {
    let mut p = GenerateParameters::default();
    p.return_full_text = Some(true);
    let items = vec![end(1, "!", " world!", 1, FinishReason::EndOfSequenceToken)];
    let evs = stream_events(&p, &"hello".to_string(), items, false);
    match &evs[0] {
        StreamEvent::Token(r) => assert_eq!(r.generated_text.as_deref(), Some("hello world!")),
        StreamEvent::Error(_) => panic!("expected a token event"),
    }
}

#[test]
fn shard_error_becomes_error_event() {
    let p = GenerateParameters::default();
    let items = vec![
        intermediate(1, "a"),
        Err(InferError::GenerationError("cuda out of memory".to_string())),
    ];
    let evs = stream_events(&p, &"hi".to_string(), items, false);
    assert_eq!(evs.len(), 2);
    match &evs[1] {
        StreamEvent::Error(b) => {
            assert_eq!(b.error_type, "generation");
            assert_eq!(b.error, "Request failed during generation: cuda out of memory");
        }
        StreamEvent::Token(_) => panic!("expected an error event"),
    }
}

#[test]
fn step_skips_prefill_but_counts_it() {
    let mut st = stream_state_new(false, None);
    let ev = stream_step(&mut st, Ok(InferStreamResponse::Prefill(Vec::new())));
    assert!(ev.is_none());
    assert_eq!(st.index, 1);
    let ev = stream_step(&mut st, intermediate(7, "x"));
    match ev {
        Some(StreamEvent::Token(r)) => assert_eq!(r.index, 2),
        _ => panic!("expected a token event"),
    }
    assert!(!st.terminated);
}
