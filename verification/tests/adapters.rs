use tgi_router::errors::{no_tokenizer_error, unhealthy_error};
use tgi_router::finish_reason_from_code;
use tgi_router::health::{health_plan, probe_request, HealthAction};
use tgi_router::server::{
    build_completion_request, build_usage, build_vertex_requests, plan_compat, simple_tokens,
    CompatGenerateRequest, CompatPlan, CompletionRequest, VertexInstance, VertexParameters,
};
use tgi_router::types::{FinishReason, GenerateParameters};

fn completion_req() -> CompletionRequest {
    CompletionRequest {
        model: "m".to_string(),
        prompt: "Say hello".to_string(),
        max_tokens: None,
        temperature_milli: Some(800),
        top_p_milli: Some(900),
        frequency_penalty_milli: Some(100),
        repetition_penalty_milli: None,
        stream: false,
        seed: Some(1),
        suffix: None,
    }
}

#[test]
fn completion_suffix_is_refused() {
    let mut req = completion_req();
    req.suffix = Some("...".to_string());
    let e = build_completion_request(req).unwrap_err();
    assert_eq!(e.error_type, "suffix not supported");
    assert_eq!(
        e.error,
        "Suffix is not supported and can be achieved by preprocessing the prompt."
    );
}

#[test]
fn completion_defaults() {
    let g = build_completion_request(completion_req()).unwrap();
    assert_eq!(g.inputs, "Say hello");
    assert_eq!(g.parameters.max_new_tokens, Some(100));
    assert!(g.parameters.do_sample);
    assert!(g.parameters.details);
    assert!(g.parameters.decoder_input_details);
    assert_eq!(g.parameters.temperature_milli, Some(800));
    assert_eq!(g.parameters.seed, Some(1));

    let mut req = completion_req();
    req.stream = true;
    req.max_tokens = Some(7);
    let g = build_completion_request(req).unwrap();
    assert_eq!(g.parameters.max_new_tokens, Some(7));
    assert!(!g.parameters.decoder_input_details);
}

#[test]
fn usage_totals() {
    let u = build_usage(11, 2);
    assert_eq!(u.prompt_tokens, 11);
    assert_eq!(u.completion_tokens, 2);
    assert_eq!(u.total_tokens, 13);
}

#[test]
fn compat_defaults_return_full_text() {
    let req = CompatGenerateRequest {
        inputs: "hi".to_string(),
        parameters: GenerateParameters::default(),
        stream: false,
    };
    match plan_compat(req, true) {
        CompatPlan::Batch(g) => assert_eq!(g.parameters.return_full_text, Some(true)),
        CompatPlan::Stream(_) => panic!("non-streaming request must use the batch route"),
    }
    let mut p = GenerateParameters::default();
    p.return_full_text = Some(false);
    let req = CompatGenerateRequest { inputs: "hi".to_string(), parameters: p, stream: true };
    match plan_compat(req, true) {
        CompatPlan::Stream(g) => assert_eq!(g.parameters.return_full_text, Some(false)),
        CompatPlan::Batch(_) => panic!("streaming request must use the stream route"),
    }
}

#[test]
fn vertex_rejects_empty_instances() {
    let e = build_vertex_requests(Vec::new()).unwrap_err();
    assert_eq!(e.error_type, "Input validation error");
}

#[test]
fn vertex_maps_instances() {
    let v = build_vertex_requests(vec![
        VertexInstance { inputs: "a".to_string(), parameters: None },
        VertexInstance {
            inputs: "b".to_string(),
            parameters: Some(VertexParameters { max_new_tokens: Some(3), seed: Some(9) }),
        },
    ])
    .unwrap();
    assert_eq!(v.len(), 2);
    assert_eq!(v[0].inputs, "a");
    assert_eq!(v[0].parameters.max_new_tokens, None);
    assert!(v[0].parameters.do_sample);
    assert!(v[0].parameters.details);
    assert!(v[0].parameters.decoder_input_details);
    assert_eq!(v[1].inputs, "b");
    assert_eq!(v[1].parameters.max_new_tokens, Some(3));
    assert_eq!(v[1].parameters.seed, Some(9));
}

#[test]
fn tokenize_offsets_round_trip() {
    let input = "Hello world";
    let ids = vec![5u32, 6];
    let offsets = vec![(0usize, 5usize), (6, 11)];
    let toks = simple_tokens(input, &ids, &offsets);
    assert_eq!(toks.len(), 2);
    assert_eq!(toks[0].id, 5);
    assert_eq!(toks[0].text, "Hello");
    assert_eq!(toks[0].start, 0);
    assert_eq!(toks[0].stop, 5);
    assert_eq!(toks[1].text, "world");
    for t in &toks {
        let sub: String = input.chars().skip(t.start).take(t.stop - t.start).collect();
        assert_eq!(sub, t.text);
    }
}

#[test]
fn tokenize_offsets_are_character_based() {
    let input = "héllo ωorld";
    let offsets = vec![(0usize, 5usize), (6, 11)];
    let ids = vec![1u32, 2];
    let toks = simple_tokens(input, &ids, &offsets);
    assert_eq!(toks[0].text, "héllo");
    assert_eq!(toks[1].text, "ωorld");
}

#[test]
fn missing_tokenizer_is_404() {
    let (code, body) = no_tokenizer_error();
    assert_eq!(code, 404);
    assert_eq!(body.error, "No fast tokenizer or tokenizer.json for this model");
    assert_eq!(body.error_type, "no fast tokenizer");
}

#[test]
fn failed_health_is_503() {
    let (code, body) = unhealthy_error();
    assert_eq!(code, 503);
    assert_eq!(body.error, "unhealthy");
    assert_eq!(body.error_type, "healthcheck");
}

#[test]
fn health_uses_cached_success_once() {
    let (action, flag) = health_plan(true);
    assert!(matches!(action, HealthAction::AssumeHealthy));
    assert!(!flag);
    let (action, flag) = health_plan(false);
    assert!(matches!(action, HealthAction::Probe));
    assert!(!flag);
}

#[test]
fn probe_uses_sentinel_ids() {
    let p = probe_request();
    assert_eq!(p.request_id, u64::MAX);
    assert_eq!(p.batch_id, u64::MAX);
    assert_eq!(p.inputs, "liveness");
    assert_eq!(p.max_new_tokens, 1);
}

#[test]
fn finish_reason_codes() {
    assert_eq!(finish_reason_from_code(0), Some(FinishReason::Length));
    assert_eq!(finish_reason_from_code(1), Some(FinishReason::EndOfSequenceToken));
    assert_eq!(finish_reason_from_code(2), Some(FinishReason::StopSequence));
    assert_eq!(finish_reason_from_code(3), None);
}

#[test]
fn finish_reason_wire_names() {
    assert_eq!(FinishReason::Length.as_str(), "length");
    assert_eq!(FinishReason::EndOfSequenceToken.as_str(), "eos_token");
    assert_eq!(FinishReason::StopSequence.as_str(), "stop_sequence");
}
