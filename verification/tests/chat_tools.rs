use tgi_router::chat::{
    build_chat_request, chat_chunk_logprobs, chat_logprobs, parse_tool_call,
    presence_to_repetition, render_messages, select_tools, tool_grammar, ChatRequest, Message,
    Tool, ToolChoice,
};
use tgi_router::types::Token;
use tgi_router::types::GrammarType;

fn chat_req() -> ChatRequest {
    ChatRequest {
        stream: false,
        max_tokens: None,
        presence_penalty_milli: None,
        frequency_penalty_milli: None,
        temperature_milli: None,
        top_p_milli: None,
        logprobs: None,
        seed: None,
        stop: None,
        tool_prompt: None,
        tools: None,
        tool_choice: None,
    }
}

fn weather_tool() -> Tool {
    Tool {
        name: "get_weather".to_string(),
        parameters_json: "{\"type\":\"object\",\"properties\":{\"city\":{\"type\":\"string\"}}}"
            .to_string(),
    }
}

#[test]
fn presence_penalty_rescales_by_two() {
    assert_eq!(presence_to_repetition(-2000), 0);
    assert_eq!(presence_to_repetition(0), 2000);
    assert_eq!(presence_to_repetition(2000), 4000);
    // the fixed-point mapping agrees with the floating-point one
    for p in [-2.0f32, -0.5, 0.0, 1.25, 2.0] {
        let milli = (p * 1000.0) as i64;
        let mapped = presence_to_repetition(milli);
        assert_eq!(mapped as f32 / 1000.0, p + 2.0);
    }
}

#[test]
fn grammar_document_shape() {
    let g = tool_grammar(&vec![weather_tool()]);
    assert_eq!(
        g,
        "{\"$functions\":{\"get_weather\":{\"type\":\"object\",\"properties\":{\"city\":{\"type\":\"string\"}}}},\"properties\":{\"function\":[{\"$ref\":\"#/$functions/get_weather\"}]}}"
    );
    // the grammar is itself a JSON document
    assert!(serde_json::from_str::<serde_json::Value>(&g).is_ok());
}

#[test]
fn grammar_joins_tools_with_commas() {
    let other = Tool { name: "get_time".to_string(), parameters_json: "{}".to_string() };
    let g = tool_grammar(&vec![weather_tool(), other]);
    assert!(g.contains("\"get_weather\":"));
    assert!(g.contains(",\"get_time\":{}"));
    assert!(g.contains("{\"$ref\":\"#/$functions/get_weather\"},{\"$ref\":\"#/$functions/get_time\"}"));
}

#[test]
fn tool_choice_by_name() {
    let tools = vec![weather_tool(), Tool { name: "b".to_string(), parameters_json: "{}".to_string() }];
    let picked = select_tools(tools, &ToolChoice::FunctionName("get_weather".to_string())).unwrap();
    assert_eq!(picked.len(), 1);
    assert_eq!(picked[0].name, "get_weather");
}

#[test]
fn unknown_tool_choice_is_refused() {
    let e = select_tools(vec![weather_tool()], &ToolChoice::FunctionName("nope".to_string()))
        .unwrap_err();
    assert_eq!(e.error, "Tool choice not found in tool names");
    assert_eq!(e.error_type, "Tool not found");
}

#[test]
fn chat_request_appends_tool_grammar_to_prompt() {
    let mut req = chat_req();
    req.tools = Some(vec![weather_tool()]);
    req.tool_choice = Some(ToolChoice::FunctionName("get_weather".to_string()));
    req.tool_prompt = Some(" Use a tool: ".to_string());
    let (g, used_tools) = build_chat_request(req, "rendered prompt.".to_string()).unwrap();
    assert!(used_tools);
    let grammar_text = match &g.parameters.grammar {
        Some(GrammarType::Json(t)) => t.clone(),
        _ => panic!("a tool chat must carry a JSON grammar"),
    };
    assert_eq!(g.inputs, format!("rendered prompt. Use a tool: {}", grammar_text));
    assert!(g.parameters.details);
    assert!(g.parameters.decoder_input_details);
}

#[test]
fn chat_request_without_tools_keeps_prompt() {
    let mut req = chat_req();
    req.stream = true;
    req.presence_penalty_milli = Some(500);
    req.max_tokens = Some(5);
    let (g, used_tools) = build_chat_request(req, "rendered".to_string()).unwrap();
    assert!(!used_tools);
    assert_eq!(g.inputs, "rendered");
    assert!(g.parameters.grammar.is_none());
    assert_eq!(g.parameters.repetition_penalty_milli, Some(2500));
    assert_eq!(g.parameters.max_new_tokens, Some(5));
    assert!(!g.parameters.decoder_input_details);
}

#[test]
fn tool_call_takes_function_member() {
    let call = parse_tool_call("{\"function\":{\"city\":\"Paris\"}}").unwrap();
    assert_eq!(call.id, 0);
    assert_eq!(call.call_type, "function");
    assert_eq!(call.name, "tools");
    assert_eq!(call.parameters_json, "{\"city\":\"Paris\"}");
}

#[test]
fn tool_call_falls_back_to_whole_document() {
    let call = parse_tool_call("{\"city\":\"Paris\"}").unwrap();
    assert_eq!(call.name, "tools");
    assert_eq!(call.parameters_json, "{\"city\":\"Paris\"}");
}

#[test]
fn tool_call_requires_json() {
    let e = parse_tool_call("not json at all").unwrap_err();
    assert_eq!(e.error_type, "Input validation error");
}

#[test]
fn messages_render_as_transcript() {
    let ms = vec![
        Message { role: "system".to_string(), content: "be brief".to_string() },
        Message { role: "user".to_string(), content: "hi".to_string() },
    ];
    assert_eq!(render_messages(&ms), "system: be brief\nuser: hi\n");
    assert_eq!(render_messages(&Vec::new()), "");
}

fn tok(text: &str, logprob_milli: i64) -> Token {
    Token { id: 1, text: text.to_string(), logprob_milli, special: false }
}

#[test]
fn logprobs_appear_iff_requested() {
    let tokens = vec![tok("a", -100), tok("b", -200)];
    let tops = vec![vec![tok("c", -300)], Vec::new()];
    assert!(chat_logprobs(tokens.clone(), tops.clone(), false).is_none());
    let rows = chat_logprobs(tokens, tops, true).unwrap();
    assert_eq!(rows.len(), 2);
    assert_eq!(rows[0].token_text, "a");
    assert_eq!(rows[0].logprob_milli, -100);
    assert_eq!(rows[0].top_logprobs.len(), 1);
    assert_eq!(rows[0].top_logprobs[0].token_text, "c");
    assert_eq!(rows[1].top_logprobs.len(), 0);
}

#[test]
fn chunk_logprobs_follow_the_request_flag() {
    assert!(chat_chunk_logprobs(tok("a", -1), Vec::new(), false).is_none());
    let row = chat_chunk_logprobs(tok("a", -1), vec![tok("z", -2)], true).unwrap();
    assert_eq!(row.token_text, "a");
    assert_eq!(row.top_logprobs[0].token_text, "z");
}
