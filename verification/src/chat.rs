//! The OpenAI-compatible chat adapter: penalty rescaling, the JSON-schema
//! grammar assembled from tool definitions, and the parsing of a
//! grammar-constrained generation back into a tool call.

use vstd::prelude::*;
use vstd::string::*;
use crate::json::{
    extract_function_member, json_function_member, json_parse, json_parses, json_rendered,
    render_document,
};
use crate::types::{ErrorResponse, GenerateParameters, GenerateRequest, GrammarType, Token};

verus! {

/// Rescales a chat `presence_penalty` onto the internal
/// `repetition_penalty`: for any `p` in [-2, 2] (held in thousandths), the
/// result is `p + 2`, mapping the range onto (0, 4].
pub fn presence_to_repetition(p: i64) -> (r: i64)
    requires
        -2000 <= p <= 2000,
    ensures
        r == p + 2000,
{
    p + 2000
}

/// One callable tool offered to the model: its name and its JSON-schema
/// parameters, carried as text.
#[derive(Clone, Debug)]
pub struct Tool {
    pub name: String,
    pub parameters_json: String,
}

/// How the requester constrains the tool choice.
#[derive(Clone, Debug)]
pub enum ToolChoice {
    FunctionName(String),
    OneOf,
}

/// The `"name":parameters` members of the grammar's `$functions` object,
/// comma-separated, in tool order.
pub open spec fn spec_function_members(ts: Seq<Tool>) -> Seq<char>
    decreases ts.len(),
{
    if ts.len() == 0 {
        Seq::empty()
    } else if ts.len() == 1 {
        spec_function_member(ts[0])
    } else {
        spec_function_members(ts.drop_last()) + ","@ + spec_function_member(ts.last())
    }
}

/// One `"name":parameters` member.
pub open spec fn spec_function_member(t: Tool) -> Seq<char> {
    "\""@ + t.name@ + "\":"@ + t.parameters_json@
}

/// The `{"$ref":...}` elements of the grammar's `function` array,
/// comma-separated, in tool order.
pub open spec fn spec_function_refs(ts: Seq<Tool>) -> Seq<char>
    decreases ts.len(),
{
    if ts.len() == 0 {
        Seq::empty()
    } else if ts.len() == 1 {
        spec_function_ref(ts[0])
    } else {
        spec_function_refs(ts.drop_last()) + ","@ + spec_function_ref(ts.last())
    }
}

/// One `{"$ref":"#/$functions/name"}` element.
pub open spec fn spec_function_ref(t: Tool) -> Seq<char> {
    "{\"$ref\":\"#/$functions/"@ + t.name@ + "\"}"@
}

/// The whole grammar document assembled from the tools.
pub open spec fn spec_tool_grammar(ts: Seq<Tool>) -> Seq<char> {
    "{\"$functions\":{"@ + spec_function_members(ts) + "},\"properties\":{\"function\":["@
        + spec_function_refs(ts) + "]}}"@
}

/// Assembles the JSON-schema grammar that constrains a tool-calling chat:
/// the tools' parameter schemas under `$functions`, referenced one each
/// from the `function` property.
pub fn tool_grammar(ts: &Vec<Tool>) -> (r: String)
    ensures
        r@ == spec_tool_grammar(ts@),
{
    let mut members = String::new();
    let mut refs = String::new();
    let n = ts.len();
    let mut j: usize = 0;
    while j < n
        invariant
            n == ts@.len(),
            j <= n,
            members@ == spec_function_members(ts@.take(j as int)),
            refs@ == spec_function_refs(ts@.take(j as int)),
        decreases n - j,
    {
        proof {
            assert(ts@.take(j + 1).drop_last() =~= ts@.take(j as int));
            assert(ts@.take(j + 1).last() == ts@[j as int]);
        }
        if j > 0 {
            members.append(",");
            refs.append(",");
        }
        members.append("\"");
        members.append(ts[j].name.as_str());
        members.append("\":");
        members.append(ts[j].parameters_json.as_str());
        refs.append("{\"$ref\":\"#/$functions/");
        refs.append(ts[j].name.as_str());
        refs.append("\"}");
        proof {
            assert(members@ =~= spec_function_members(ts@.take(j + 1)));
            assert(refs@ =~= spec_function_refs(ts@.take(j + 1)));
        }
        j += 1;
    }
    proof {
        assert(ts@.take(n as int) =~= ts@);
    }
    let mut out = "{\"$functions\":{".to_owned();
    out.append(members.as_str());
    out.append("},\"properties\":{\"function\":[");
    out.append(refs.as_str());
    out.append("]}}");
    out
}

/// Picks the tools a constrained chat may call: the named one under a
/// `FunctionName` choice (refused when no tool carries the name), all of
/// them under `OneOf`.
pub fn select_tools(tools: Vec<Tool>, choice: &ToolChoice) -> (r: Result<Vec<Tool>, ErrorResponse>)
    ensures
        match choice {
            ToolChoice::OneOf => {
                &&& r matches Ok(v)
                &&& v@ == tools@
            },
            ToolChoice::FunctionName(name) => {
                if exists|i: int| 0 <= i < tools@.len() && (#[trigger] tools@[i]).name@ == name@ {
                    &&& r matches Ok(v)
                    &&& v@.len() == 1
                    &&& exists|i: int|
                        0 <= i < tools@.len() && (#[trigger] tools@[i]).name@ == name@ && v@[0]
                            == tools@[i]
                } else {
                    &&& r matches Err(e)
                    &&& e.error@ == "Tool choice not found in tool names"@
                    &&& e.error_type@ == "Tool not found"@
                }
            },
        },
{
    match choice {
        ToolChoice::OneOf => Ok(tools),
        ToolChoice::FunctionName(name) => {
            let ghost tools0 = tools@;
            let mut rest = tools;
            let n = rest.len();
            let mut j: usize = 0;
            while j < n
                invariant
                    choice matches ToolChoice::FunctionName(nn) && nn == *name,
                    tools0 == tools@,
                    n == tools0.len(),
                    j <= n,
                    rest@ == tools0.skip(j as int),
                    forall|k: int| 0 <= k < j ==> (#[trigger] tools0[k]).name@ != name@,
                decreases n - j,
            {
                let t = rest.remove(0);
                proof {
                    assert(rest@ =~= tools0.skip(j + 1));
                    assert(t == tools0[j as int]);
                }
                if t.name == *name {
                    let mut v: Vec<Tool> = Vec::new();
                    v.push(t);
                    proof {
                        assert(tools0[j as int].name@ == name@);
                        assert(exists|i: int|
                            0 <= i < tools0.len() && (#[trigger] tools0[i]).name@ == name@);
                        assert(v@[0] == tools0[j as int]);
                        assert(exists|i: int|
                            0 <= i < tools0.len() && (#[trigger] tools0[i]).name@ == name@
                                && v@[0] == tools0[i]);
                    }
                    return Ok(v);
                }
                j += 1;
            }
            Err(ErrorResponse {
                error: "Tool choice not found in tool names".to_owned(),
                error_type: "Tool not found".to_owned(),
            })
        }
    }
}

/// A parsed tool call of a grammar-constrained generation.
#[derive(Clone, Debug)]
pub struct ToolCall {
    pub id: u32,
    pub call_type: String,
    pub name: String,
    pub parameters_json: String,
}

/// Parses the generated text of a tool-constrained chat back into a tool
/// call: the text must be a JSON document; the rendering of its `function`
/// member carries the call's parameters, the rendering of the whole
/// document standing in when there is none. The call is reported under the
/// fixed name `tools`.
pub fn parse_tool_call(generated_text: &str) -> (r: Result<ToolCall, ErrorResponse>)
    ensures
        r is Ok <==> json_parses(generated_text@),
        r matches Ok(t) ==> t.id == 0 && t.call_type@ == "function"@ && t.name@ == "tools"@
            && t.parameters_json@ == (match json_function_member(generated_text@) {
            Some(m) => m,
            None => json_rendered(generated_text@),
        }),
        r matches Err(e) ==> e.error_type@ == "Input validation error"@,
{
    if json_parse(generated_text).is_none() {
        return Err(ErrorResponse {
            error: "the generated text is not a JSON document".to_owned(),
            error_type: "Input validation error".to_owned(),
        });
    }
    let parameters_json = match extract_function_member(generated_text) {
        Some(m) => m,
        None => render_document(generated_text),
    };
    Ok(ToolCall {
        id: 0,
        call_type: "function".to_owned(),
        name: "tools".to_owned(),
        parameters_json,
    })
}

/// Splits a streamed token between the `content` and `tool_calls` fields of
/// a chat chunk: a tool-constrained chat reports the text as a tool call,
/// any other chat reports it as content.
pub fn chat_chunk_content(token_text: String, using_tools: bool) -> (r: (
    Option<String>,
    Option<Vec<String>>,
))
    ensures
        using_tools ==> r.0 is None && (r.1 matches Some(v) && v@.len() == 1 && v@[0]@
            == token_text@),
        !using_tools ==> (r.0 matches Some(t) && t@ == token_text@) && r.1 is None,
{
    if using_tools {
        let mut v: Vec<String> = Vec::new();
        v.push(token_text);
        (None, Some(v))
    } else {
        (Some(token_text), None)
    }
}

/// The chat request shape, its messages already rendered to one prompt by
/// the chat template.
#[derive(Clone, Debug)]
pub struct ChatRequest {
    pub stream: bool,
    pub max_tokens: Option<u32>,
    /// Thousandths, in [-2000, 2000].
    pub presence_penalty_milli: Option<i64>,
    pub frequency_penalty_milli: Option<i64>,
    pub temperature_milli: Option<i64>,
    pub top_p_milli: Option<i64>,
    pub logprobs: Option<bool>,
    pub seed: Option<u64>,
    pub stop: Option<Vec<String>>,
    pub tool_prompt: Option<String>,
    pub tools: Option<Vec<Tool>>,
    pub tool_choice: Option<ToolChoice>,
}

/// Whether built parameters carry a chat request onto the generate
/// primitive: sampling on, the presence penalty rescaled, `max_tokens`
/// defaulted to 100, details requested, prefill details only off-stream.
pub open spec fn chat_params_ok(p: GenerateParameters, req: ChatRequest) -> bool {
    &&& p.best_of is None
    &&& p.temperature_milli == req.temperature_milli
    &&& p.repetition_penalty_milli == (match req.presence_penalty_milli {
        Some(pp) => Some((pp + 2000) as i64),
        None => None,
    })
    &&& p.frequency_penalty_milli == req.frequency_penalty_milli
    &&& p.top_k is None
    &&& p.top_p_milli == req.top_p_milli
    &&& p.typical_p_milli is None
    &&& p.do_sample
    &&& p.max_new_tokens == (if req.max_tokens is Some {
        req.max_tokens
    } else {
        Some(100u32)
    })
    &&& p.return_full_text is None
    &&& p.stop@ == (match req.stop {
        Some(st) => st@,
        None => Seq::<String>::empty(),
    })
    &&& p.truncate is None
    &&& !p.watermark
    &&& p.details
    &&& p.decoder_input_details == !req.stream
    &&& p.seed == req.seed
    &&& p.top_n_tokens is None
}

/// The prompt suffix a tool-constrained chat appends: the tool prompt, then
/// the serialized grammar.
pub open spec fn spec_chat_inputs(
    rendered: Seq<char>,
    tool_prompt: Option<String>,
    grammar: Seq<char>,
) -> Seq<char> {
    rendered + (match tool_prompt {
        Some(tp) => tp@,
        None => Seq::empty(),
    }) + grammar
}

/// Maps a chat request onto the generate primitive. `rendered` is the
/// prompt the chat template produced from the messages. When tools and a
/// tool choice are both given, the grammar assembled from the selected
/// tools constrains the generation and its text is appended to the prompt;
/// a tool choice that names no given tool is refused. Returns the request
/// and whether a tool grammar was applied.
pub fn build_chat_request(req: ChatRequest, rendered: String) -> (r: Result<
    (GenerateRequest, bool),
    ErrorResponse,
>)
    requires
        req.presence_penalty_milli matches Some(pp) ==> -2000 <= pp <= 2000,
    ensures
        ({
            let tooling = req.tools is Some && req.tool_choice is Some;
            match r {
                Ok((g, used_tools)) => {
                    &&& chat_params_ok(g.parameters, req)
                    &&& used_tools == tooling
                    &&& (!tooling ==> g.inputs@ == rendered@ && g.parameters.grammar is None)
                    &&& (tooling ==> {
                        &&& g.parameters.grammar matches Some(GrammarType::Json(gr))
                        &&& g.inputs@ == spec_chat_inputs(rendered@, req.tool_prompt, gr@)
                        &&& (req.tool_choice matches Some(ToolChoice::OneOf) ==> gr@
                            == spec_tool_grammar(req.tools->0@))
                        &&& (req.tool_choice matches Some(ToolChoice::FunctionName(nm))
                            ==> exists|i: int|
                            0 <= i < req.tools->0@.len() && (#[trigger] req.tools->0@[i]).name@
                                == nm@ && gr@ == spec_tool_grammar(seq![req.tools->0@[i]]))
                    })
                },
                Err(e) => {
                    &&& tooling
                    &&& (req.tool_choice matches Some(ToolChoice::FunctionName(nm))
                        && !(exists|i: int|
                        0 <= i < req.tools->0@.len() && (#[trigger] req.tools->0@[i]).name@
                            == nm@))
                    &&& e.error@ == "Tool choice not found in tool names"@
                    &&& e.error_type@ == "Tool not found"@
                },
            }
        }),
{
    let ghost req0 = req;
    let ghost rendered0 = rendered@;
    let repetition_penalty_milli = match req.presence_penalty_milli {
        Some(pp) => Some(presence_to_repetition(pp)),
        None => None,
    };
    let max_new_tokens = match req.max_tokens {
        Some(m) => Some(m),
        None => Some(100),
    };
    let stop = match req.stop {
        Some(st) => st,
        None => Vec::new(),
    };
    let tool_prompt = req.tool_prompt;
    let (inputs, grammar, used_tools) = match (req.tools, req.tool_choice) {
        (Some(tools), Some(choice)) => {
            let selected = match select_tools(tools, &choice) {
                Ok(v) => v,
                Err(e) => {
                    return Err(e);
                }
            };
            let grammar_text = tool_grammar(&selected);
            let mut inputs = rendered;
            match &tool_prompt {
                Some(tp) => inputs.append(tp.as_str()),
                None => {}
            }
            inputs.append(grammar_text.as_str());
            proof {
                assert(tool_prompt == req0.tool_prompt);
                assert(inputs@ =~= spec_chat_inputs(rendered0, req0.tool_prompt, grammar_text@));
            }
            (inputs, Some(GrammarType::Json(grammar_text)), true)
        }
        _ => (rendered, None, false),
    };
    Ok((
        GenerateRequest {
            inputs,
            parameters: GenerateParameters {
                best_of: None,
                temperature_milli: req.temperature_milli,
                repetition_penalty_milli,
                frequency_penalty_milli: req.frequency_penalty_milli,
                top_k: None,
                top_p_milli: req.top_p_milli,
                typical_p_milli: None,
                do_sample: true,
                max_new_tokens,
                return_full_text: None,
                stop,
                truncate: None,
                watermark: false,
                details: true,
                decoder_input_details: !req.stream,
                seed: req.seed,
                top_n_tokens: None,
                grammar,
            },
        },
        used_tools,
    ))
}

/// One chat message, as the template engine receives it.
#[derive(Clone, Debug)]
pub struct Message {
    pub role: String,
    pub content: String,
}

/// The plain transcript of a message sequence: one `role: content` line per
/// message, in order.
pub open spec fn spec_transcript(ms: Seq<Message>) -> Seq<char>
    decreases ms.len(),
{
    if ms.len() == 0 {
        Seq::empty()
    } else {
        spec_transcript(ms.drop_last()) + ms.last().role@ + ": "@ + ms.last().content@ + "\n"@
    }
}

/// Renders chat messages to one prompt as a plain transcript. A deployment
/// with a model chat template substitutes its rendering at the boundary;
/// this is the fallback the router itself provides.
pub fn render_messages(ms: &Vec<Message>) -> (r: String)
    ensures
        r@ == spec_transcript(ms@),
{
    let mut r = String::new();
    let n = ms.len();
    let mut j: usize = 0;
    while j < n
        invariant
            n == ms@.len(),
            j <= n,
            r@ == spec_transcript(ms@.take(j as int)),
        decreases n - j,
    {
        proof {
            assert(ms@.take(j + 1).drop_last() =~= ms@.take(j as int));
            assert(ms@.take(j + 1).last() == ms@[j as int]);
        }
        r.append(ms[j].role.as_str());
        r.append(": ");
        r.append(ms[j].content.as_str());
        r.append("\n");
        proof {
            assert(r@ =~= spec_transcript(ms@.take(j + 1)));
        }
        j += 1;
    }
    proof {
        assert(ms@.take(n as int) =~= ms@);
    }
    r
}

/// One ranked alternative inside a token's log-probability detail.
#[derive(Clone, Debug)]
pub struct ChatTopLogprob {
    pub token_text: String,
    pub logprob_milli: i64,
}

/// Token-level log-probability detail of one generated token.
#[derive(Clone, Debug)]
pub struct ChatLogprob {
    pub token_text: String,
    pub logprob_milli: i64,
    pub top_logprobs: Vec<ChatTopLogprob>,
}

/// Whether a logprob row renders the given token and its top-token
/// alternatives.
pub open spec fn chat_logprob_matches(l: ChatLogprob, tok: Token, tops: Seq<Token>) -> bool {
    &&& l.token_text == tok.text
    &&& l.logprob_milli == tok.logprob_milli
    &&& l.top_logprobs@.len() == tops.len()
    &&& forall|k: int|
        0 <= k < tops.len() ==> (#[trigger] l.top_logprobs@[k]).token_text == tops[k].text
            && l.top_logprobs@[k].logprob_milli == tops[k].logprob_milli
}

/// Builds the log-probability row of one token: the token itself and each
/// of its top-token alternatives.
pub fn chat_logprob_entry(token: Token, top_tokens: Vec<Token>) -> (r: ChatLogprob)
    ensures
        chat_logprob_matches(r, token, top_tokens@),
{
    let ghost tops0 = top_tokens@;
    let mut rest = top_tokens;
    let n = rest.len();
    let mut tops: Vec<ChatTopLogprob> = Vec::new();
    let mut j: usize = 0;
    while j < n
        invariant
            n == tops0.len(),
            j <= n,
            rest@ == tops0.skip(j as int),
            tops@.len() == j,
            forall|k: int|
                0 <= k < j ==> (#[trigger] tops@[k]).token_text == tops0[k].text
                    && tops@[k].logprob_milli == tops0[k].logprob_milli,
        decreases n - j,
    {
        let t = rest.remove(0);
        proof {
            assert(rest@ =~= tops0.skip(j + 1));
            assert(t == tops0[j as int]);
        }
        tops.push(ChatTopLogprob { token_text: t.text, logprob_milli: t.logprob_milli });
        j += 1;
    }
    ChatLogprob {
        token_text: token.text,
        logprob_milli: token.logprob_milli,
        top_logprobs: tops,
    }
}

/// The log-probability detail of one streamed chunk: present exactly when
/// the requester asked for logprobs, and then rendering the chunk's token.
pub fn chat_chunk_logprobs(token: Token, top_tokens: Vec<Token>, wanted: bool) -> (r: Option<
    ChatLogprob,
>)
    ensures
        wanted <==> r is Some,
        r matches Some(l) ==> chat_logprob_matches(l, token, top_tokens@),
{
    if wanted {
        Some(chat_logprob_entry(token, top_tokens))
    } else {
        None
    }
}

/// The log-probability detail of a whole chat response: present exactly
/// when the requester asked for logprobs, and then one row per generated
/// token, in order.
pub fn chat_logprobs(tokens: Vec<Token>, top_tokens: Vec<Vec<Token>>, wanted: bool) -> (r:
    Option<Vec<ChatLogprob>>)
    requires
        tokens@.len() == top_tokens@.len(),
    ensures
        wanted <==> r is Some,
        r matches Some(v) ==> v@.len() == tokens@.len() && forall|j: int|
            0 <= j < v@.len() ==> chat_logprob_matches(
                #[trigger] v@[j],
                tokens@[j],
                top_tokens@[j]@,
            ),
{
    if !wanted {
        return None;
    }
    let ghost tokens0 = tokens@;
    let ghost tops0 = top_tokens@;
    let mut rest_tokens = tokens;
    let mut rest_tops = top_tokens;
    let n = rest_tokens.len();
    let mut out: Vec<ChatLogprob> = Vec::new();
    let mut j: usize = 0;
    while j < n
        invariant
            n == tokens0.len(),
            tops0.len() == tokens0.len(),
            j <= n,
            rest_tokens@ == tokens0.skip(j as int),
            rest_tops@ == tops0.skip(j as int),
            out@.len() == j,
            forall|k: int|
                0 <= k < j ==> chat_logprob_matches(#[trigger] out@[k], tokens0[k], tops0[k]@),
        decreases n - j,
    {
        let tok = rest_tokens.remove(0);
        let tops = rest_tops.remove(0);
        proof {
            assert(rest_tokens@ =~= tokens0.skip(j + 1));
            assert(rest_tops@ =~= tops0.skip(j + 1));
            assert(tok == tokens0[j as int]);
            assert(tops == tops0[j as int]);
        }
        out.push(chat_logprob_entry(tok, tops));
        j += 1;
    }
    Some(out)
}

} // verus!
