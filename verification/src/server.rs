//! The adapters that map the external request shapes onto the internal
//! generate primitive, and the assembly of their response bodies.

use vstd::prelude::*;
use vstd::string::*;
use crate::stream::spec_prompt_view;
use crate::types::{
    BestOfSequence, Details, ErrorResponse, GenerateParameters, GenerateRequest,
    GenerateResponse, InferResponse, SimpleToken, Usage,
};

verus! {

/// Whether a built detail block renders one collected best-of response,
/// with the prompt prepended when `return_full_text` asked for it.
pub open spec fn best_of_rendered(
    b: BestOfSequence,
    resp: InferResponse,
    prompt: Seq<char>,
) -> bool {
    &&& b.generated_text@ == prompt + resp.generated_text.text@
    &&& b.finish_reason == resp.generated_text.finish_reason
    &&& b.generated_tokens == resp.generated_text.generated_tokens
    &&& b.seed == resp.generated_text.seed
    &&& b.prefill == resp.prefill
    &&& b.tokens == resp.tokens
    &&& b.top_tokens == resp.top_tokens
}

/// Assembles the non-streaming generate response: the generated text with
/// the prompt prepended when `return_full_text` asked for it, and, when
/// details were requested, the token-level details and the also-ran best-of
/// sequences.
pub fn build_generate_response(
    resp: InferResponse,
    add_prompt: Option<String>,
    details: bool,
    best_of_responses: Option<Vec<InferResponse>>,
) -> (r: GenerateResponse)
    ensures
        r.generated_text@ == spec_prompt_view(add_prompt) + resp.generated_text.text@,
        details <==> r.details is Some,
        details ==> (r.details matches Some(d) && {
            &&& d.finish_reason == resp.generated_text.finish_reason
            &&& d.generated_tokens == resp.generated_text.generated_tokens
            &&& d.seed == resp.generated_text.seed
            &&& d.prefill == resp.prefill
            &&& d.tokens == resp.tokens
            &&& d.top_tokens == resp.top_tokens
            &&& (best_of_responses is Some <==> d.best_of_sequences is Some)
            &&& (best_of_responses matches Some(bs) ==> (d.best_of_sequences matches Some(out)
                && out@.len() == bs@.len() && forall|j: int|
                0 <= j < bs@.len() ==> best_of_rendered(
                    #[trigger] out@[j],
                    bs@[j],
                    spec_prompt_view(add_prompt),
                )))
        }),
{
    let ghost prompt = spec_prompt_view(add_prompt);
    let details_block = if details {
        let best_of_sequences = match best_of_responses {
            Some(bs) => {
                let ghost bs0 = bs@;
                let mut rest = bs;
                let mut out: Vec<BestOfSequence> = Vec::new();
                let n = rest.len();
                let mut j: usize = 0;
                while j < n
                    invariant
                        n == bs0.len(),
                        j <= n,
                        rest@ == bs0.skip(j as int),
                        out@.len() == j,
                        prompt == spec_prompt_view(add_prompt),
                        forall|k: int|
                            0 <= k < j ==> best_of_rendered(#[trigger] out@[k], bs0[k], prompt),
                    decreases n - j,
                {
                    let b = rest.remove(0);
                    proof {
                        assert(rest@ =~= bs0.skip(j + 1));
                        assert(b == bs0[j as int]);
                    }
                    let output_text = match &add_prompt {
                        Some(p) => {
                            let mut s = p.clone();
                            s.append(b.generated_text.text.as_str());
                            s
                        }
                        None => b.generated_text.text,
                    };
                    out.push(BestOfSequence {
                        generated_text: output_text,
                        finish_reason: b.generated_text.finish_reason,
                        generated_tokens: b.generated_text.generated_tokens,
                        prefill: b.prefill,
                        tokens: b.tokens,
                        top_tokens: b.top_tokens,
                        seed: b.generated_text.seed,
                    });
                    j += 1;
                }
                Some(out)
            }
            None => None,
        };
        Some(Details {
            finish_reason: resp.generated_text.finish_reason,
            generated_tokens: resp.generated_text.generated_tokens,
            seed: resp.generated_text.seed,
            prefill: resp.prefill,
            tokens: resp.tokens,
            best_of_sequences,
            top_tokens: resp.top_tokens,
        })
    } else {
        None
    };
    let output_text = match &add_prompt {
        Some(p) => {
            let mut s = p.clone();
            s.append(resp.generated_text.text.as_str());
            s
        }
        None => resp.generated_text.text,
    };
    GenerateResponse { generated_text: output_text, details: details_block }
}

/// The compatibility request shape of the root route: a generate request
/// with a stream switch.
#[derive(Clone, Debug)]
pub struct CompatGenerateRequest {
    pub inputs: String,
    pub parameters: GenerateParameters,
    pub stream: bool,
}

/// How the root route serves a compatibility request.
#[derive(Clone, Debug)]
pub enum CompatPlan {
    /// Serve as the streaming route does.
    Stream(GenerateRequest),
    /// Serve as the batch route does, wrapping the response in a
    /// one-element array.
    Batch(GenerateRequest),
}

/// Plans a compatibility request: `return_full_text` falls back to the
/// deployment default when unset, then the stream switch picks the route.
pub fn plan_compat(req: CompatGenerateRequest, default_return_full_text: bool) -> (r: CompatPlan)
    ensures
        ({
            let filled = GenerateParameters {
                return_full_text: (if req.parameters.return_full_text is None {
                    Some(default_return_full_text)
                } else {
                    req.parameters.return_full_text
                }),
                ..req.parameters
            };
            if req.stream {
                r matches CompatPlan::Stream(g) && g.inputs == req.inputs && g.parameters
                    == filled
            } else {
                r matches CompatPlan::Batch(g) && g.inputs == req.inputs && g.parameters
                    == filled
            }
        }),
{
    let return_full_text = match req.parameters.return_full_text {
        None => Some(default_return_full_text),
        some => some,
    };
    let g = GenerateRequest {
        inputs: req.inputs,
        parameters: GenerateParameters { return_full_text, ..req.parameters },
    };
    if req.stream {
        CompatPlan::Stream(g)
    } else {
        CompatPlan::Batch(g)
    }
}

/// The OpenAI-compatible completion request shape.
#[derive(Clone, Debug)]
pub struct CompletionRequest {
    pub model: String,
    pub prompt: String,
    pub max_tokens: Option<u32>,
    pub temperature_milli: Option<i64>,
    pub top_p_milli: Option<i64>,
    pub frequency_penalty_milli: Option<i64>,
    pub repetition_penalty_milli: Option<i64>,
    pub stream: bool,
    pub seed: Option<u64>,
    pub suffix: Option<String>,
}

/// Whether built parameters carry a completion request's sampling settings
/// onto the generate primitive: sampling on, `max_tokens` defaulted to 100,
/// details requested, prefill details only off-stream, everything else at
/// its default.
pub open spec fn completion_params_ok(p: GenerateParameters, req: CompletionRequest) -> bool {
    &&& p.best_of is None
    &&& p.temperature_milli == req.temperature_milli
    &&& p.repetition_penalty_milli == req.repetition_penalty_milli
    &&& p.frequency_penalty_milli == req.frequency_penalty_milli
    &&& p.top_k is None
    &&& p.top_p_milli == req.top_p_milli
    &&& p.typical_p_milli is None
    &&& p.do_sample
    &&& p.max_new_tokens == (if req.max_tokens is Some {
        req.max_tokens
    } else {
        Some(100u32)
    })
    &&& p.return_full_text is None
    &&& p.stop@.len() == 0
    &&& p.truncate is None
    &&& !p.watermark
    &&& p.details
    &&& p.decoder_input_details == !req.stream
    &&& p.seed == req.seed
    &&& p.top_n_tokens is None
    &&& p.grammar is None
}

/// Maps a completion request onto the generate primitive. A request with a
/// `suffix` is refused: suffixes are not supported.
pub fn build_completion_request(req: CompletionRequest) -> (r: Result<
    GenerateRequest,
    ErrorResponse,
>)
    ensures
        req.suffix is Some <==> r is Err,
        r matches Err(e) ==> e.error@
            == "Suffix is not supported and can be achieved by preprocessing the prompt."@
            && e.error_type@ == "suffix not supported"@,
        r matches Ok(g) ==> g.inputs == req.prompt && completion_params_ok(g.parameters, req),
{
    if req.suffix.is_some() {
        return Err(ErrorResponse {
            error: "Suffix is not supported and can be achieved by preprocessing the prompt."
                .to_owned(),
            error_type: "suffix not supported".to_owned(),
        });
    }
    let max_new_tokens = match req.max_tokens {
        Some(m) => Some(m),
        None => Some(100),
    };
    Ok(GenerateRequest {
        inputs: req.prompt,
        parameters: GenerateParameters {
            best_of: None,
            temperature_milli: req.temperature_milli,
            repetition_penalty_milli: req.repetition_penalty_milli,
            frequency_penalty_milli: req.frequency_penalty_milli,
            top_k: None,
            top_p_milli: req.top_p_milli,
            typical_p_milli: None,
            do_sample: true,
            max_new_tokens,
            return_full_text: None,
            stop: Vec::new(),
            truncate: None,
            watermark: false,
            details: true,
            decoder_input_details: !req.stream,
            seed: req.seed,
            top_n_tokens: None,
            grammar: None,
        },
    })
}

/// The token accounting of a completion response: prompt plus generated.
pub fn build_usage(prompt_tokens: u32, completion_tokens: u32) -> (u: Usage)
    requires
        prompt_tokens + completion_tokens <= u32::MAX,
    ensures
        u.prompt_tokens == prompt_tokens,
        u.completion_tokens == completion_tokens,
        u.total_tokens == prompt_tokens + completion_tokens,
{
    Usage {
        prompt_tokens,
        completion_tokens,
        total_tokens: prompt_tokens + completion_tokens,
    }
}

/// The parameter subset a Vertex instance may carry.
#[derive(Clone, Copy, Debug)]
pub struct VertexParameters {
    pub max_new_tokens: Option<u32>,
    pub seed: Option<u64>,
}

/// One instance of a Vertex prediction request.
#[derive(Clone, Debug)]
pub struct VertexInstance {
    pub inputs: String,
    pub parameters: Option<VertexParameters>,
}

/// Whether built parameters carry one Vertex instance onto the generate
/// primitive: sampling on, both detail blocks requested, the instance's
/// generation bound and seed, everything else at its default.
pub open spec fn vertex_params_ok(p: GenerateParameters, inst: VertexInstance) -> bool {
    &&& p.best_of is None
    &&& p.temperature_milli is None
    &&& p.repetition_penalty_milli is None
    &&& p.frequency_penalty_milli is None
    &&& p.top_k is None
    &&& p.top_p_milli is None
    &&& p.typical_p_milli is None
    &&& p.do_sample
    &&& p.max_new_tokens == (match inst.parameters {
        Some(vp) => vp.max_new_tokens,
        None => None,
    })
    &&& p.return_full_text is None
    &&& p.stop@.len() == 0
    &&& p.truncate is None
    &&& !p.watermark
    &&& p.details
    &&& p.decoder_input_details
    &&& p.seed == (match inst.parameters {
        Some(vp) => vp.seed,
        None => None,
    })
    &&& p.top_n_tokens is None
    &&& p.grammar is None
}

/// Maps a Vertex request's instances onto generate requests, one each. A
/// request with no instance is refused.
pub fn build_vertex_requests(instances: Vec<VertexInstance>) -> (r: Result<
    Vec<GenerateRequest>,
    ErrorResponse,
>)
    ensures
        instances@.len() == 0 <==> r is Err,
        r matches Err(e) ==> e.error@ == "Input validation error"@ && e.error_type@
            == "Input validation error"@,
        r matches Ok(v) ==> v@.len() == instances@.len() && forall|j: int|
            0 <= j < v@.len() ==> (#[trigger] v@[j]).inputs == instances@[j].inputs
                && vertex_params_ok(v@[j].parameters, instances@[j]),
{
    if instances.len() == 0 {
        return Err(ErrorResponse {
            error: "Input validation error".to_owned(),
            error_type: "Input validation error".to_owned(),
        });
    }
    let ghost inst0 = instances@;
    let mut rest = instances;
    let n = rest.len();
    let mut out: Vec<GenerateRequest> = Vec::new();
    let mut j: usize = 0;
    while j < n
        invariant
            n == inst0.len(),
            j <= n,
            rest@ == inst0.skip(j as int),
            out@.len() == j,
            forall|k: int|
                0 <= k < j ==> (#[trigger] out@[k]).inputs == inst0[k].inputs
                    && vertex_params_ok(out@[k].parameters, inst0[k]),
        decreases n - j,
    {
        let inst = rest.remove(0);
        proof {
            assert(rest@ =~= inst0.skip(j + 1));
            assert(inst == inst0[j as int]);
        }
        let (max_new_tokens, seed) = match inst.parameters {
            Some(vp) => (vp.max_new_tokens, vp.seed),
            None => (None, None),
        };
        out.push(GenerateRequest {
            inputs: inst.inputs,
            parameters: GenerateParameters {
                best_of: None,
                temperature_milli: None,
                repetition_penalty_milli: None,
                frequency_penalty_milli: None,
                top_k: None,
                top_p_milli: None,
                typical_p_milli: None,
                do_sample: true,
                max_new_tokens,
                return_full_text: None,
                stop: Vec::new(),
                truncate: None,
                watermark: false,
                details: true,
                decoder_input_details: true,
                seed,
                top_n_tokens: None,
                grammar: None,
            },
        });
        j += 1;
    }
    Ok(out)
}

/// Builds the tokenize response's tokens: each id with its character
/// offsets and the exact substring of the input those offsets span.
pub fn simple_tokens(input: &str, ids: &Vec<u32>, offsets: &Vec<(usize, usize)>) -> (r: Vec<
    SimpleToken,
>)
    requires
        ids@.len() == offsets@.len(),
        forall|k: int|
            0 <= k < offsets@.len() ==> (#[trigger] offsets@[k]).0 <= offsets@[k].1
                <= input@.len(),
    ensures
        r@.len() == ids@.len(),
        forall|k: int|
            0 <= k < r@.len() ==> {
                let t = #[trigger] r@[k];
                &&& t.id == ids@[k]
                &&& t.start == offsets@[k].0
                &&& t.stop == offsets@[k].1
                &&& t.text@ == input@.subrange(offsets@[k].0 as int, offsets@[k].1 as int)
            },
{
    let n = ids.len();
    let mut r: Vec<SimpleToken> = Vec::new();
    let mut k: usize = 0;
    while k < n
        invariant
            n == ids@.len() == offsets@.len(),
            k <= n,
            forall|i: int|
                0 <= i < offsets@.len() ==> (#[trigger] offsets@[i]).0 <= offsets@[i].1
                    <= input@.len(),
            r@.len() == k,
            forall|i: int|
                0 <= i < k ==> {
                    let t = #[trigger] r@[i];
                    &&& t.id == ids@[i]
                    &&& t.start == offsets@[i].0
                    &&& t.stop == offsets@[i].1
                    &&& t.text@ == input@.subrange(offsets@[i].0 as int, offsets@[i].1 as int)
                },
        decreases n - k,
    {
        let (start, stop) = offsets[k];
        let text = input.substring_char(start, stop).to_owned();
        r.push(SimpleToken { id: ids[k], text, start, stop });
        k += 1;
    }
    r
}

} // verus!
