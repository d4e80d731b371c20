//! Bounds and sanity checks applied to every request before it is admitted,
//! and the resolution of defaulted parameters.

use vstd::prelude::*;
use crate::errors::ValidationError;
use crate::json::{json_parse, json_parses};
use crate::types::{GenerateParameters, GenerateRequest, GrammarType};

verus! {

/// Whether a text is a pattern the regular-expression library accepts: a
/// function of the pattern text alone.
pub uninterp spec fn regex_compiles(s: Seq<char>) -> bool;

/// Relies on `regex::Regex::new`: it returns `Ok` exactly on the patterns
/// the library accepts, deterministically in the pattern text.
#[verifier::external_body]
fn regex_valid(pattern: &str) -> (r: bool)
    ensures
        r == regex_compiles(pattern@),
{
    regex::Regex::new(pattern).is_ok()
}

/// The limits validation enforces, fixed at construction of the router.
#[derive(Clone, Copy, Debug)]
pub struct ValidationLimits {
    pub max_best_of: u32,
    pub max_stop_sequences: usize,
    pub max_top_n_tokens: u32,
    pub max_input_length: usize,
    pub max_total_tokens: u32,
    pub grammar_support: bool,
}

/// The first bound a parameter struct misses, checked in a fixed order, or
/// the resolved `max_new_tokens` when every bound holds.
pub open spec fn spec_validate(
    p: GenerateParameters,
    input_empty: bool,
    input_length: u32,
    limits: ValidationLimits,
) -> Result<u32, ValidationError> {
    if input_empty {
        Err(ValidationError::EmptyInput)
    } else if p.best_of is Some && (p.best_of->0 == 0 || p.best_of->0 > limits.max_best_of) {
        Err(ValidationError::BestOf {
            max: limits.max_best_of as u64,
            given: p.best_of->0 as u64,
        })
    } else if p.best_of is Some && p.best_of->0 > 1 && !p.do_sample {
        Err(ValidationError::BestOfSampling)
    } else if p.temperature_milli is Some && p.temperature_milli->0 <= 0 {
        Err(ValidationError::Temperature)
    } else if p.repetition_penalty_milli is Some && p.repetition_penalty_milli->0 <= 0 {
        Err(ValidationError::RepetitionPenalty)
    } else if p.frequency_penalty_milli is Some
        && !(-2000 < p.frequency_penalty_milli->0 < 2000) {
        Err(ValidationError::FrequencyPenalty)
    } else if p.top_p_milli is Some && !(0 < p.top_p_milli->0 < 1000) {
        Err(ValidationError::TopP)
    } else if p.typical_p_milli is Some && !(0 < p.typical_p_milli->0 < 1000) {
        Err(ValidationError::TypicalP)
    } else if p.top_k is Some && p.top_k->0 <= 0 {
        Err(ValidationError::TopK)
    } else if p.stop@.len() > limits.max_stop_sequences {
        Err(ValidationError::StopSequences {
            max: limits.max_stop_sequences as u64,
            given: p.stop@.len() as u64,
        })
    } else if p.top_n_tokens is Some && p.top_n_tokens->0 > limits.max_top_n_tokens {
        Err(ValidationError::TopNTokens {
            max: limits.max_top_n_tokens as u64,
            given: p.top_n_tokens->0 as u64,
        })
    } else if p.max_new_tokens is Some
        && input_length + p.max_new_tokens->0 > limits.max_total_tokens {
        Err(ValidationError::MaxNewTokens {
            max_total: limits.max_total_tokens as u64,
            input_length: input_length as u64,
            given: p.max_new_tokens->0 as u64,
        })
    } else if p.max_new_tokens is None && input_length >= limits.max_total_tokens {
        Err(ValidationError::MaxNewTokens {
            max_total: limits.max_total_tokens as u64,
            input_length: input_length as u64,
            given: 0,
        })
    } else if p.grammar is Some && !limits.grammar_support {
        Err(ValidationError::Grammar)
    } else if p.grammar matches Some(GrammarType::Json(schema)) && !json_parses(schema@) {
        Err(ValidationError::InvalidGrammarJson)
    } else if p.grammar matches Some(GrammarType::Regex(pat)) && !regex_compiles(pat@) {
        Err(ValidationError::InvalidGrammarRegex)
    } else if p.max_new_tokens is Some {
        Ok(p.max_new_tokens->0)
    } else {
        Ok((limits.max_total_tokens - input_length) as u32)
    }
}

/// Checks every bound on the parameters and resolves `max_new_tokens`,
/// defaulting it to the headroom under `max_total_tokens` when unset.
/// `input_length` is the tokenized prompt length after truncation;
/// `input_empty` says whether the raw input text was empty.
pub fn validate_parameters(
    p: &GenerateParameters,
    input_empty: bool,
    input_length: u32,
    limits: &ValidationLimits,
) -> (r: Result<u32, ValidationError>)
    ensures
        r == spec_validate(*p, input_empty, input_length, *limits),
{
    if input_empty {
        return Err(ValidationError::EmptyInput);
    }
    if let Some(b) = p.best_of {
        if b == 0 || b > limits.max_best_of {
            return Err(ValidationError::BestOf {
                max: limits.max_best_of as u64,
                given: b as u64,
            });
        }
        if b > 1 && !p.do_sample {
            return Err(ValidationError::BestOfSampling);
        }
    }
    if let Some(t) = p.temperature_milli {
        if t <= 0 {
            return Err(ValidationError::Temperature);
        }
    }
    if let Some(rp) = p.repetition_penalty_milli {
        if rp <= 0 {
            return Err(ValidationError::RepetitionPenalty);
        }
    }
    if let Some(fp) = p.frequency_penalty_milli {
        if fp <= -2000 || fp >= 2000 {
            return Err(ValidationError::FrequencyPenalty);
        }
    }
    if let Some(tp) = p.top_p_milli {
        if tp <= 0 || tp >= 1000 {
            return Err(ValidationError::TopP);
        }
    }
    if let Some(tp) = p.typical_p_milli {
        if tp <= 0 || tp >= 1000 {
            return Err(ValidationError::TypicalP);
        }
    }
    if let Some(tk) = p.top_k {
        if tk <= 0 {
            return Err(ValidationError::TopK);
        }
    }
    if p.stop.len() > limits.max_stop_sequences {
        return Err(ValidationError::StopSequences {
            max: limits.max_stop_sequences as u64,
            given: p.stop.len() as u64,
        });
    }
    if let Some(tn) = p.top_n_tokens {
        if tn > limits.max_top_n_tokens {
            return Err(ValidationError::TopNTokens {
                max: limits.max_top_n_tokens as u64,
                given: tn as u64,
            });
        }
    }
    let max_new_tokens: u32 = match p.max_new_tokens {
        Some(m) => {
            if input_length as u64 + m as u64 > limits.max_total_tokens as u64 {
                return Err(ValidationError::MaxNewTokens {
                    max_total: limits.max_total_tokens as u64,
                    input_length: input_length as u64,
                    given: m as u64,
                });
            }
            m
        }
        None => {
            if input_length >= limits.max_total_tokens {
                return Err(ValidationError::MaxNewTokens {
                    max_total: limits.max_total_tokens as u64,
                    input_length: input_length as u64,
                    given: 0,
                });
            }
            limits.max_total_tokens - input_length
        }
    };
    match &p.grammar {
        Some(g) => {
            if !limits.grammar_support {
                return Err(ValidationError::Grammar);
            }
            match g {
                GrammarType::Json(schema) => {
                    if json_parse(schema.as_str()).is_none() {
                        return Err(ValidationError::InvalidGrammarJson);
                    }
                }
                GrammarType::Regex(pat) => {
                    if !regex_valid(pat.as_str()) {
                        return Err(ValidationError::InvalidGrammarRegex);
                    }
                }
            }
        }
        None => {}
    }
    Ok(max_new_tokens)
}

/// A validated request, normalized for the scheduler and the shards: the
/// prompt, its tokenized length, the parameters as admitted, and the
/// resolved stopping bound.
#[derive(Clone, Debug)]
pub struct ValidRequest {
    pub inputs: String,
    pub input_length: u32,
    pub parameters: GenerateParameters,
    pub max_new_tokens: u32,
}

/// Validates a whole request and normalizes it for the shards: the
/// parameters are checked as `validate_parameters` does (emptiness judged
/// from the input text itself), and the admitted request carries the prompt
/// and parameters through unchanged with the resolved `max_new_tokens`.
pub fn validate_request(
    req: GenerateRequest,
    input_length: u32,
    limits: &ValidationLimits,
) -> (r: Result<ValidRequest, ValidationError>)
    ensures
        ({
            let expected = spec_validate(
                req.parameters,
                req.inputs@.len() == 0,
                input_length,
                *limits,
            );
            match r {
                Ok(v) => {
                    &&& expected == Ok::<u32, ValidationError>(v.max_new_tokens)
                    &&& v.inputs == req.inputs
                    &&& v.input_length == input_length
                    &&& v.parameters == req.parameters
                },
                Err(e) => expected == Err::<u32, ValidationError>(e),
            }
        }),
{
    let input_empty = req.inputs.as_str().is_empty();
    let max_new_tokens = validate_parameters(
        &req.parameters,
        input_empty,
        input_length,
        limits,
    )?;
    Ok(ValidRequest {
        inputs: req.inputs,
        input_length,
        parameters: req.parameters,
        max_new_tokens,
    })
}

/// The bound streaming adds: a stream carries neither a best-of contest nor
/// prefill token details.
pub open spec fn spec_stream_gate(p: GenerateParameters) -> Option<ValidationError> {
    if p.best_of is Some && p.best_of->0 != 1 {
        Some(ValidationError::BestOfStream)
    } else if p.decoder_input_details {
        Some(ValidationError::PrefillDetailsStream)
    } else {
        None
    }
}

/// Rejects parameters that are incompatible with a streaming response.
pub fn check_stream_compatible(p: &GenerateParameters) -> (r: Option<ValidationError>)
    ensures
        r == spec_stream_gate(*p),
{
    if let Some(b) = p.best_of {
        if b != 1 {
            return Some(ValidationError::BestOfStream);
        }
    }
    if p.decoder_input_details {
        return Some(ValidationError::PrefillDetailsStream);
    }
    None
}

/// Left-truncates a tokenized prompt to its last `truncate` ids, the ids a
/// `truncate` parameter keeps.
pub fn truncate_ids(ids: &Vec<u32>, truncate: Option<usize>) -> (r: Vec<u32>)
    ensures
        match truncate {
            Some(t) => if t < ids@.len() {
                r@ == ids@.skip(ids@.len() - t)
            } else {
                r@ == ids@
            },
            None => r@ == ids@,
        },
{
    match truncate {
        Some(t) => {
            if t < ids.len() {
                let start = ids.len() - t;
                let mut out: Vec<u32> = Vec::new();
                let mut i: usize = start;
                while i < ids.len()
                    invariant
                        start <= i <= ids@.len(),
                        out@ == ids@.subrange(start as int, i as int),
                    decreases ids@.len() - i,
                {
                    out.push(ids[i]);
                    i += 1;
                }
                proof {
                    assert(ids@.subrange(start as int, ids@.len() as int)
                        =~= ids@.skip(ids@.len() - t));
                }
                out
            } else {
                ids.clone()
            }
        }
        None => ids.clone(),
    }
}

} // verus!
