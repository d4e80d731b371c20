//! Error taxonomy of the router and its mapping onto HTTP status codes and
//! serialized error bodies.

use vstd::prelude::*;
use vstd::string::*;
use crate::types::ErrorResponse;

verus! {

/// The character of one decimal digit.
pub open spec fn digit_char(d: int) -> char {
    ((d + 48) as u8) as char
}

/// The decimal rendering of a number: its digits, most significant first.
pub open spec fn decimal(n: int) -> Seq<char>
    decreases n,
{
    if n < 10 {
        seq![digit_char(n)]
    } else {
        decimal(n / 10) + seq![digit_char(n % 10)]
    }
}

/// Relies on `u64`'s standard `to_string`: the decimal digits of the value,
/// most significant first, with no sign, padding or separators.
#[verifier::external_body]
fn fmt_u64(n: u64) -> (r: String)
    ensures
        r@ == decimal(n as int),
{
    n.to_string()
}

/// A reason validation refused a request.
#[derive(Clone, Debug)]
pub enum ValidationError {
    BestOf { max: u64, given: u64 },
    BestOfSampling,
    BestOfStream,
    Temperature,
    RepetitionPenalty,
    FrequencyPenalty,
    TopP,
    TopK,
    TypicalP,
    MaxNewTokens { max_total: u64, input_length: u64, given: u64 },
    EmptyInput,
    StopSequences { max: u64, given: u64 },
    TopNTokens { max: u64, given: u64 },
    PrefillDetailsStream,
    Grammar,
    InvalidGrammarJson,
    InvalidGrammarRegex,
}

/// The message text of a validation error.
pub open spec fn spec_validation_message(e: ValidationError) -> Seq<char> {
    match e {
        ValidationError::BestOf { max, given } =>
            "`best_of` must be > 0 and <= "@ + decimal(max as int) + ". Given: "@
                + decimal(given as int),
        ValidationError::BestOfSampling =>
            "you must use sampling when `best_of` is > 1"@,
        ValidationError::BestOfStream =>
            "`best_of` != 1 is not supported when streaming tokens"@,
        ValidationError::Temperature =>
            "`temperature` must be strictly positive"@,
        ValidationError::RepetitionPenalty =>
            "`repetition_penalty` must be strictly positive"@,
        ValidationError::FrequencyPenalty =>
            "`frequency_penalty` must be > -2.0 and < 2.0"@,
        ValidationError::TopP => "`top_p` must be > 0.0 and < 1.0"@,
        ValidationError::TopK => "`top_k` must be strictly positive"@,
        ValidationError::TypicalP => "`typical_p` must be > 0.0 and < 1.0"@,
        ValidationError::MaxNewTokens { max_total, input_length, given } =>
            "`inputs` tokens + `max_new_tokens` must be <= "@ + decimal(max_total as int)
                + ". Given: "@ + decimal(input_length as int) + " `inputs` tokens and "@
                + decimal(given as int) + " `max_new_tokens`"@,
        ValidationError::EmptyInput => "`inputs` cannot be empty"@,
        ValidationError::StopSequences { max, given } =>
            "`stop` supports up to "@ + decimal(max as int) + " stop sequences. Given: "@
                + decimal(given as int),
        ValidationError::TopNTokens { max, given } =>
            "`top_n_tokens` must be <= "@ + decimal(max as int) + ". Given: "@
                + decimal(given as int),
        ValidationError::PrefillDetailsStream =>
            "`decoder_input_details` == true is not supported when streaming tokens"@,
        ValidationError::Grammar => "grammar is not supported"@,
        ValidationError::InvalidGrammarJson =>
            "grammar must be a valid JSON schema"@,
        ValidationError::InvalidGrammarRegex =>
            "grammar must be a valid regular expression"@,
    }
}

impl ValidationError {
    /// Renders the message text of the error.
    pub fn message(&self) -> (r: String)
        ensures
            r@ == spec_validation_message(*self),
    {
        match self {
            ValidationError::BestOf { max, given } => {
                let mut s = "`best_of` must be > 0 and <= ".to_owned();
                s.append(fmt_u64(*max).as_str());
                s.append(". Given: ");
                s.append(fmt_u64(*given).as_str());
                s
            }
            ValidationError::BestOfSampling =>
                "you must use sampling when `best_of` is > 1".to_owned(),
            ValidationError::BestOfStream =>
                "`best_of` != 1 is not supported when streaming tokens".to_owned(),
            ValidationError::Temperature =>
                "`temperature` must be strictly positive".to_owned(),
            ValidationError::RepetitionPenalty =>
                "`repetition_penalty` must be strictly positive".to_owned(),
            ValidationError::FrequencyPenalty =>
                "`frequency_penalty` must be > -2.0 and < 2.0".to_owned(),
            ValidationError::TopP => "`top_p` must be > 0.0 and < 1.0".to_owned(),
            ValidationError::TopK => "`top_k` must be strictly positive".to_owned(),
            ValidationError::TypicalP => "`typical_p` must be > 0.0 and < 1.0".to_owned(),
            ValidationError::MaxNewTokens { max_total, input_length, given } => {
                let mut s = "`inputs` tokens + `max_new_tokens` must be <= ".to_owned();
                s.append(fmt_u64(*max_total).as_str());
                s.append(". Given: ");
                s.append(fmt_u64(*input_length).as_str());
                s.append(" `inputs` tokens and ");
                s.append(fmt_u64(*given).as_str());
                s.append(" `max_new_tokens`");
                s
            }
            ValidationError::EmptyInput => "`inputs` cannot be empty".to_owned(),
            ValidationError::StopSequences { max, given } => {
                let mut s = "`stop` supports up to ".to_owned();
                s.append(fmt_u64(*max).as_str());
                s.append(" stop sequences. Given: ");
                s.append(fmt_u64(*given).as_str());
                s
            }
            ValidationError::TopNTokens { max, given } => {
                let mut s = "`top_n_tokens` must be <= ".to_owned();
                s.append(fmt_u64(*max).as_str());
                s.append(". Given: ");
                s.append(fmt_u64(*given).as_str());
                s
            }
            ValidationError::PrefillDetailsStream =>
                "`decoder_input_details` == true is not supported when streaming tokens"
                    .to_owned(),
            ValidationError::Grammar => "grammar is not supported".to_owned(),
            ValidationError::InvalidGrammarJson =>
                "grammar must be a valid JSON schema".to_owned(),
            ValidationError::InvalidGrammarRegex =>
                "grammar must be a valid regular expression".to_owned(),
        }
    }
}

/// An error of the inference facade, as the HTTP layer sees it.
#[derive(Clone, Debug)]
pub enum InferError {
    GenerationError(String),
    Overloaded,
    Validation(ValidationError),
    IncompleteGeneration,
    Template(String),
}

/// The HTTP status code each error maps onto.
pub open spec fn spec_status_code(e: InferError) -> u16 {
    match e {
        InferError::GenerationError(_) => 424,
        InferError::Overloaded => 429,
        InferError::Validation(_) => 422,
        InferError::IncompleteGeneration => 500,
        InferError::Template(_) => 422,
    }
}

/// The `error_type` label each error serializes with.
pub open spec fn spec_error_type(e: InferError) -> Seq<char> {
    match e {
        InferError::GenerationError(_) => "generation"@,
        InferError::Overloaded => "overloaded"@,
        InferError::Validation(_) => "validation"@,
        InferError::IncompleteGeneration => "incomplete_generation"@,
        InferError::Template(_) => "template_error"@,
    }
}

/// The message text each error serializes with.
pub open spec fn spec_error_message(e: InferError) -> Seq<char> {
    match e {
        InferError::GenerationError(m) => "Request failed during generation: "@ + m@,
        InferError::Overloaded => "Model is overloaded"@,
        InferError::Validation(v) => "Input validation error: "@ + spec_validation_message(v),
        InferError::IncompleteGeneration => "Incomplete generation"@,
        InferError::Template(m) => "Template error: "@ + m@,
    }
}

impl InferError {
    /// The HTTP status code of the error.
    pub fn status_code(&self) -> (r: u16)
        ensures
            r == spec_status_code(*self),
    {
        match self {
            InferError::GenerationError(_) => 424,
            InferError::Overloaded => 429,
            InferError::Validation(_) => 422,
            InferError::IncompleteGeneration => 500,
            InferError::Template(_) => 422,
        }
    }

    /// The `error_type` label of the error.
    pub fn error_type(&self) -> (r: &'static str)
        ensures
            r@ == spec_error_type(*self),
    {
        match self {
            InferError::GenerationError(_) => "generation",
            InferError::Overloaded => "overloaded",
            InferError::Validation(_) => "validation",
            InferError::IncompleteGeneration => "incomplete_generation",
            InferError::Template(_) => "template_error",
        }
    }

    /// Renders the message text of the error.
    pub fn message(&self) -> (r: String)
        ensures
            r@ == spec_error_message(*self),
    {
        match self {
            InferError::GenerationError(m) => {
                let mut s = "Request failed during generation: ".to_owned();
                s.append(m.as_str());
                s
            }
            InferError::Overloaded => "Model is overloaded".to_owned(),
            InferError::Validation(v) => {
                let mut s = "Input validation error: ".to_owned();
                let vm = v.message();
                s.append(vm.as_str());
                s
            }
            InferError::IncompleteGeneration => "Incomplete generation".to_owned(),
            InferError::Template(m) => {
                let mut s = "Template error: ".to_owned();
                s.append(m.as_str());
                s
            }
        }
    }

    /// The serialized error body of the error.
    pub fn to_error_response(&self) -> (r: ErrorResponse)
        ensures
            r.error@ == spec_error_message(*self),
            r.error_type@ == spec_error_type(*self),
    {
        ErrorResponse { error: self.message(), error_type: self.error_type().to_owned() }
    }
}

/// The error body the tokenize route returns when no tokenizer is
/// configured, with its status code.
pub fn no_tokenizer_error() -> (r: (u16, ErrorResponse))
    ensures
        r.0 == 404,
        r.1.error@ == "No fast tokenizer or tokenizer.json for this model"@,
        r.1.error_type@ == "no fast tokenizer"@,
{
    (
        404,
        ErrorResponse {
            error: "No fast tokenizer or tokenizer.json for this model".to_owned(),
            error_type: "no fast tokenizer".to_owned(),
        },
    )
}

/// The error body the health route returns when the probe fails, with its
/// status code.
pub fn unhealthy_error() -> (r: (u16, ErrorResponse))
    ensures
        r.0 == 503,
        r.1.error@ == "unhealthy"@,
        r.1.error_type@ == "healthcheck"@,
{
    (
        503,
        ErrorResponse { error: "unhealthy".to_owned(), error_type: "healthcheck".to_owned() },
    )
}

} // verus!
