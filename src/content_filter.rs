//! Content filtering on top of the completion endpoint.
//!
//! A completion engine dedicated to classification is asked for exactly one
//! token, "0" (safe), "1" (sensitive) or "2" (unsafe), with the ten most
//! likely candidates and their log-probabilities. [`determine_filter_label`]
//! turns the response into a [`FilterLabel`]; [`filter_step`] decides, after
//! each attempt to send the request, whether to retry or to finish. Any
//! failure should be treated by the caller as an unsafe classification.

use crate::endpoints::create_completion::{
    blank_completion, Choice, CreateCompletion, CreateCompletionBuilder, CreateCompletionResponse,
    NullableOneOrMany, ZERO_BITS,
};
use crate::fp::Fp32;
use crate::token_map::TokenMap;
use crate::Error;
use vstd::prelude::*;

verus! {

/// The engine that classifies content.
pub const CONTENT_FILTER_ENGINE: &'static str = "content-filter-alpha";

/// The start-of-text marker that opens a classification prompt.
pub const PROMPT_START: &'static str = "<|endoftext|>";

/// What follows the text in a classification prompt.
pub const PROMPT_END: &'static str = "\n--\nLabel:";

/// The number of candidate tokens whose log-probabilities are asked for.
pub const FILTER_LOG_PROBS: u16 = 10;

/// `-0.355_f32`: a candidate "2" at least this likely makes the text unsafe.
pub const TOXIC_THRESHOLD_BITS: u32 = 0xbeb5_c28f;

/// The prompt that asks for the label of `text`.
pub open spec fn filter_prompt(text: Seq<char>) -> Seq<char> {
    PROMPT_START@ + text + PROMPT_END@
}

/// The classification request for `text`: one token, at temperature 0 and
/// top-p 0, with ten candidates' log-probabilities.
pub open spec fn is_filter_request(cc: CreateCompletion, text: Seq<char>) -> bool {
    &&& cc.engine_id@ == CONTENT_FILTER_ENGINE@
    &&& cc.prompt is One
    &&& cc.prompt->one@ == filter_prompt(text)
    &&& cc == CreateCompletion {
        engine_id: cc.engine_id,
        prompt: cc.prompt,
        max_tokens: Some(1u16),
        temperature: Some(Fp32 { bits: ZERO_BITS }),
        top_p: Some(Fp32 { bits: ZERO_BITS }),
        log_probs: Some(FILTER_LOG_PROBS),
        ..blank_completion(cc.engine_id)
    }
}

/// Creates the completion request that classifies `text`.
pub fn create_content_filter_request(text: &str) -> (r: Result<CreateCompletion, String>)
    ensures
        r is Ok,
        is_filter_request(r->Ok_0, text@),
{
    let mut prompt = String::from_str(PROMPT_START);
    prompt.append(text);
    prompt.append(PROMPT_END);
    CreateCompletionBuilder::new(CONTENT_FILTER_ENGINE).max_tokens(1).temperature(
        Fp32::from_bits(ZERO_BITS),
    ).top_p(Fp32::from_bits(ZERO_BITS)).log_probs(FILTER_LOG_PROBS).prompt(
        NullableOneOrMany::One { one: prompt },
    ).build()
}

/// How safe a text is for display.
#[derive(Clone, Copy, Debug, PartialEq, Eq, Structural)]
pub enum FilterLabel {
    Safe,
    Sensitive,
    Unsafe,
}

impl FilterLabel {
    pub open spec fn display_spec(self) -> Seq<char> {
        match self {
            FilterLabel::Safe => "FilterLabel::Safe"@,
            FilterLabel::Sensitive => "FilterLabel::Sensitive"@,
            FilterLabel::Unsafe => "FilterLabel::Unsafe"@,
        }
    }

    /// The label's name, as it is shown to people.
    pub fn display_text(&self) -> (r: String)
        ensures
            r@ == self.display_spec(),
    {
        match self {
            FilterLabel::Safe => String::from_str("FilterLabel::Safe"),
            FilterLabel::Sensitive => String::from_str("FilterLabel::Sensitive"),
            FilterLabel::Unsafe => String::from_str("FilterLabel::Unsafe"),
        }
    }
}

/// Why a response could not be turned into a label.
#[derive(Clone, Copy, Debug, PartialEq, Eq, Structural)]
pub enum ClassificationError {
    /// The response holds no choice.
    NoLabelFound,
    /// The response holds more than one choice.
    TooManyLabels,
    /// The label is none of "0", "1" and "2".
    UnexpectedLabel,
    /// The label is "2" but the log-probabilities needed to confirm it are
    /// missing.
    MissingLogProbs,
}

/// The label that the candidate log-probabilities of a "2" decide: unsafe
/// when candidate "2" is at least as likely as the threshold; otherwise the
/// likelier of candidates "0" and "1" (safe on a tie), the one present if
/// only one is, and unsafe if neither is.
pub open spec fn label_from_candidates_spec(top: TokenMap) -> Result<
    FilterLabel,
    ClassificationError,
> {
    match top.get_spec("2"@) {
        None => Err(ClassificationError::MissingLogProbs),
        Some(unsafe_lp) => if unsafe_lp.ge_spec(Fp32 { bits: TOXIC_THRESHOLD_BITS }) {
            Ok(FilterLabel::Unsafe)
        } else {
            match (top.get_spec("0"@), top.get_spec("1"@)) {
                (Some(safe), Some(sensitive)) => if safe.ge_spec(sensitive) {
                    Ok(FilterLabel::Safe)
                } else {
                    Ok(FilterLabel::Sensitive)
                },
                (Some(_), None) => Ok(FilterLabel::Safe),
                (None, Some(_)) => Ok(FilterLabel::Sensitive),
                (None, None) => Ok(FilterLabel::Unsafe),
            }
        },
    }
}

/// The label of a single choice: "0" is safe and "1" sensitive; "2" is
/// settled by the candidates of the first token; anything else is an error.
pub open spec fn label_of_choice(choice: Choice) -> Result<FilterLabel, ClassificationError> {
    if choice.text@ == "0"@ {
        Ok(FilterLabel::Safe)
    } else if choice.text@ == "1"@ {
        Ok(FilterLabel::Sensitive)
    } else if choice.text@ == "2"@ {
        match choice.log_probs {
            None => Err(ClassificationError::MissingLogProbs),
            Some(lps) => if lps.len() == 0 || lps[0].top_logprobs.len() == 0 {
                Err(ClassificationError::MissingLogProbs)
            } else {
                label_from_candidates_spec(lps[0].top_logprobs[0])
            },
        }
    } else {
        Err(ClassificationError::UnexpectedLabel)
    }
}

/// The label of a response to a classification request, which must hold
/// exactly one choice.
pub open spec fn filter_label_of(resp: CreateCompletionResponse) -> Result<
    FilterLabel,
    ClassificationError,
> {
    if resp.choices.len() == 0 {
        Err(ClassificationError::NoLabelFound)
    } else if resp.choices.len() > 1 {
        Err(ClassificationError::TooManyLabels)
    } else {
        label_of_choice(resp.choices[0])
    }
}

/// The label that the candidates of a generated "2" decide.
pub fn label_from_candidates(top: &TokenMap) -> (r: Result<FilterLabel, ClassificationError>)
    ensures
        r == label_from_candidates_spec(*top),
{
    let unsafe_lp = match top.get("2") {
        Some(lp) => lp,
        None => {
            return Err(ClassificationError::MissingLogProbs);
        },
    };
    if unsafe_lp.ge(&Fp32::from_bits(TOXIC_THRESHOLD_BITS)) {
        return Ok(FilterLabel::Unsafe);
    }
    match (top.get("0"), top.get("1")) {
        (Some(safe), Some(sensitive)) => {
            if safe.ge(&sensitive) {
                Ok(FilterLabel::Safe)
            } else {
                Ok(FilterLabel::Sensitive)
            }
        },
        (Some(_), None) => Ok(FilterLabel::Safe),
        (None, Some(_)) => Ok(FilterLabel::Sensitive),
        (None, None) => Ok(FilterLabel::Unsafe),
    }
}

fn text_is(text: &String, literal: &str) -> (r: bool)
    ensures
        r == (text@ == literal@),
{
    *text == String::from_str(literal)
}

/// The label of a single choice.
pub fn label_for_choice(choice: &Choice) -> (r: Result<FilterLabel, ClassificationError>)
    ensures
        r == label_of_choice(*choice),
{
    if text_is(&choice.text, "0") {
        Ok(FilterLabel::Safe)
    } else if text_is(&choice.text, "1") {
        Ok(FilterLabel::Sensitive)
    } else if text_is(&choice.text, "2") {
        match &choice.log_probs {
            None => Err(ClassificationError::MissingLogProbs),
            Some(lps) => {
                if lps.len() == 0 || lps[0].top_logprobs.len() == 0 {
                    Err(ClassificationError::MissingLogProbs)
                } else {
                    label_from_candidates(&lps[0].top_logprobs[0])
                }
            },
        }
    } else {
        Err(ClassificationError::UnexpectedLabel)
    }
}

/// Returns the filter label if it can be determined, or an error. In the
/// event of an error you should treat the text as unsafe.
pub fn determine_filter_label(resp: CreateCompletionResponse) -> (r: Result<
    FilterLabel,
    ClassificationError,
>)
    ensures
        r == filter_label_of(resp),
{
    if resp.choices.len() == 0 {
        Err(ClassificationError::NoLabelFound)
    } else if resp.choices.len() > 1 {
        Err(ClassificationError::TooManyLabels)
    } else {
        label_for_choice(&resp.choices[0])
    }
}

/// Why the classification workflow gave no label.
#[derive(Debug)]
pub enum FilterFailure {
    /// The API could not be reached, on the retry as well.
    Unreachable { err: String },
    /// The API rejected the request.
    Rejected { status: u16, err: String },
    /// The response did not have the expected shape.
    Undecodable { err: String },
    /// The response could not be turned into a label.
    Unclassifiable { reason: ClassificationError },
}

/// What to do after an attempt to send the classification request.
#[derive(Debug)]
pub enum FilterStep {
    /// Send the same request once more.
    Retry,
    /// Stop, with this result.
    Finish { result: Result<FilterLabel, FilterFailure> },
}

/// The result that a response gives.
pub open spec fn classified(resp: CreateCompletionResponse) -> Result<FilterLabel, FilterFailure> {
    match filter_label_of(resp) {
        Ok(label) => Ok(label),
        Err(reason) => Err(FilterFailure::Unclassifiable { reason }),
    }
}

/// The step after an attempt that had `outcome`; `is_retry` tells whether
/// the attempt was already the retry. Only a transient failure of the first
/// attempt is retried.
pub open spec fn filter_step_spec(is_retry: bool, outcome: Result<CreateCompletionResponse, Error>) -> FilterStep {
    match outcome {
        Ok(resp) => FilterStep::Finish { result: classified(resp) },
        Err(Error::HttpError { err }) => if is_retry {
            FilterStep::Finish { result: Err(FilterFailure::Unreachable { err }) }
        } else {
            FilterStep::Retry
        },
        Err(Error::ClientError { err, status }) => FilterStep::Finish {
            result: Err(FilterFailure::Rejected { status, err }),
        },
        Err(Error::DeserializeError { err }) => FilterStep::Finish {
            result: Err(FilterFailure::Undecodable { err }),
        },
    }
}

/// Decides what follows an attempt to send the classification request.
pub fn filter_step(is_retry: bool, outcome: Result<CreateCompletionResponse, Error>) -> (r: FilterStep)
    ensures
        r == filter_step_spec(is_retry, outcome),
{
    match outcome {
        Ok(resp) => {
            let result = match determine_filter_label(resp) {
                Ok(label) => Ok(label),
                Err(reason) => Err(FilterFailure::Unclassifiable { reason }),
            };
            FilterStep::Finish { result }
        },
        Err(Error::HttpError { err }) => {
            if is_retry {
                FilterStep::Finish { result: Err(FilterFailure::Unreachable { err }) }
            } else {
                FilterStep::Retry
            }
        },
        Err(Error::ClientError { err, status }) => FilterStep::Finish {
            result: Err(FilterFailure::Rejected { status, err }),
        },
        Err(Error::DeserializeError { err }) => FilterStep::Finish {
            result: Err(FilterFailure::Undecodable { err }),
        },
    }
}

/// The result of the workflow and the number of requests it sent, when the
/// first attempt has outcome `first` and a retry, if one is sent, has
/// outcome `second`.
pub open spec fn filter_session(
    first: Result<CreateCompletionResponse, Error>,
    second: Result<CreateCompletionResponse, Error>,
) -> (Result<FilterLabel, FilterFailure>, nat) {
    match filter_step_spec(false, first) {
        FilterStep::Finish { result } => (result, 1),
        FilterStep::Retry => match filter_step_spec(true, second) {
            FilterStep::Finish { result } => (result, 2),
            // a second retry, which `lemma_single_retry` shows is never asked for
            FilterStep::Retry => (Err(FilterFailure::Unreachable { err: arbitrary() }), 3),
        },
    }
}

/// A transient failure followed by a successful retry gives the result that
/// a successful first attempt gives, after two requests; two transient
/// failures in a row give the second failure, after two requests. The
/// workflow never asks for a second retry.
pub proof fn lemma_single_retry(
    resp: CreateCompletionResponse,
    first_err: String,
    second_err: String,
    any: Result<CreateCompletionResponse, Error>,
)
    ensures
        filter_session(Err(Error::HttpError { err: first_err }), Ok(resp)) == (
        classified(resp),
        2nat,
        ),
        filter_session(Ok(resp), any) == (classified(resp), 1nat),
        filter_session(
            Err(Error::HttpError { err: first_err }),
            Err(Error::HttpError { err: second_err }),
        ) == (Err::<FilterLabel, FilterFailure>(FilterFailure::Unreachable { err: second_err }), 2nat),
        !(filter_step_spec(true, any) is Retry),
        filter_session(Err(Error::HttpError { err: first_err }), any).1 == 2,
{
}

} // verus!
