use openai_rust_client::content_filter::{
    create_content_filter_request, determine_filter_label, filter_step, label_from_candidates,
    ClassificationError, FilterFailure, FilterLabel, FilterStep,
};
use openai_rust_client::endpoints::{Choice, CreateCompletionResponse, LogProbs, NullableOneOrMany};
use openai_rust_client::fp::Fp32;
use openai_rust_client::token_map::TokenMap;
use openai_rust_client::{Error, Request};

fn lp(x: f32) -> Fp32 {
    Fp32::from_bits(x.to_bits())
}

fn candidates(pairs: &[(&str, f32)]) -> TokenMap {
    let mut m = TokenMap::new();
    for (k, v) in pairs {
        m.insert(k.to_string(), lp(*v));
    }
    m
}

fn choice(text: &str, top: Option<TokenMap>) -> Choice {
    let log_probs = top.map(|m| {
        vec![LogProbs {
            tokens: vec![text.to_string()],
            token_logprobs: vec![lp(-0.5)],
            top_logprobs: vec![m],
            text_offset: vec![0],
        }]
    });
    Choice { text: text.to_string(), index: 0, log_probs, finish_reason: "length".to_string() }
}

fn response(choices: Vec<Choice>) -> CreateCompletionResponse {
    CreateCompletionResponse {
        id: "cmpl-1".to_string(),
        object: "text_completion".to_string(),
        created: 1_650_000_000,
        model: "content-filter-alpha".to_string(),
        choices,
    }
}

fn label(text: &str, top: Option<TokenMap>) -> Result<FilterLabel, ClassificationError> {
    determine_filter_label(response(vec![choice(text, top)]))
}

#[test]
fn filter_request_has_fixed_parameters() {
    for text in ["", "hello world", "multi\nline ☃"] {
        let cc = create_content_filter_request(text).unwrap();
        assert_eq!(cc.engine_id, "content-filter-alpha");
        match &cc.prompt {
            NullableOneOrMany::One { one } => {
                assert_eq!(one, &format!("<|endoftext|>{}\n--\nLabel:", text))
            }
            _ => panic!("prompt is not a single string"),
        }
        assert_eq!(cc.max_tokens, Some(1));
        assert_eq!(cc.temperature.map(|t| t.to_bits()), Some(0.0f32.to_bits()));
        assert_eq!(cc.top_p.map(|t| t.to_bits()), Some(0.0f32.to_bits()));
        assert_eq!(cc.log_probs, Some(10));
        assert_eq!(cc.n, None);
        assert_eq!(cc.best_of, None);
        assert!(!cc.echo);
        assert_eq!(cc.endpoint(), "engines/content-filter-alpha/completions");
    }
}

#[test]
fn label_zero_is_safe_without_log_probs() {
    assert_eq!(label("0", None), Ok(FilterLabel::Safe));
}

#[test]
fn label_one_is_sensitive() {
    assert_eq!(label("1", None), Ok(FilterLabel::Sensitive));
}

#[test]
fn confident_two_is_unsafe() {
    assert_eq!(label("2", Some(candidates(&[("2", -0.1)]))), Ok(FilterLabel::Unsafe));
    assert_eq!(
        label("2", Some(candidates(&[("2", -0.1), ("0", -0.01), ("1", -3.0)]))),
        Ok(FilterLabel::Unsafe)
    );
}

#[test]
fn threshold_itself_is_unsafe() {
    assert_eq!(label("2", Some(candidates(&[("2", -0.355), ("0", -0.2)]))), Ok(FilterLabel::Unsafe));
    assert_eq!(
        label("2", Some(candidates(&[("2", -0.356), ("0", -0.2)]))),
        Ok(FilterLabel::Safe)
    );
}

#[test]
fn unsure_two_prefers_likelier_safe() {
    let top = candidates(&[("2", -5.0), ("0", -0.2), ("1", -0.5)]);
    assert_eq!(label("2", Some(top)), Ok(FilterLabel::Safe));
}

#[test]
fn unsure_two_tie_is_safe() {
    let top = candidates(&[("2", -5.0), ("0", -0.4), ("1", -0.4)]);
    assert_eq!(label_from_candidates(&top), Ok(FilterLabel::Safe));
}

#[test]
fn unsure_two_prefers_likelier_sensitive() {
    let top = candidates(&[("2", -5.0), ("0", -0.9), ("1", -0.5)]);
    assert_eq!(label_from_candidates(&top), Ok(FilterLabel::Sensitive));
}

#[test]
fn unsure_two_with_only_sensitive() {
    let top = candidates(&[("2", -5.0), ("1", -0.3)]);
    assert_eq!(label("2", Some(top)), Ok(FilterLabel::Sensitive));
}

#[test]
fn unsure_two_with_only_safe() {
    let top = candidates(&[("2", -5.0), ("0", -3.0)]);
    assert_eq!(label("2", Some(top)), Ok(FilterLabel::Safe));
}

#[test]
fn unsure_two_without_evidence_is_unsafe() {
    assert_eq!(label("2", Some(candidates(&[("2", -5.0)]))), Ok(FilterLabel::Unsafe));
}

#[test]
fn two_without_log_probs_is_missing() {
    assert_eq!(label("2", None), Err(ClassificationError::MissingLogProbs));
}

#[test]
fn two_without_candidate_two_is_missing() {
    let top = candidates(&[("0", -0.2), ("1", -0.5)]);
    assert_eq!(label("2", Some(top)), Err(ClassificationError::MissingLogProbs));
}

#[test]
fn two_with_empty_log_probs_is_missing() {
    let mut c = choice("2", None);
    c.log_probs = Some(vec![]);
    assert_eq!(determine_filter_label(response(vec![c])), Err(ClassificationError::MissingLogProbs));
    let mut c = choice("2", None);
    c.log_probs = Some(vec![LogProbs {
        tokens: vec![],
        token_logprobs: vec![],
        top_logprobs: vec![],
        text_offset: vec![],
    }]);
    assert_eq!(determine_filter_label(response(vec![c])), Err(ClassificationError::MissingLogProbs));
}

#[test]
fn no_choice_is_no_label() {
    assert_eq!(determine_filter_label(response(vec![])), Err(ClassificationError::NoLabelFound));
}

#[test]
fn several_choices_are_too_many() {
    let r = response(vec![choice("0", None), choice("0", None)]);
    assert_eq!(determine_filter_label(r), Err(ClassificationError::TooManyLabels));
    let r = response(vec![choice("0", None), choice("1", None), choice("2", None)]);
    assert_eq!(determine_filter_label(r), Err(ClassificationError::TooManyLabels));
}

#[test]
fn other_text_is_unexpected() {
    assert_eq!(label("3", None), Err(ClassificationError::UnexpectedLabel));
    assert_eq!(label("", None), Err(ClassificationError::UnexpectedLabel));
    assert_eq!(label("00", None), Err(ClassificationError::UnexpectedLabel));
}

#[test]
fn label_display_text() {
    assert_eq!(FilterLabel::Safe.display_text(), "FilterLabel::Safe");
    assert_eq!(FilterLabel::Sensitive.display_text(), "FilterLabel::Sensitive");
    assert_eq!(FilterLabel::Unsafe.display_text(), "FilterLabel::Unsafe");
}

fn transient(msg: &str) -> Result<CreateCompletionResponse, Error> {
    Err(Error::HttpError { err: msg.to_string() })
}

fn finished(step: FilterStep) -> Result<FilterLabel, FilterFailure> {
    match step {
        FilterStep::Finish { result } => result,
        FilterStep::Retry => panic!("expected the workflow to finish"),
    }
}

#[test]
fn transient_failure_then_success_matches_first_success() {
    assert!(matches!(filter_step(false, transient("reset")), FilterStep::Retry));
    let after_retry = finished(filter_step(true, Ok(response(vec![choice("1", None)]))));
    let first_time = finished(filter_step(false, Ok(response(vec![choice("1", None)]))));
    assert_eq!(after_retry.unwrap(), FilterLabel::Sensitive);
    assert_eq!(first_time.unwrap(), FilterLabel::Sensitive);
}

#[test]
fn two_transient_failures_stop() {
    assert!(matches!(filter_step(false, transient("reset")), FilterStep::Retry));
    match finished(filter_step(true, transient("timed out"))) {
        Err(FilterFailure::Unreachable { err }) => assert_eq!(err, "timed out"),
        other => panic!("unexpected {:?}", other),
    }
}

#[test]
fn client_rejection_is_not_retried() {
    let out = Err(Error::ClientError { err: "quota".to_string(), status: 429 });
    match finished(filter_step(false, out)) {
        Err(FilterFailure::Rejected { status, err }) => {
            assert_eq!(status, 429);
            assert_eq!(err, "quota");
        }
        other => panic!("unexpected {:?}", other),
    }
}

#[test]
fn undecodable_response_is_not_retried() {
    let out = Err(Error::DeserializeError { err: "missing field".to_string() });
    match finished(filter_step(false, out)) {
        Err(FilterFailure::Undecodable { err }) => assert_eq!(err, "missing field"),
        other => panic!("unexpected {:?}", other),
    }
}

#[test]
fn classification_error_is_reported() {
    match finished(filter_step(false, Ok(response(vec![])))) {
        Err(FilterFailure::Unclassifiable { reason }) => {
            assert_eq!(reason, ClassificationError::NoLabelFound)
        }
        other => panic!("unexpected {:?}", other),
    }
}
