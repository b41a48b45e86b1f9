use openai_rust_client::endpoints::{
    BodyField, CreateCompletionBuilder, ListEngines, Moderations, ModerationsModel,
    NullableOneOrMany,
};
use openai_rust_client::fp::Fp32;
use openai_rust_client::token_map::TokenMap;
use openai_rust_client::{build_url, ApiKey, Method, Request};

fn fp(x: f32) -> Fp32 {
    Fp32::from_bits(x.to_bits())
}

#[test]
fn url_joins_base_and_path() {
    assert_eq!(build_url("engines"), "https://api.openai.com/v1/engines");
    assert_eq!(build_url(""), "https://api.openai.com/v1/");
}

#[test]
fn endpoints_and_methods() {
    assert_eq!(ListEngines {}.endpoint(), "engines");
    assert_eq!(ListEngines {}.method(), Method::GET);
    let m = Moderations { input: vec!["text".to_string()], model: None };
    assert_eq!(m.endpoint(), "moderations");
    assert_eq!(m.method(), Method::POST);
    assert!(m.has_body());
    assert!(!ListEngines {}.has_body());
    let cc = CreateCompletionBuilder::new("text-davinci-002").build().unwrap();
    assert_eq!(cc.endpoint(), "engines/text-davinci-002/completions");
    assert_eq!(cc.method(), Method::POST);
    assert!(cc.has_body());
}

#[test]
fn moderation_model_names() {
    assert_eq!(ModerationsModel::TextModerationStable.name(), "text-moderation-stable");
    assert_eq!(ModerationsModel::TextModerationLatest.name(), "text-moderation-latest");
}

#[test]
fn api_key_keeps_its_text() {
    assert_eq!(ApiKey::new("SECRET-REDACTED".to_string()).as_str(), "SECRET-REDACTED");
}

#[test]
fn builder_sets_parameters() {
    let cc = CreateCompletionBuilder::new("text-davinci-002")
        .prompt(NullableOneOrMany::One { one: "Say this is a test.".to_string() })
        .suffix("end".to_string())
        .max_tokens(12)
        .n(2)
        .best_of(3)
        .echo(true)
        .log_probs(5)
        .build()
        .unwrap();
    assert_eq!(cc.engine_id, "text-davinci-002");
    assert_eq!(cc.max_tokens, Some(12));
    assert_eq!(cc.suffix.as_deref(), Some("end"));
    assert_eq!(cc.n, Some(2));
    assert_eq!(cc.best_of, Some(3));
    assert_eq!(cc.log_probs, Some(5));
    assert!(cc.echo);
}

#[test]
fn max_tokens_limit() {
    assert!(CreateCompletionBuilder::new("e").max_tokens(4096).build().is_ok());
    let err = CreateCompletionBuilder::new("e").max_tokens(4097).build().unwrap_err();
    assert_eq!(err, "Max tokens cannot exceed 4096 on any model");
}

#[test]
fn temperature_range() {
    assert!(CreateCompletionBuilder::new("e").temperature(fp(0.0)).build().is_ok());
    assert!(CreateCompletionBuilder::new("e").temperature(fp(1.0)).build().is_ok());
    assert!(CreateCompletionBuilder::new("e").temperature(fp(-0.0)).build().is_ok());
    for bad in [1.01f32, -0.1, f32::NAN, f32::INFINITY] {
        let err = CreateCompletionBuilder::new("e").temperature(fp(bad)).build().unwrap_err();
        assert_eq!(err, "Temperature must be in range [0, 1.0]");
    }
}

#[test]
fn top_p_range() {
    assert!(CreateCompletionBuilder::new("e").top_p(fp(0.5)).build().is_ok());
    let err = CreateCompletionBuilder::new("e").top_p(fp(2.0)).build().unwrap_err();
    assert_eq!(err, "top_p must be in range [0, 1.0]");
}

#[test]
fn presence_penalty_range() {
    assert!(CreateCompletionBuilder::new("e").presence_penalty(fp(-2.0)).build().is_ok());
    assert!(CreateCompletionBuilder::new("e").presence_penalty(fp(2.0)).build().is_ok());
    let err = CreateCompletionBuilder::new("e").presence_penalty(fp(2.5)).build().unwrap_err();
    assert_eq!(err, "presence_penalty must be in range [-2.0, 2.0]");
}

#[test]
fn first_error_is_kept() {
    let err = CreateCompletionBuilder::new("e")
        .max_tokens(5000)
        .temperature(fp(3.0))
        .max_tokens(10)
        .build()
        .unwrap_err();
    assert_eq!(err, "Max tokens cannot exceed 4096 on any model");
}

#[test]
fn n_must_exceed_best_of() {
    let err = CreateCompletionBuilder::new("e").n(2).best_of(2).build().unwrap_err();
    assert_eq!(err, "If both are specified, best_of must be greater than n");
    let err = CreateCompletionBuilder::new("e").n(3).best_of(2).build().unwrap_err();
    assert_eq!(err, "If both are specified, best_of must be greater than n");
    let cc = CreateCompletionBuilder::new("e").n(1).best_of(2).build().unwrap();
    assert_eq!((cc.n, cc.best_of), (Some(1), Some(2)));
    assert!(CreateCompletionBuilder::new("e").best_of(2).build().is_ok());
    assert!(CreateCompletionBuilder::new("e").n(5).build().is_ok());
}

#[test]
fn body_of_blank_request_is_echo_only() {
    let body = CreateCompletionBuilder::new("e").build().unwrap().into_body();
    assert_eq!(body.len(), 1);
    assert!(matches!(body[0], BodyField::Echo(false)));
}

#[test]
fn body_fields_in_order() {
    let mut bias = TokenMap::new();
    bias.insert("50256".to_string(), fp(-100.0));
    let body = CreateCompletionBuilder::new("e")
        .prompt(NullableOneOrMany::Many { many: vec!["a".to_string(), "b".to_string()] })
        .max_tokens(3)
        .temperature(fp(0.5))
        .stop(NullableOneOrMany::One { one: "\n".to_string() })
        .presence_penalty(fp(1.0))
        .logit(bias)
        .build()
        .unwrap()
        .into_body();
    assert_eq!(body.len(), 6);
    assert!(matches!(&body[0], BodyField::Prompt(NullableOneOrMany::Many { many }) if many.len() == 2));
    assert!(matches!(body[1], BodyField::MaxTokens(3)));
    assert!(matches!(&body[2], BodyField::Temperature(t) if t.to_bits() == 0.5f32.to_bits()));
    assert!(matches!(body[3], BodyField::Echo(false)));
    assert!(matches!(&body[4], BodyField::PresencePenalty(p) if p.to_bits() == 1.0f32.to_bits()));
    assert!(matches!(&body[5], BodyField::Logit(m) if m.len() == 1));
}

#[test]
fn float_comparison_follows_ieee() {
    assert!(fp(-0.1).ge(&fp(-0.355)));
    assert!(!fp(-5.0).ge(&fp(-0.355)));
    assert!(fp(0.0).ge(&fp(-0.0)));
    assert!(fp(-0.0).ge(&fp(0.0)));
    assert!(fp(f32::INFINITY).ge(&fp(3.0e38)));
    assert!(!fp(f32::NAN).ge(&fp(0.0)));
    assert!(!fp(0.0).ge(&fp(f32::NAN)));
    assert!(fp(-0.2).ge(&fp(-0.5)));
    assert!(!fp(-0.5).ge(&fp(-0.2)));
    assert!(fp(f32::NAN).is_nan_exec());
    assert!(!fp(1.0).is_nan_exec());
}

#[test]
fn token_map_insert_replaces() {
    let mut m = TokenMap::new();
    assert_eq!(m.len(), 0);
    assert!(m.get("0").is_none());
    m.insert("0".to_string(), fp(-0.2));
    m.insert("1".to_string(), fp(-0.5));
    m.insert("0".to_string(), fp(-0.7));
    assert_eq!(m.len(), 2);
    assert_eq!(m.get("0").map(|v| v.to_bits()), Some((-0.7f32).to_bits()));
    assert_eq!(m.get("1").map(|v| v.to_bits()), Some((-0.5f32).to_bits()));
    assert!(m.get("2").is_none());
}

#[test]
fn token_map_entries_list_each_key_once() {
    let mut m = TokenMap::new();
    m.insert("2".to_string(), fp(-5.0));
    m.insert("0".to_string(), fp(-0.2));
    m.insert("2".to_string(), fp(-0.1));
    let e = m.entries();
    assert_eq!(e.len(), 2);
    assert_eq!(e[0].0, "2");
    assert_eq!(e[0].1.to_bits(), (-0.1f32).to_bits());
    assert_eq!(e[1].0, "0");
    assert_eq!(e[1].1.to_bits(), (-0.2f32).to_bits());
}
