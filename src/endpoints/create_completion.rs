//! The create-completion endpoint: a request built and validated by
//! [`CreateCompletionBuilder`], and the response with its generated choices.

use crate::fp::Fp32;
use crate::token_map::TokenMap;
use crate::{Method, Request};
use vstd::prelude::*;

verus! {

/// Nothing, a single value, or a list of values.
#[derive(Clone, Debug)]
pub enum NullableOneOrMany<T> {
    Absent,
    One { one: T },
    Many { many: Vec<T> },
}

pub type Prompt = NullableOneOrMany<String>;

pub type Stop = NullableOneOrMany<String>;

/// The largest number of tokens that any model generates for one request.
pub const MAX_TOKENS_LIMIT: u16 = 4096;

/// `0.0_f32`
pub const ZERO_BITS: u32 = 0x0000_0000;

/// `1.0_f32`
pub const ONE_BITS: u32 = 0x3f80_0000;

/// `-2.0_f32`
pub const MINUS_TWO_BITS: u32 = 0xc000_0000;

/// `2.0_f32`
pub const TWO_BITS: u32 = 0x4000_0000;

/// A request to the create-completion endpoint. Build one with
/// [`CreateCompletionBuilder`].
#[derive(Debug)]
pub struct CreateCompletion {
    /// name of the engine to use; e.g. text-davinci-002
    pub engine_id: String,
    /// Can be empty (for blank prompt), a single, or multiple prompts
    pub prompt: Prompt,
    /// Suffix that comes after the completion text
    pub suffix: Option<String>,
    /// The maximum number of tokens to generate in the completion.
    pub max_tokens: Option<u16>,
    /// What sampling temperature to use, in `[0, 1]`.
    pub temperature: Option<Fp32>,
    /// Nucleus sampling: the probability mass of the tokens considered, in `[0, 1]`.
    pub top_p: Option<Fp32>,
    /// How many completions to generate for each prompt.
    pub n: Option<u16>,
    /// Include the log probabilities of this many most likely tokens, as well
    /// as of the chosen tokens.
    pub log_probs: Option<u16>,
    /// Echo back the prompt in addition to the completion
    pub echo: bool,
    /// Sequences where the API will stop generating further tokens.
    pub stop: Stop,
    /// Penalty on tokens that already appear in the text, in `[-2, 2]`.
    pub presence_penalty: Option<Fp32>,
    /// Generates this many completions server-side and returns the best;
    /// with `n` also set it must be greater than `n`.
    pub best_of: Option<u16>,
    /// Bias on the likelihood of specified tokens appearing in the completion.
    pub logit: Option<TokenMap>,
}

/// One field of the JSON body of a completion request, with its value.
#[derive(Debug)]
pub enum BodyField {
    Prompt(Prompt),
    Suffix(String),
    MaxTokens(u16),
    Temperature(Fp32),
    TopP(Fp32),
    N(u16),
    LogProbs(u16),
    Echo(bool),
    PresencePenalty(Fp32),
    BestOf(u16),
    Logit(TokenMap),
}

/// The body segment of a field that may be left out: empty when it is.
pub open spec fn present(field: Option<BodyField>) -> Seq<BodyField> {
    match field {
        Some(f) => seq![f],
        None => Seq::empty(),
    }
}

fn push_present(fields: &mut Vec<BodyField>, field: Option<BodyField>)
    ensures
        final(fields)@ == old(fields)@ + present(field),
{
    match field {
        Some(f) => {
            fields.push(f);
            assert(fields@ =~= old(fields)@ + present(Some(f)));
        },
        None => {
            assert(fields@ =~= old(fields)@ + present(None));
        },
    }
}

impl CreateCompletion {
    /// The fields of the JSON body, in order: `prompt` unless there is none,
    /// then `suffix`, `max_tokens`, `temperature`, `top_p`, `n`, `logprobs`
    /// where set, `echo` always, then `presence_penalty`, `best_of` and
    /// `logit` where set.
    pub open spec fn body_spec(self) -> Seq<BodyField> {
        present(if self.prompt is Absent { None } else { Some(BodyField::Prompt(self.prompt)) }) + present(match self.suffix { Some(v) => Some(BodyField::Suffix(v)), None => None }) + present(match self.max_tokens { Some(v) => Some(BodyField::MaxTokens(v)), None => None }) + present(match self.temperature { Some(v) => Some(BodyField::Temperature(v)), None => None }) + present(match self.top_p { Some(v) => Some(BodyField::TopP(v)), None => None }) + present(match self.n { Some(v) => Some(BodyField::N(v)), None => None }) + present(match self.log_probs { Some(v) => Some(BodyField::LogProbs(v)), None => None }) + seq![BodyField::Echo(self.echo)] + present(match self.presence_penalty { Some(v) => Some(BodyField::PresencePenalty(v)), None => None }) + present(match self.best_of { Some(v) => Some(BodyField::BestOf(v)), None => None }) + present(match self.logit { Some(v) => Some(BodyField::Logit(v)), None => None })
    }

    /// The fields of the JSON body, in the order `body_spec` gives.
    #[verifier::rlimit(30)]
    pub fn into_body(self) -> (r: Vec<BodyField>)
        ensures
            r@ == self.body_spec(),
    {
        let ghost whole = self;
        let CreateCompletion {
            engine_id: _,
            prompt,
            suffix,
            max_tokens,
            temperature,
            top_p,
            n,
            log_probs,
            echo,
            stop: _,
            presence_penalty,
            best_of,
            logit,
        } = self;
        let mut fields: Vec<BodyField> = Vec::new();
        let first = match prompt {
            NullableOneOrMany::Absent => None,
            _ => Some(BodyField::Prompt(prompt)),
        };
        push_present(&mut fields, first);
        assert(fields@ =~= present(first));
        assert(first == if whole.prompt is Absent {
            None
        } else {
            Some(BodyField::Prompt(whole.prompt))
        });
        let field = match suffix {
            Some(v) => Some(BodyField::Suffix(v)),
            None => None,
        };
        assert(field == match whole.suffix {
            Some(v) => Some(BodyField::Suffix(v)),
            None => None,
        });
        push_present(&mut fields, field);
        let field = match max_tokens {
            Some(v) => Some(BodyField::MaxTokens(v)),
            None => None,
        };
        assert(field == match whole.max_tokens {
            Some(v) => Some(BodyField::MaxTokens(v)),
            None => None,
        });
        push_present(&mut fields, field);
        let field = match temperature {
            Some(v) => Some(BodyField::Temperature(v)),
            None => None,
        };
        assert(field == match whole.temperature {
            Some(v) => Some(BodyField::Temperature(v)),
            None => None,
        });
        push_present(&mut fields, field);
        let field = match top_p {
            Some(v) => Some(BodyField::TopP(v)),
            None => None,
        };
        assert(field == match whole.top_p {
            Some(v) => Some(BodyField::TopP(v)),
            None => None,
        });
        push_present(&mut fields, field);
        let field = match n {
            Some(v) => Some(BodyField::N(v)),
            None => None,
        };
        assert(field == match whole.n {
            Some(v) => Some(BodyField::N(v)),
            None => None,
        });
        push_present(&mut fields, field);
        let field = match log_probs {
            Some(v) => Some(BodyField::LogProbs(v)),
            None => None,
        };
        assert(field == match whole.log_probs {
            Some(v) => Some(BodyField::LogProbs(v)),
            None => None,
        });
        push_present(&mut fields, field);
        let ghost before_echo = fields@;
        fields.push(BodyField::Echo(echo));
        assert(fields@ == before_echo + seq![BodyField::Echo(whole.echo)]);
        let field = match presence_penalty {
            Some(v) => Some(BodyField::PresencePenalty(v)),
            None => None,
        };
        assert(field == match whole.presence_penalty {
            Some(v) => Some(BodyField::PresencePenalty(v)),
            None => None,
        });
        push_present(&mut fields, field);
        let field = match best_of {
            Some(v) => Some(BodyField::BestOf(v)),
            None => None,
        };
        assert(field == match whole.best_of {
            Some(v) => Some(BodyField::BestOf(v)),
            None => None,
        });
        push_present(&mut fields, field);
        let field = match logit {
            Some(v) => Some(BodyField::Logit(v)),
            None => None,
        };
        assert(field == match whole.logit {
            Some(v) => Some(BodyField::Logit(v)),
            None => None,
        });
        push_present(&mut fields, field);
        assert(fields@ == whole.body_spec());
        fields
    }
}

/// The path of the completion endpoint of an engine.
pub open spec fn completion_path(engine_id: Seq<char>) -> Seq<char> {
    seq!['e', 'n', 'g', 'i', 'n', 'e', 's', '/'] + engine_id + seq![
        '/',
        'c',
        'o',
        'm',
        'p',
        'l',
        'e',
        't',
        'i',
        'o',
        'n',
        's',
    ]
}

impl Request for CreateCompletion {
    open spec fn method_spec(&self) -> Method {
        Method::POST
    }

    open spec fn endpoint_spec(&self) -> Seq<char> {
        completion_path(self.engine_id@)
    }

    fn method(&self) -> (r: Method) {
        Method::POST
    }

    open spec fn has_body_spec(&self) -> bool {
        true
    }

    fn has_body(&self) -> (r: bool) {
        true
    }

    fn endpoint(&self) -> (r: String) {
        let mut path = String::from_str("engines/");
        path.append(self.engine_id.as_str());
        path.append("/completions");
        proof {
            reveal_strlit("engines/");
            reveal_strlit("/completions");
            assert(path@ =~= completion_path(self.engine_id@));
        }
        path
    }
}

/// The per-token log-probabilities of one completion.
#[derive(Debug)]
pub struct LogProbs {
    /// The tokens of the completion; their concatenation is the full text.
    pub tokens: Vec<String>,
    /// The log-probability of each chosen token.
    pub token_logprobs: Vec<Fp32>,
    /// For each token, the most likely candidates with their log-probabilities
    /// (the chosen token is always among them).
    pub top_logprobs: Vec<TokenMap>,
    /// The offset of each token in the text, prompt included.
    pub text_offset: Vec<u16>,
}

/// One completion of a prompt.
#[derive(Debug)]
pub struct Choice {
    /// The completed text
    pub text: String,
    /// The index of the prompt this Choice was generated for
    pub index: usize,
    /// Log probabilities (if present)
    pub log_probs: Option<Vec<LogProbs>>,
    pub finish_reason: String,
}

/// The answer to [`CreateCompletion`].
#[derive(Debug)]
pub struct CreateCompletionResponse {
    pub id: String,
    pub object: String,
    pub created: u64,
    pub model: String,
    pub choices: Vec<Choice>,
}

/// Assembles a [`CreateCompletion`], checking each parameter as it is set.
/// After the first rejected parameter the builder keeps that error and
/// ignores what follows.
#[derive(Debug)]
pub struct CreateCompletionBuilder {
    create_completion: Result<CreateCompletion, String>,
}

/// A completion request for an engine with every parameter left unset.
pub open spec fn blank_completion(engine_id: String) -> CreateCompletion {
    CreateCompletion {
        engine_id,
        prompt: NullableOneOrMany::Absent,
        suffix: None,
        max_tokens: None,
        temperature: None,
        top_p: None,
        n: None,
        log_probs: None,
        echo: false,
        stop: NullableOneOrMany::Absent,
        presence_penalty: None,
        best_of: None,
        logit: None,
    }
}

/// Whether a builder that held `before` and was given a parameter now holds
/// `after`: the update applied to an accepted request, an error held still.
pub open spec fn updated(
    before: Result<CreateCompletion, String>,
    after: Result<CreateCompletion, String>,
    apply: spec_fn(CreateCompletion) -> CreateCompletion,
) -> bool {
    match before {
        Ok(cc) => after == Ok::<CreateCompletion, String>(apply(cc)),
        Err(_) => after == before,
    }
}

/// Whether a builder that held `before` and was given an out-of-range
/// parameter now holds `after`: the error `message` in place of an accepted
/// request, an earlier error held still.
pub open spec fn rejected(
    before: Result<CreateCompletion, String>,
    after: Result<CreateCompletion, String>,
    message: Seq<char>,
) -> bool {
    match before {
        Ok(_) => after is Err && after->Err_0@ == message,
        Err(_) => after == before,
    }
}

impl CreateCompletionBuilder {
    /// What the builder holds: the request so far, or the first error.
    pub closed spec fn state(&self) -> Result<CreateCompletion, String> {
        self.create_completion
    }

    pub fn new(engine_id: &str) -> (r: CreateCompletionBuilder)
        ensures
            r.state() is Ok,
            r.state()->Ok_0.engine_id@ == engine_id@,
            r.state() == Ok::<CreateCompletion, String>(
                blank_completion(r.state()->Ok_0.engine_id),
            ),
    {
        CreateCompletionBuilder {
            create_completion: Ok(
                CreateCompletion {
                    engine_id: String::from_str(engine_id),
                    prompt: NullableOneOrMany::Absent,
                    suffix: None,
                    max_tokens: None,
                    temperature: None,
                    top_p: None,
                    n: None,
                    log_probs: None,
                    echo: false,
                    stop: NullableOneOrMany::Absent,
                    presence_penalty: None,
                    best_of: None,
                    logit: None,
                },
            ),
        }
    }

    pub fn prompt(self, prompt: Prompt) -> (r: CreateCompletionBuilder)
        ensures
            updated(self.state(), r.state(), |cc: CreateCompletion| CreateCompletion { prompt, ..cc }),
    {
        match self.create_completion {
            Ok(cc) => CreateCompletionBuilder {
                create_completion: Ok(CreateCompletion { prompt, ..cc }),
            },
            Err(e) => CreateCompletionBuilder { create_completion: Err(e) },
        }
    }

    pub fn suffix(self, suffix: String) -> (r: CreateCompletionBuilder)
        ensures
            updated(
                self.state(),
                r.state(),
                |cc: CreateCompletion| CreateCompletion { suffix: Some(suffix), ..cc },
            ),
    {
        match self.create_completion {
            Ok(cc) => CreateCompletionBuilder {
                create_completion: Ok(CreateCompletion { suffix: Some(suffix), ..cc }),
            },
            Err(e) => CreateCompletionBuilder { create_completion: Err(e) },
        }
    }

    /// Sets the largest number of tokens to generate; more than 4096 is an
    /// error.
    pub fn max_tokens(self, max_tokens: u16) -> (r: CreateCompletionBuilder)
        ensures
            max_tokens <= MAX_TOKENS_LIMIT ==> updated(
                self.state(),
                r.state(),
                |cc: CreateCompletion| CreateCompletion { max_tokens: Some(max_tokens), ..cc },
            ),
            max_tokens > MAX_TOKENS_LIMIT ==> rejected(
                self.state(),
                r.state(),
                "Max tokens cannot exceed 4096 on any model"@,
            ),
    {
        match self.create_completion {
            Ok(cc) => {
                if max_tokens > MAX_TOKENS_LIMIT {
                    CreateCompletionBuilder {
                        create_completion: Err(
                            String::from_str("Max tokens cannot exceed 4096 on any model"),
                        ),
                    }
                } else {
                    CreateCompletionBuilder {
                        create_completion: Ok(CreateCompletion { max_tokens: Some(max_tokens), ..cc }),
                    }
                }
            },
            Err(e) => CreateCompletionBuilder { create_completion: Err(e) },
        }
    }

    /// Sets the sampling temperature; outside `[0, 1]` (or NaN) it is an error.
    pub fn temperature(self, temperature: Fp32) -> (r: CreateCompletionBuilder)
        ensures
            temperature.within_spec(Fp32 { bits: ZERO_BITS }, Fp32 { bits: ONE_BITS }) ==> updated(
                self.state(),
                r.state(),
                |cc: CreateCompletion| CreateCompletion { temperature: Some(temperature), ..cc },
            ),
            !temperature.within_spec(Fp32 { bits: ZERO_BITS }, Fp32 { bits: ONE_BITS }) ==> rejected(
                self.state(),
                r.state(),
                "Temperature must be in range [0, 1.0]"@,
            ),
    {
        match self.create_completion {
            Ok(cc) => {
                if !temperature.within(&Fp32::from_bits(ZERO_BITS), &Fp32::from_bits(ONE_BITS)) {
                    CreateCompletionBuilder {
                        create_completion: Err(String::from_str("Temperature must be in range [0, 1.0]")),
                    }
                } else {
                    CreateCompletionBuilder {
                        create_completion: Ok(CreateCompletion { temperature: Some(temperature), ..cc }),
                    }
                }
            },
            Err(e) => CreateCompletionBuilder { create_completion: Err(e) },
        }
    }

    /// Sets the nucleus-sampling mass; outside `[0, 1]` (or NaN) it is an error.
    pub fn top_p(self, top_p: Fp32) -> (r: CreateCompletionBuilder)
        ensures
            top_p.within_spec(Fp32 { bits: ZERO_BITS }, Fp32 { bits: ONE_BITS }) ==> updated(
                self.state(),
                r.state(),
                |cc: CreateCompletion| CreateCompletion { top_p: Some(top_p), ..cc },
            ),
            !top_p.within_spec(Fp32 { bits: ZERO_BITS }, Fp32 { bits: ONE_BITS }) ==> rejected(
                self.state(),
                r.state(),
                "top_p must be in range [0, 1.0]"@,
            ),
    {
        match self.create_completion {
            Ok(cc) => {
                if !top_p.within(&Fp32::from_bits(ZERO_BITS), &Fp32::from_bits(ONE_BITS)) {
                    CreateCompletionBuilder {
                        create_completion: Err(String::from_str("top_p must be in range [0, 1.0]")),
                    }
                } else {
                    CreateCompletionBuilder {
                        create_completion: Ok(CreateCompletion { top_p: Some(top_p), ..cc }),
                    }
                }
            },
            Err(e) => CreateCompletionBuilder { create_completion: Err(e) },
        }
    }

    pub fn n(self, n: u16) -> (r: CreateCompletionBuilder)
        ensures
            updated(
                self.state(),
                r.state(),
                |cc: CreateCompletion| CreateCompletion { n: Some(n), ..cc },
            ),
    {
        match self.create_completion {
            Ok(cc) => CreateCompletionBuilder {
                create_completion: Ok(CreateCompletion { n: Some(n), ..cc }),
            },
            Err(e) => CreateCompletionBuilder { create_completion: Err(e) },
        }
    }

    pub fn log_probs(self, log_probs: u16) -> (r: CreateCompletionBuilder)
        ensures
            updated(
                self.state(),
                r.state(),
                |cc: CreateCompletion| CreateCompletion { log_probs: Some(log_probs), ..cc },
            ),
    {
        match self.create_completion {
            Ok(cc) => CreateCompletionBuilder {
                create_completion: Ok(CreateCompletion { log_probs: Some(log_probs), ..cc }),
            },
            Err(e) => CreateCompletionBuilder { create_completion: Err(e) },
        }
    }

    pub fn echo(self, echo: bool) -> (r: CreateCompletionBuilder)
        ensures
            updated(
                self.state(),
                r.state(),
                |cc: CreateCompletion| CreateCompletion { echo, ..cc },
            ),
    {
        match self.create_completion {
            Ok(cc) => CreateCompletionBuilder {
                create_completion: Ok(CreateCompletion { echo, ..cc }),
            },
            Err(e) => CreateCompletionBuilder { create_completion: Err(e) },
        }
    }

    pub fn stop(self, stop: Stop) -> (r: CreateCompletionBuilder)
        ensures
            updated(
                self.state(),
                r.state(),
                |cc: CreateCompletion| CreateCompletion { stop, ..cc },
            ),
    {
        match self.create_completion {
            Ok(cc) => CreateCompletionBuilder {
                create_completion: Ok(CreateCompletion { stop, ..cc }),
            },
            Err(e) => CreateCompletionBuilder { create_completion: Err(e) },
        }
    }

    /// Sets the presence penalty; outside `[-2, 2]` (or NaN) it is an error.
    pub fn presence_penalty(self, presence_penalty: Fp32) -> (r: CreateCompletionBuilder)
        ensures
            presence_penalty.within_spec(Fp32 { bits: MINUS_TWO_BITS }, Fp32 { bits: TWO_BITS }) ==> updated(
                self.state(),
                r.state(),
                |cc: CreateCompletion| CreateCompletion { presence_penalty: Some(presence_penalty), ..cc },
            ),
            !presence_penalty.within_spec(Fp32 { bits: MINUS_TWO_BITS }, Fp32 { bits: TWO_BITS }) ==> rejected(
                self.state(),
                r.state(),
                "presence_penalty must be in range [-2.0, 2.0]"@,
            ),
    {
        match self.create_completion {
            Ok(cc) => {
                if !presence_penalty.within(&Fp32::from_bits(MINUS_TWO_BITS), &Fp32::from_bits(TWO_BITS)) {
                    CreateCompletionBuilder {
                        create_completion: Err(String::from_str("presence_penalty must be in range [-2.0, 2.0]")),
                    }
                } else {
                    CreateCompletionBuilder {
                        create_completion: Ok(CreateCompletion { presence_penalty: Some(presence_penalty), ..cc }),
                    }
                }
            },
            Err(e) => CreateCompletionBuilder { create_completion: Err(e) },
        }
    }

    pub fn best_of(self, best_of: u16) -> (r: CreateCompletionBuilder)
        ensures
            updated(
                self.state(),
                r.state(),
                |cc: CreateCompletion| CreateCompletion { best_of: Some(best_of), ..cc },
            ),
    {
        match self.create_completion {
            Ok(cc) => CreateCompletionBuilder {
                create_completion: Ok(CreateCompletion { best_of: Some(best_of), ..cc }),
            },
            Err(e) => CreateCompletionBuilder { create_completion: Err(e) },
        }
    }

    pub fn logit(self, logit: TokenMap) -> (r: CreateCompletionBuilder)
        ensures
            updated(
                self.state(),
                r.state(),
                |cc: CreateCompletion| CreateCompletion { logit: Some(logit), ..cc },
            ),
    {
        match self.create_completion {
            Ok(cc) => CreateCompletionBuilder {
                create_completion: Ok(CreateCompletion { logit: Some(logit), ..cc }),
            },
            Err(e) => CreateCompletionBuilder { create_completion: Err(e) },
        }
    }

    /// The request, or the first error met. With both `n` and `best_of`
    /// set, `best_of` must exceed `n`.
    pub fn build(self) -> (r: Result<CreateCompletion, String>)
        ensures
            match self.state() {
                Ok(cc) => match (cc.n, cc.best_of) {
                    (Some(n), Some(best_of)) if best_of <= n => r is Err && r->Err_0@
                        == "If both are specified, best_of must be greater than n"@,
                    _ => r == self.state(),
                },
                Err(_) => r == self.state(),
            },
    {
        let cc = match self.create_completion {
            Ok(cc) => cc,
            Err(e) => {
                return Err(e);
            },
        };
        if let (Some(n), Some(best_of)) = (cc.n, cc.best_of) {
            if best_of <= n {
                return Err(String::from_str("If both are specified, best_of must be greater than n"));
            }
        }
        Ok(cc)
    }
}

} // verus!
