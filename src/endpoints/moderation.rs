//! The moderations endpoint: classifies texts against the API's content
//! policy.

use crate::fp::Fp64;
use crate::{Method, Request};
use vstd::prelude::*;

verus! {

/// The moderation model to use.
#[derive(Clone, Copy, Debug, PartialEq, Eq, Structural)]
pub enum ModerationsModel {
    TextModerationStable,
    TextModerationLatest,
}

impl ModerationsModel {
    /// The name the API knows the model by.
    pub open spec fn name_spec(self) -> Seq<char> {
        match self {
            ModerationsModel::TextModerationStable => "text-moderation-stable"@,
            ModerationsModel::TextModerationLatest => "text-moderation-latest"@,
        }
    }

    /// The name the API knows the model by, as it is written in a request body.
    pub fn name(&self) -> (r: &'static str)
        ensures
            r@ == self.name_spec(),
    {
        match self {
            ModerationsModel::TextModerationStable => "text-moderation-stable",
            ModerationsModel::TextModerationLatest => "text-moderation-latest",
        }
    }
}

/// A request to classify texts.
#[derive(Debug)]
pub struct Moderations {
    /// The input texts to classify
    pub input: Vec<String>,
    /// The model to use; left out of the body when unset, in which case the
    /// API picks `text-moderation-latest`.
    pub model: Option<ModerationsModel>,
}

impl Request for Moderations {
    open spec fn method_spec(&self) -> Method {
        Method::POST
    }

    open spec fn endpoint_spec(&self) -> Seq<char> {
        "moderations"@
    }

    fn method(&self) -> (r: Method) {
        Method::POST
    }

    open spec fn has_body_spec(&self) -> bool {
        true
    }

    fn has_body(&self) -> (r: bool) {
        true
    }

    fn endpoint(&self) -> (r: String) {
        String::from_str("moderations")
    }
}

/// The categories that the model classifies content into, one value each.
#[derive(Clone, Copy, Debug)]
pub struct Categories<T> {
    pub hate: T,
    pub hate_threatening: T,
    pub self_harm: T,
    pub sexual: T,
    pub sexual_minors: T,
    pub violence: T,
    pub violence_graphic: T,
}

/// The classification of one input text.
#[derive(Clone, Copy, Debug)]
pub struct ModerationsResult {
    /// each field holds a 1 if that category was flagged for moderation and a 0 otherwise
    pub categories: Categories<u8>,
    /// per-category raw scores between 0 and 1, where higher values denote
    /// higher confidence that the input violates the policy for the category
    pub category_scores: Categories<Fp64>,
    /// this will be a 1 if *any* category was flagged for moderation and a 0 otherwise
    pub flagged: u8,
}

/// The answer to [`Moderations`].
#[derive(Debug)]
pub struct ModerationsResponse {
    /// an arbitrary ID identifying this moderation
    pub id: String,
    /// The name of the text model used to generate this moderation
    pub model: String,
    pub results: Vec<ModerationsResult>,
}

} // verus!
