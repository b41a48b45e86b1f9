//! The API's endpoints: one request type per endpoint, with the shape of its
//! response.

pub mod create_completion;
pub mod list_engines;
pub mod moderation;

pub use list_engines::{Engine, ListEngines, ListEnginesResponse};
pub use create_completion::{
    BodyField, Choice, CreateCompletion, CreateCompletionBuilder, CreateCompletionResponse,
    LogProbs, NullableOneOrMany, Prompt, Stop,
};
pub use moderation::{
    Categories, Moderations, ModerationsModel, ModerationsResponse, ModerationsResult,
};
