//! The decision core of a feature-flag client facade.
//!
//! The evaluation engine itself is an outside collaborator that the host
//! drives. This crate decides what is asked of the engine and turns what the
//! engine answers into the stable shapes that callers see: it resolves client
//! options into an engine configuration, checks requests before they are
//! forwarded, normalises single and batch answers, and maps engine
//! errors.
pub mod batch;
pub mod client;
pub mod config;
pub mod engine;
pub mod error;
pub mod json;
pub mod request;
pub mod response;
pub mod time;

pub use crate::batch::{BatchEvaluationResponse, EvaluationResponse};
pub use crate::client::{EngineCall, EngineStart, FliptClient};
pub use crate::config::{ClientOptions, EngineConfiguration};
pub use crate::error::FliptError;
pub use crate::request::EvaluationRequest;
pub use crate::response::{
    BooleanEvaluationResponse, ErrorEvaluationResponse, Flag, VariantEvaluationResponse,
};
