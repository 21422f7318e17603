//! Pseudocode analysis with a locally running language model.
//!
//! The crate builds the request for the model's endpoint, decodes the reply into
//! a function name, a description and a list of variable renames, and applies
//! the renames to the pseudocode as whole-word substitutions.

pub mod analysis;
pub mod description;
pub mod json;
pub mod ollama;
pub mod oneiromancer;
pub mod rewrite;

pub use crate::oneiromancer::{
    OneiromancerConfig, OneiromancerError, OneiromancerResults, Variable, OLLAMA_BASEURL,
    OLLAMA_MODEL,
};
