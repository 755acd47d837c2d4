//! The core of an inference gateway: the provider-agnostic data model, the
//! Vertex Gemini adapter, deterministic variant sampling and the
//! batch-inference workflow, each with a machine-checked contract.

pub mod clock;
pub mod endpoints;
pub mod error;
pub mod function;
pub mod inference;
pub mod json;
pub mod text;
pub mod uuid_util;
