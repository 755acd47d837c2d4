//! What the gateway decides at each of its endpoints.

pub mod batch_inference;
pub mod inference;
