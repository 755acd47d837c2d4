//! The provider-agnostic model of an inference and the adapters that speak
//! to providers.

pub mod providers;
pub mod types;
