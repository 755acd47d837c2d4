//! One adapter for each provider that the gateway can call.

pub mod gcp_vertex;
