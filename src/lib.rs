//! A client for a service registry: the requests that register, accept,
//! disable, discover and subscribe to services, with the credential rules
//! that govern them, and the classification of the registry's replies.

pub mod client;
pub mod laws;
pub mod service;
pub mod wire;

pub use client::TellmeClient;
pub use service::Service;
pub use wire::{check_status, ClientError, Method, Request};
