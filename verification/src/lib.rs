//! A small static-content HTTP server library: request parsing, virtual-host
//! selection, policy checks, resource resolution and response framing, with
//! machine-checked contracts on every step.

pub mod config;
pub mod headers;
pub mod listing;
pub mod paths;
pub mod pipeline;
pub mod request;
pub mod response;
pub mod text;
pub mod vhost;
