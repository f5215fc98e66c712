//! Provider-neutral ticket tracking behind a tool-invocation protocol, with an
//! adapter for a GraphQL issue-tracking backend.
pub mod json;
pub mod time;
pub mod error;
pub mod domain;
pub mod linear;
pub mod ports;
pub mod application;
pub mod server;
