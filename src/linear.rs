//! The adapter for the GraphQL issue-tracking backend: its wire documents and
//! response readers, and the mapping between its native records and the
//! provider-neutral domain.
pub mod adapter;
pub mod client;
