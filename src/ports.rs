//! The shapes exchanged at the library's edges: provider configuration and
//! the protocol's tool and resource descriptions.
use crate::json::Json;
use vstd::prelude::*;

verus! {

/// A named, schema-described operation offered through the protocol.
#[derive(Debug, PartialEq)]
pub struct McpTool {
    pub name: String,
    pub description: String,
    pub input_schema: Json,
}

/// A URI-addressable, read-only projection offered through the protocol.
#[derive(Debug, Clone, PartialEq)]
pub struct McpResource {
    pub uri: String,
    pub name: String,
    pub description: Option<String>,
    pub mime_type: Option<String>,
}

/// Which backend to use, and how to reach it.
#[derive(Debug, Clone, PartialEq)]
pub struct ProviderConfig {
    pub provider_type: String,
    pub api_token: String,
    pub base_url: Option<String>,
    pub workspace_id: Option<String>,
}

} // verus!
