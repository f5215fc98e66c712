//! Provider-neutral users, teams and workspaces.
use crate::json::Json;
use vstd::prelude::*;

verus! {

#[derive(Debug, PartialEq)]
pub struct User {
    pub id: String,
    pub name: String,
    pub email: String,
    pub avatar_url: Option<String>,
    pub display_name: String,
    pub active: bool,
    /// Provider-specific data, keyed by name (no key twice).
    pub custom_fields: Vec<(String, Json)>,
}

/// A team; `key` is unique within its workspace.
#[derive(Debug, PartialEq)]
pub struct Team {
    pub id: String,
    pub name: String,
    pub key: String,
    pub description: Option<String>,
    pub members: Vec<User>,
    /// Provider-specific data, keyed by name (no key twice).
    pub custom_fields: Vec<(String, Json)>,
}

#[derive(Debug, PartialEq)]
pub struct Workspace {
    pub id: String,
    pub name: String,
    pub description: Option<String>,
    pub url: String,
    pub teams: Vec<Team>,
    /// Provider-specific data, keyed by name (no key twice).
    pub custom_fields: Vec<(String, Json)>,
}

} // verus!
