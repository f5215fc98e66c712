//! The backend's native user and team records.
use vstd::prelude::*;

verus! {

#[derive(Debug, Clone, PartialEq)]
pub struct User {
    pub id: String,
    pub name: String,
    pub email: String,
    pub avatar_url: Option<String>,
    pub display_name: String,
    pub active: bool,
}

#[derive(Debug, Clone, PartialEq)]
pub struct Team {
    pub id: String,
    pub name: String,
    pub key: String,
    pub description: Option<String>,
    pub members: Vec<User>,
}

} // verus!
