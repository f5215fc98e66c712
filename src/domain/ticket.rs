//! The provider-neutral ticket and the requests that query or change it.
use crate::json::{Json, Number};
use crate::time::Timestamp;
use vstd::prelude::*;

verus! {

/// A unit of trackable work, as any backend presents it.
#[derive(Debug, PartialEq)]
pub struct Ticket {
    pub id: String,
    pub identifier: String,
    pub title: String,
    pub description: Option<String>,
    pub priority: Priority,
    pub state: State,
    pub assignee_id: Option<String>,
    pub creator_id: String,
    pub project_id: Option<String>,
    pub labels: Vec<String>,
    pub created_at: Timestamp,
    pub updated_at: Timestamp,
    pub due_date: Option<Timestamp>,
    pub estimate: Option<Number>,
    pub url: String,
    /// Provider-specific data, keyed by name (no key twice); never one of the
    /// fields above.
    pub custom_fields: Vec<(String, Json)>,
}

/// A workflow state. `position` orders states within one backend only.
#[derive(Debug, Clone, PartialEq)]
pub struct State {
    pub id: String,
    pub name: String,
    pub type_: StateType,
    pub position: Number,
}

/// The classification of a state; `Custom` keeps a name no other variant fits.
#[derive(Debug, Clone, PartialEq, Eq)]
pub enum StateType {
    Open,
    InProgress,
    Closed,
    Cancelled,
    Custom(String),
}

/// A priority; `NoPriority` is the absence of one, and `Custom` keeps a name
/// no other variant fits.
#[derive(Debug, Clone, PartialEq, Eq)]
pub enum Priority {
    NoPriority,
    Lowest,
    Low,
    Medium,
    High,
    Highest,
    Custom(String),
}

/// Constraints on a ticket search; a field left unset constrains nothing.
#[derive(Debug, PartialEq)]
pub struct TicketFilter {
    pub assignee_id: Option<String>,
    pub project_id: Option<String>,
    pub state_type: Option<StateType>,
    pub priority: Option<Priority>,
    pub labels: Option<Vec<String>>,
    pub search_query: Option<String>,
    /// Provider-specific predicates, keyed by name (no key twice).
    pub custom_filters: Vec<(String, Json)>,
}

#[derive(Debug, PartialEq)]
pub struct CreateTicketRequest {
    pub title: String,
    pub description: Option<String>,
    pub priority: Option<Priority>,
    pub assignee_id: Option<String>,
    pub team_id: Option<String>,
    pub project_id: Option<String>,
    pub label_ids: Option<Vec<String>>,
    pub due_date: Option<Timestamp>,
    pub estimate: Option<Number>,
    pub custom_fields: Option<Vec<(String, Json)>>,
}

/// A partial update: only the fields that are present change.
#[derive(Debug, PartialEq)]
pub struct UpdateTicketRequest {
    pub id: String,
    pub title: Option<String>,
    pub description: Option<String>,
    pub priority: Option<Priority>,
    pub assignee_id: Option<String>,
    pub state_id: Option<String>,
    pub label_ids: Option<Vec<String>>,
    pub due_date: Option<Timestamp>,
    pub estimate: Option<Number>,
    pub custom_fields: Option<Vec<(String, Json)>>,
}

} // verus!
