//! The issue backend's native record and requests.
use crate::json::Number;
use crate::time::Timestamp;
use vstd::prelude::*;

verus! {

#[derive(Debug, Clone, PartialEq)]
pub struct Issue {
    pub id: String,
    pub identifier: String,
    pub title: String,
    pub description: Option<String>,
    pub priority: IssuePriority,
    pub state: IssueState,
    pub assignee_id: Option<String>,
    pub creator_id: String,
    pub project_id: Option<String>,
    pub labels: Vec<String>,
    pub created_at: Timestamp,
    pub updated_at: Timestamp,
    pub due_date: Option<Timestamp>,
    pub estimate: Option<Number>,
    pub url: String,
}

#[derive(Debug, Clone, PartialEq)]
pub struct IssueState {
    pub id: String,
    pub name: String,
    pub type_: IssueStateType,
    pub position: Number,
}

#[derive(Debug, Clone, Copy, PartialEq, Eq, Structural)]
pub enum IssueStateType {
    Unstarted,
    Started,
    Completed,
    Canceled,
}

/// The backend's priorities; on the wire they are the numbers 0 to 4 in this
/// order.
#[derive(Debug, Clone, Copy, PartialEq, Eq, Structural)]
pub enum IssuePriority {
    NoPriority,
    Urgent,
    High,
    Medium,
    Low,
}

#[derive(Debug, Clone, PartialEq)]
pub struct IssueFilter {
    pub assignee_id: Option<String>,
    pub project_id: Option<String>,
    pub state_type: Option<IssueStateType>,
    pub priority: Option<IssuePriority>,
    pub labels: Option<Vec<String>>,
    pub search_query: Option<String>,
}

#[derive(Debug, Clone, PartialEq)]
pub struct CreateIssueRequest {
    pub title: String,
    pub description: Option<String>,
    pub priority: Option<IssuePriority>,
    pub assignee_id: Option<String>,
    pub team_id: Option<String>,
    pub project_id: Option<String>,
    pub label_ids: Option<Vec<String>>,
    pub due_date: Option<Timestamp>,
    pub estimate: Option<Number>,
}

#[derive(Debug, Clone, PartialEq)]
pub struct UpdateIssueRequest {
    pub id: String,
    pub title: Option<String>,
    pub description: Option<String>,
    pub priority: Option<IssuePriority>,
    pub assignee_id: Option<String>,
    pub state_id: Option<String>,
    pub label_ids: Option<Vec<String>>,
    pub due_date: Option<Timestamp>,
    pub estimate: Option<Number>,
}

} // verus!
