//! Projects and their milestones.
use crate::json::Number;
use crate::time::Timestamp;
use vstd::prelude::*;

verus! {

/// A project; `progress` is a ratio in [0, 1].
#[derive(Debug, Clone, PartialEq)]
pub struct Project {
    pub id: String,
    pub name: String,
    pub description: Option<String>,
    pub key: String,
    pub state: ProjectState,
    pub target_date: Option<Timestamp>,
    pub lead_id: Option<String>,
    pub created_at: Timestamp,
    pub updated_at: Timestamp,
    pub progress: Number,
}

#[derive(Debug, Clone, Copy, PartialEq, Eq, Structural)]
pub enum ProjectState {
    Planned,
    Started,
    Completed,
    Canceled,
    Paused,
}

#[derive(Debug, Clone, PartialEq)]
pub struct ProjectMilestone {
    pub id: String,
    pub name: String,
    pub description: Option<String>,
    pub target_date: Option<Timestamp>,
    pub project_id: String,
}

} // verus!
