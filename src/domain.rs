//! Provider-neutral entities, and the native shapes of the issue backend.
pub mod issue;
pub mod label;
pub mod project;
pub mod ticket;
pub mod user;
pub mod workspace;

pub use issue::{
    CreateIssueRequest, Issue, IssueFilter, IssuePriority, IssueState, IssueStateType,
    UpdateIssueRequest,
};
pub use label::{CreateLabelRequest, Label};
pub use project::{Project, ProjectMilestone, ProjectState};
pub use ticket::{
    CreateTicketRequest, Priority, State, StateType, Ticket, TicketFilter, UpdateTicketRequest,
};
pub use workspace::Workspace;
