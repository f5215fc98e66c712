//! Mapping between the backend's native records and the provider-neutral
//! domain.
use crate::domain::issue::{
    CreateIssueRequest, Issue, IssueFilter, IssuePriority, IssueState, IssueStateType,
    UpdateIssueRequest,
};
use crate::domain::ticket::{
    CreateTicketRequest, Priority, State, StateType, Ticket, TicketFilter, UpdateTicketRequest,
};
use crate::domain::workspace::{Team, User, Workspace};
use crate::error::ServiceError;
use crate::json::{
    copy_opt_text, copy_opt_texts, keys_unique, member, same_text, text_of, unsigned_of, Json, Number,
};
use crate::linear::client::{
    is_decode_error, issue_failure, issue_reads, priority_from, priority_wire,
    read_issue, state_type_from,
};
use crate::ports::ProviderConfig;
use vstd::prelude::*;

verus! {

/// The generic priority of a native one.
pub open spec fn generic_priority(p: IssuePriority) -> Priority {
    match p {
        IssuePriority::NoPriority => Priority::NoPriority,
        IssuePriority::Urgent => Priority::Highest,
        IssuePriority::High => Priority::High,
        IssuePriority::Medium => Priority::Medium,
        IssuePriority::Low => Priority::Low,
    }
}

/// The native priority nearest to a generic one; a custom priority becomes
/// medium.
pub open spec fn native_priority(p: Priority) -> IssuePriority {
    match p {
        Priority::NoPriority => IssuePriority::NoPriority,
        Priority::Lowest => IssuePriority::Low,
        Priority::Low => IssuePriority::Low,
        Priority::Medium => IssuePriority::Medium,
        Priority::High => IssuePriority::High,
        Priority::Highest => IssuePriority::Urgent,
        Priority::Custom(_) => IssuePriority::Medium,
    }
}

/// The generic classification of a native state type.
pub open spec fn generic_state_type(t: IssueStateType) -> StateType {
    match t {
        IssueStateType::Unstarted => StateType::Open,
        IssueStateType::Started => StateType::InProgress,
        IssueStateType::Completed => StateType::Closed,
        IssueStateType::Canceled => StateType::Cancelled,
    }
}

/// The native state type nearest to a generic one; a custom state becomes
/// unstarted.
pub open spec fn native_state_type(t: StateType) -> IssueStateType {
    match t {
        StateType::Open => IssueStateType::Unstarted,
        StateType::InProgress => IssueStateType::Started,
        StateType::Closed => IssueStateType::Completed,
        StateType::Cancelled => IssueStateType::Canceled,
        StateType::Custom(_) => IssueStateType::Unstarted,
    }
}

pub fn map_issue_priority_to_priority(priority: IssuePriority) -> (r: Priority)
    ensures
        r == generic_priority(priority),
{
    match priority {
        IssuePriority::NoPriority => Priority::NoPriority,
        IssuePriority::Urgent => Priority::Highest,
        IssuePriority::High => Priority::High,
        IssuePriority::Medium => Priority::Medium,
        IssuePriority::Low => Priority::Low,
    }
}

pub fn map_priority_to_issue_priority(priority: &Priority) -> (r: IssuePriority)
    ensures
        r == native_priority(*priority),
{
    match priority {
        Priority::NoPriority => IssuePriority::NoPriority,
        Priority::Lowest => IssuePriority::Low,
        Priority::Low => IssuePriority::Low,
        Priority::Medium => IssuePriority::Medium,
        Priority::High => IssuePriority::High,
        Priority::Highest => IssuePriority::Urgent,
        Priority::Custom(_) => IssuePriority::Medium,
    }
}

pub fn map_issue_state_type_to_state_type(state_type: IssueStateType) -> (r: StateType)
    ensures
        r == generic_state_type(state_type),
{
    match state_type {
        IssueStateType::Unstarted => StateType::Open,
        IssueStateType::Started => StateType::InProgress,
        IssueStateType::Completed => StateType::Closed,
        IssueStateType::Canceled => StateType::Cancelled,
    }
}

pub fn map_state_type_to_issue_state_type(state_type: &StateType) -> (r: IssueStateType)
    ensures
        r == native_state_type(*state_type),
{
    match state_type {
        StateType::Open => IssueStateType::Unstarted,
        StateType::InProgress => IssueStateType::Started,
        StateType::Closed => IssueStateType::Completed,
        StateType::Cancelled => IssueStateType::Canceled,
        StateType::Custom(_) => IssueStateType::Unstarted,
    }
}

pub fn map_issue_state_to_state(state: IssueState) -> (r: State)
    ensures
        r.id == state.id,
        r.name == state.name,
        r.type_ == generic_state_type(state.type_),
        r.position == state.position,
{
    State {
        id: state.id,
        name: state.name,
        type_: map_issue_state_type_to_state_type(state.type_),
        position: state.position,
    }
}

/// `t` is the generic form of `issue`: every shared field is carried over,
/// priority and state type are mapped, and no custom field is added.
pub open spec fn ticket_mirrors(t: Ticket, issue: Issue) -> bool {
    &&& t.id == issue.id
    &&& t.identifier == issue.identifier
    &&& t.title == issue.title
    &&& t.description == issue.description
    &&& t.priority == generic_priority(issue.priority)
    &&& t.state.id == issue.state.id
    &&& t.state.name == issue.state.name
    &&& t.state.type_ == generic_state_type(issue.state.type_)
    &&& t.state.position == issue.state.position
    &&& t.assignee_id == issue.assignee_id
    &&& t.creator_id == issue.creator_id
    &&& t.project_id == issue.project_id
    &&& t.labels == issue.labels
    &&& t.created_at == issue.created_at
    &&& t.updated_at == issue.updated_at
    &&& t.due_date == issue.due_date
    &&& t.estimate == issue.estimate
    &&& t.url == issue.url
    &&& t.custom_fields@.len() == 0
    &&& keys_unique(t.custom_fields@)
}

pub fn map_issue_to_ticket(issue: Issue) -> (t: Ticket)
    ensures
        ticket_mirrors(t, issue),
{
    Ticket {
        id: issue.id,
        identifier: issue.identifier,
        title: issue.title,
        description: issue.description,
        priority: map_issue_priority_to_priority(issue.priority),
        state: map_issue_state_to_state(issue.state),
        assignee_id: issue.assignee_id,
        creator_id: issue.creator_id,
        project_id: issue.project_id,
        labels: issue.labels,
        created_at: issue.created_at,
        updated_at: issue.updated_at,
        due_date: issue.due_date,
        estimate: issue.estimate,
        url: issue.url,
        custom_fields: Vec::new(),
    }
}

/// Maps each issue, keeping the order.
pub fn map_issues_to_tickets(issues: Vec<Issue>) -> (r: Vec<Ticket>)
    ensures
        r@.len() == issues@.len(),
        forall|i: int| 0 <= i < issues@.len() ==> ticket_mirrors(#[trigger] r@[i], issues@[i]),
{
    let mut tickets: Vec<Ticket> = Vec::new();
    for issue in it: issues.into_iter()
        invariant
            it.seq() == issues@,
            tickets@.len() == it.index(),
            forall|i: int| 0 <= i < it.index() ==> ticket_mirrors(#[trigger] tickets@[i], issues@[i]),
    {
        tickets.push(map_issue_to_ticket(issue));
    }
    tickets
}

/// `r` holds a ticket with an id and an identifier, the generic form of the
/// record `v`.
pub open spec fn found_ticket(r: Result<Option<Ticket>, ServiceError>, v: Json) -> bool {
    match r {
        Ok(Some(t)) => t.id@.len() > 0 && t.identifier@.len() > 0 && exists|issue: Issue|
            issue_reads(issue, v) && #[trigger] ticket_mirrors(t, issue),
        _ => false,
    }
}

/// The generic form of the answer to an issue query: absent when the
/// backend knows no such issue, a ticket with an id and an identifier when it
/// does, and never both a failure and a value.
pub fn ticket_from_issue_response(data: &Json) -> (r: Result<Option<Ticket>, ServiceError>)
    ensures
        member(*data, "issue"@) is Null ==> r matches Ok(None),
        !(member(*data, "issue"@) is Null) && issue_failure(member(*data, "issue"@)) is None
            ==> found_ticket(r, member(*data, "issue"@)),
        !(member(*data, "issue"@) is Null) && issue_failure(member(*data, "issue"@)) is Some
            ==> r is Err && is_decode_error(r->Err_0, issue_failure(member(*data, "issue"@))->0),
{
    match read_issue(data) {
        Ok(Some(issue)) => {
            let ghost read = issue;
            let t = map_issue_to_ticket(issue);
            assert(issue_reads(read, member(*data, "issue"@)) && ticket_mirrors(t, read));
            Ok(Some(t))
        },
        Ok(None) => Ok(None),
        Err(e) => Err(e),
    }
}

/// `f` carries every dimension of `filter` over, each mapped to its nearest
/// native equivalent.
pub open spec fn filter_mirrors(f: IssueFilter, filter: TicketFilter) -> bool {
    &&& f.assignee_id == filter.assignee_id
    &&& f.project_id == filter.project_id
    &&& f.state_type == match filter.state_type {
        Some(t) => Some(native_state_type(t)),
        None => None,
    }
    &&& f.priority == match filter.priority {
        Some(p) => Some(native_priority(p)),
        None => None,
    }
    &&& (f.labels is Some <==> filter.labels is Some)
    &&& (f.labels is Some ==> f.labels->0@ == filter.labels->0@)
    &&& f.search_query == filter.search_query
}

pub open spec fn is_unsupported_filter(e: ServiceError, dimension: Seq<char>) -> bool {
    match e {
        ServiceError::UnsupportedFilter { dimension: d } => d@ == dimension,
        _ => false,
    }
}

/// The native form of a ticket filter. The backend has no provider-specific
/// predicates, so a filter that holds any is refused, naming the first.
pub fn map_ticket_filter(filter: &TicketFilter) -> (r: Result<IssueFilter, ServiceError>)
    ensures
        r is Err <==> filter.custom_filters@.len() > 0,
        r is Err ==> is_unsupported_filter(r->Err_0, filter.custom_filters@[0].0@),
        r is Ok ==> filter_mirrors(r->Ok_0, *filter),
{
    if filter.custom_filters.len() > 0 {
        return Err(
            ServiceError::UnsupportedFilter { dimension: filter.custom_filters[0].0.clone() },
        );
    }
    Ok(
        IssueFilter {
            assignee_id: copy_opt_text(&filter.assignee_id),
            project_id: copy_opt_text(&filter.project_id),
            state_type: match &filter.state_type {
                Some(t) => Some(map_state_type_to_issue_state_type(t)),
                None => None,
            },
            priority: match &filter.priority {
                Some(p) => Some(map_priority_to_issue_priority(p)),
                None => None,
            },
            labels: copy_opt_texts(&filter.labels),
            search_query: copy_opt_text(&filter.search_query),
        },
    )
}

/// The native form of a creation request; provider-specific fields have no
/// native counterpart and are not carried.
pub fn map_create_request(request: &CreateTicketRequest) -> (r: CreateIssueRequest)
    ensures
        r.title == request.title,
        r.description == request.description,
        r.priority == match request.priority {
            Some(p) => Some(native_priority(p)),
            None => None,
        },
        r.assignee_id == request.assignee_id,
        r.team_id == request.team_id,
        r.project_id == request.project_id,
        r.label_ids is Some <==> request.label_ids is Some,
        r.label_ids is Some ==> r.label_ids->0@ == request.label_ids->0@,
        r.due_date == request.due_date,
        r.estimate == request.estimate,
{
    CreateIssueRequest {
        title: request.title.clone(),
        description: copy_opt_text(&request.description),
        priority: match &request.priority {
            Some(p) => Some(map_priority_to_issue_priority(p)),
            None => None,
        },
        assignee_id: copy_opt_text(&request.assignee_id),
        team_id: copy_opt_text(&request.team_id),
        project_id: copy_opt_text(&request.project_id),
        label_ids: copy_opt_texts(&request.label_ids),
        due_date: request.due_date,
        estimate: request.estimate,
    }
}

/// The native form of a partial update; absent fields stay absent.
pub fn map_update_request(request: &UpdateTicketRequest) -> (r: UpdateIssueRequest)
    ensures
        r.id == request.id,
        r.title == request.title,
        r.description == request.description,
        r.priority == match request.priority {
            Some(p) => Some(native_priority(p)),
            None => None,
        },
        r.assignee_id == request.assignee_id,
        r.state_id == request.state_id,
        r.label_ids is Some <==> request.label_ids is Some,
        r.label_ids is Some ==> r.label_ids->0@ == request.label_ids->0@,
        r.due_date == request.due_date,
        r.estimate == request.estimate,
{
    UpdateIssueRequest {
        id: request.id.clone(),
        title: copy_opt_text(&request.title),
        description: copy_opt_text(&request.description),
        priority: match &request.priority {
            Some(p) => Some(map_priority_to_issue_priority(p)),
            None => None,
        },
        assignee_id: copy_opt_text(&request.assignee_id),
        state_id: copy_opt_text(&request.state_id),
        label_ids: copy_opt_texts(&request.label_ids),
        due_date: request.due_date,
        estimate: request.estimate,
    }
}

/// The workspace the backend lacks, made from the current user and the teams.
pub fn synthesize_workspace(user: &User, teams: Vec<Team>) -> (w: Workspace)
    ensures
        w.id@ == "linear-workspace"@,
        w.name@ == user.name@ + "'s Linear Workspace"@,
        opt_text_is(w.description, "Linear workspace"@),
        w.url@ == "https://linear.app"@,
        w.teams == teams,
        w.custom_fields@.len() == 0,
        keys_unique(w.custom_fields@),
{
    let mut name = user.name.clone();
    name.append("'s Linear Workspace");
    Workspace {
        id: "linear-workspace".to_owned(),
        name,
        description: Some("Linear workspace".to_owned()),
        url: "https://linear.app".to_owned(),
        teams,
        custom_fields: Vec::new(),
    }
}

pub open spec fn opt_text_is(o: Option<String>, text: Seq<char>) -> bool {
    o matches Some(s) && s@ == text
}

/// Accepts a configuration only when it names this backend.
pub fn check_provider(config: &ProviderConfig) -> (r: Result<(), ServiceError>)
    ensures
        r is Ok <==> config.provider_type@ == "linear"@,
        r is Err ==> (r->Err_0 matches ServiceError::InvalidValue { field, value } && field@
            == "provider_type"@ && value@ == config.provider_type@),
{
    if same_text(&config.provider_type, "linear") {
        Ok(())
    } else {
        Err(
            ServiceError::InvalidValue {
                field: "provider_type".to_owned(),
                value: config.provider_type.clone(),
            },
        )
    }
}

/// Mapping a native record to a ticket loses nothing the two share: the
/// fields carry over unchanged, and the priority and state type map back to
/// the native values they came from.
pub proof fn lemma_issue_ticket_round_trip(issue: Issue, t: Ticket)
    requires
        ticket_mirrors(t, issue),
    ensures
        native_priority(t.priority) == issue.priority,
        native_state_type(t.state.type_) == issue.state.type_,
        t.id == issue.id && t.identifier == issue.identifier && t.title == issue.title,
        t.description == issue.description && t.url == issue.url,
        t.state.id == issue.state.id && t.state.name == issue.state.name,
        t.state.position == issue.state.position,
        t.assignee_id == issue.assignee_id && t.creator_id == issue.creator_id,
        t.project_id == issue.project_id && t.labels == issue.labels,
        t.created_at == issue.created_at && t.updated_at == issue.updated_at,
        t.due_date == issue.due_date && t.estimate == issue.estimate,
{
}

/// Every native priority and state type maps to a generic value and back to
/// itself.
pub proof fn lemma_native_enum_round_trip(p: IssuePriority, s: IssueStateType)
    ensures
        native_priority(generic_priority(p)) == p,
        native_state_type(generic_state_type(s)) == s,
{
}

/// Reading a wire priority is total: the numbers 1 to 4 give their own
/// level, and every other value (0, a larger number, a non-number, an absent
/// member) gives the documented default, no priority. Each native priority's
/// wire number reads back as that priority.
pub proof fn lemma_wire_priority_total(v: Json, p: IssuePriority)
    ensures
        unsigned_of(v) == Some(1u64) ==> generic_priority(priority_from(v)) == Priority::Highest,
        unsigned_of(v) == Some(2u64) ==> generic_priority(priority_from(v)) == Priority::High,
        unsigned_of(v) == Some(3u64) ==> generic_priority(priority_from(v)) == Priority::Medium,
        unsigned_of(v) == Some(4u64) ==> generic_priority(priority_from(v)) == Priority::Low,
        !(unsigned_of(v) matches Some(n) && 1 <= n <= 4) ==> generic_priority(priority_from(v))
            == Priority::NoPriority,
        priority_from(Json::Number(Number::Unsigned(priority_wire(p)))) == p,
{
}

/// Reading a wire state type is total: the four native names give their
/// classification, and every other value gives the documented default, open.
pub proof fn lemma_wire_state_type_total(v: Json)
    ensures
        text_of(v) == Some("started"@) ==> generic_state_type(state_type_from(v))
            == StateType::InProgress,
        text_of(v) == Some("completed"@) ==> generic_state_type(state_type_from(v))
            == StateType::Closed,
        text_of(v) == Some("canceled"@) ==> generic_state_type(state_type_from(v))
            == StateType::Cancelled,
        !(text_of(v) == Some("started"@) || text_of(v) == Some("completed"@) || text_of(v) == Some(
            "canceled"@,
        )) ==> generic_state_type(state_type_from(v)) == StateType::Open,
{
    reveal_strlit("started");
    reveal_strlit("completed");
    reveal_strlit("canceled");
    assert("started"@.len() == 7 && "completed"@.len() == 9 && "canceled"@.len() == 8);
}

} // verus!
