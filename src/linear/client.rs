//! The backend's GraphQL documents, and readers that turn its responses into
//! native records.
use crate::domain::issue::{
    CreateIssueRequest, Issue, IssuePriority, IssueState, IssueStateType, UpdateIssueRequest,
};
use crate::domain::workspace::{Team, User};
use crate::error::{ServiceError, UpstreamError};
use crate::json::{
    bool_of, entry_value, items_of, keys_unique, json_str, lookup, member, number_of, opt_view, put_entry,
    same_text, text_of, text_or_empty, unsigned_of, Json, Number,
};
use crate::time::{
    calendar_instant, date_text_of, epoch, instant_of, read_calendar_date, read_instant,
    write_date, Timestamp,
};
use vstd::prelude::*;

verus! {

/// The issues assigned to a user, with every field an issue record is read
/// from.
pub const ASSIGNED_ISSUES_QUERY: &'static str = "
    query GetAssignedIssues($userId: String!) {
        user(id: $userId) {
            assignedIssues {
                nodes {
                    id identifier title description priority url
                    createdAt updatedAt dueDate estimate
                    state { id name type position }
                    assignee { id name }
                    creator { id name }
                    project { id name }
                    labels { nodes { id name } }
                }
            }
        }
    }";

pub const ISSUE_QUERY: &'static str = "
    query GetIssue($id: String!) {
        issue(id: $id) {
            id identifier title description priority url
            createdAt updatedAt dueDate estimate
            state { id name type position }
            assignee { id name }
            creator { id name }
            project { id name }
            labels { nodes { id name } }
        }
    }";

pub const CREATE_ISSUE_MUTATION: &'static str = "
    mutation CreateIssue($title: String!, $description: String, $priority: Int,
            $assigneeId: String, $teamId: String!, $projectId: String, $labelIds: [String!],
            $dueDate: TimelessDate, $estimate: Int) {
        issueCreate(input: {
            title: $title
            description: $description
            priority: $priority
            assigneeId: $assigneeId
            teamId: $teamId
            projectId: $projectId
            labelIds: $labelIds
            dueDate: $dueDate
            estimate: $estimate
        }) {
            success
            issue {
                id identifier title description priority url
                createdAt updatedAt dueDate estimate
                state { id name type position }
                assignee { id name }
                creator { id name }
                project { id name }
                labels { nodes { id name } }
            }
        }
    }";

pub const UPDATE_ISSUE_MUTATION: &'static str = "
    mutation UpdateIssue($id: String!, $input: IssueUpdateInput!) {
        issueUpdate(id: $id, input: $input) {
            success
            issue {
                id identifier title description priority url
                createdAt updatedAt dueDate estimate
                state { id name type position }
                assignee { id name }
                creator { id name }
                project { id name }
                labels { nodes { id name } }
            }
        }
    }";

pub const CURRENT_USER_QUERY: &'static str = "
    query GetCurrentUser {
        viewer { id name email avatarUrl displayName active }
    }";

pub const TEAMS_QUERY: &'static str = "
    query GetTeams {
        teams { nodes { id name key description } }
    }";

/// A GraphQL document and its variables, ready for the transport.
#[derive(Debug, PartialEq)]
pub struct GraphqlRequest {
    pub query: &'static str,
    pub variables: Option<Json>,
}

impl GraphqlRequest {
    /// The JSON body that carries this request: `{"query": .., "variables": ..}`,
    /// without `variables` when there are none.
    pub fn into_body(self) -> (r: Json)
        ensures
            r is Object,
            text_of(member(r, "query"@)) == Some(self.query@),
            lookup(r, "variables"@) == self.variables,
    {
        proof {
            reveal_strlit("query");
            reveal_strlit("variables");
            assert("query"@.len() == 5 && "variables"@.len() == 9);
        }
        let mut entries: Vec<(String, Json)> = Vec::new();
        assert(entry_value(entries@, "variables"@) is None);
        put_entry(&mut entries, "query", json_str(self.query));
        match self.variables {
            Some(v) => put_entry(&mut entries, "variables", v),
            None => {},
        }
        Json::Object(entries)
    }
}

/// Whether an HTTP status reports success.
pub open spec fn is_success(status: u16) -> bool {
    200 <= status <= 299
}

/// What the transport's answer means: a failure status, an undecodable body
/// or reported GraphQL errors fail; otherwise the `data` member is the
/// answer (`null` when absent).
pub open spec fn response_ok(status: u16, body: Option<Json>) -> bool {
    is_success(status) && body is Some && lookup(body->0, "errors"@) is None
}

/// Interprets the transport's answer to a request: the status, the raw body
/// text, and the body decoded as JSON when it could be.
pub fn read_graphql_response(status: u16, body_text: String, body: Option<Json>) -> (r: Result<
    Json,
    ServiceError,
>)
    ensures
        r is Ok <==> response_ok(status, body),
        r is Ok ==> r->Ok_0 == member(body->0, "data"@),
        !is_success(status) ==> r == Err::<Json, ServiceError>(
            ServiceError::Upstream(UpstreamError::Http { status, body: body_text }),
        ),
        is_success(status) && body is None ==> r is Err && is_decode_error(r->Err_0, "body"@),
        is_success(status) && body is Some && lookup(body->0, "errors"@) is Some ==> r
            == Err::<Json, ServiceError>(
            ServiceError::Upstream(UpstreamError::Graphql { errors: lookup(body->0, "errors"@)->0 }),
        ),
{
    if status < 200 || status > 299 {
        return Err(ServiceError::Upstream(UpstreamError::Http { status, body: body_text }));
    }
    match body {
        None => Err(decode_error("body")),
        Some(b) => {
            if b.get("errors").is_some() {
                let errors = b.into_member("errors");
                Err(ServiceError::Upstream(UpstreamError::Graphql { errors }))
            } else {
                Ok(b.into_member("data"))
            }
        },
    }
}

/// The views of a sequence of strings.
pub open spec fn views(v: Seq<String>) -> Seq<Seq<char>> {
    v.map_values(|s: String| s@)
}

/// Whether `e` is a decode failure naming `field`.
pub open spec fn is_decode_error(e: ServiceError, field: Seq<char>) -> bool {
    match e {
        ServiceError::Decode { field: f } => f@ == field,
        _ => false,
    }
}

/// The native priority a wire value denotes; anything but 0 to 4 reads as
/// no priority.
pub open spec fn priority_from(v: Json) -> IssuePriority {
    match unsigned_of(v) {
        Some(n) => if n == 1 {
            IssuePriority::Urgent
        } else if n == 2 {
            IssuePriority::High
        } else if n == 3 {
            IssuePriority::Medium
        } else if n == 4 {
            IssuePriority::Low
        } else {
            IssuePriority::NoPriority
        },
        None => IssuePriority::NoPriority,
    }
}

/// The native state type a wire value denotes; an unknown name reads as
/// unstarted.
pub open spec fn state_type_from(v: Json) -> IssueStateType {
    match text_of(v) {
        Some(t) => if t == "started"@ {
            IssueStateType::Started
        } else if t == "completed"@ {
            IssueStateType::Completed
        } else if t == "canceled"@ {
            IssueStateType::Canceled
        } else {
            IssueStateType::Unstarted
        },
        None => IssueStateType::Unstarted,
    }
}

/// A mandatory instant: the epoch when absent (or not a string), `None`
/// when present but malformed.
pub open spec fn stamp_from(v: Json) -> Option<Timestamp> {
    match text_of(v) {
        Some(t) => instant_of(t),
        None => Some(epoch()),
    }
}

/// A due date: `Some(None)` when absent (or not a string), the instant a
/// `YYYY-MM-DD` calendar date (midnight UTC) or an RFC 3339 text names, and
/// `None` when the text is neither.
pub open spec fn due_date_from(v: Json) -> Option<Option<Timestamp>> {
    match text_of(v) {
        Some(t) => match calendar_instant(t) {
            Some(x) => Some(Some(x)),
            None => match instant_of(t) {
                Some(x) => Some(Some(x)),
                None => None,
            },
        },
        None => Some(None),
    }
}

/// The names of the label nodes that have one, in order.
pub open spec fn label_names_in(nodes: Seq<Json>) -> Seq<Seq<char>> {
    nodes.filter_map(|n: Json| text_of(member(n, "name"@)))
}

pub open spec fn label_names(v: Json) -> Seq<Seq<char>> {
    match items_of(v) {
        Some(nodes) => label_names_in(nodes),
        None => Seq::empty(),
    }
}

pub open spec fn number_or_zero(v: Json) -> Number {
    match number_of(v) {
        Some(n) => n,
        None => Number::Unsigned(0),
    }
}

/// The first field that keeps an issue record from being read, given what
/// its three instants read as (`None` for a malformed one): a missing id or
/// identifier, or a malformed instant.
pub open spec fn issue_failure_with(
    v: Json,
    created_at: Option<Timestamp>,
    updated_at: Option<Timestamp>,
    due_date: Option<Option<Timestamp>>,
) -> Option<Seq<char>> {
    if text_or_empty(member(v, "id"@)).len() == 0 {
        Some("id"@)
    } else if text_or_empty(member(v, "identifier"@)).len() == 0 {
        Some("identifier"@)
    } else if created_at is None {
        Some("createdAt"@)
    } else if updated_at is None {
        Some("updatedAt"@)
    } else if due_date is None {
        Some("dueDate"@)
    } else {
        None
    }
}

/// The first field that keeps the issue record `v` from being read.
pub open spec fn issue_failure(v: Json) -> Option<Seq<char>> {
    issue_failure_with(
        v,
        stamp_from(member(v, "createdAt"@)),
        stamp_from(member(v, "updatedAt"@)),
        due_date_from(member(v, "dueDate"@)),
    )
}

/// `issue` holds what the record `v` says apart from its instants, with
/// absent fields at their zero values.
pub open spec fn issue_fields(issue: Issue, v: Json) -> bool {
    let state = member(v, "state"@);
    &&& issue.id@ == text_or_empty(member(v, "id"@))
    &&& issue.identifier@ == text_or_empty(member(v, "identifier"@))
    &&& issue.title@ == text_or_empty(member(v, "title"@))
    &&& opt_view(issue.description) == text_of(member(v, "description"@))
    &&& issue.url@ == text_or_empty(member(v, "url"@))
    &&& issue.priority == priority_from(member(v, "priority"@))
    &&& issue.state.id@ == text_or_empty(member(state, "id"@))
    &&& issue.state.name@ == text_or_empty(member(state, "name"@))
    &&& issue.state.type_ == state_type_from(member(state, "type"@))
    &&& issue.state.position == number_or_zero(member(state, "position"@))
    &&& opt_view(issue.assignee_id) == text_of(member(member(v, "assignee"@), "id"@))
    &&& issue.creator_id@ == text_or_empty(member(member(v, "creator"@), "id"@))
    &&& opt_view(issue.project_id) == text_of(member(member(v, "project"@), "id"@))
    &&& views(issue.labels@) == label_names(member(member(v, "labels"@), "nodes"@))
    &&& issue.estimate == number_of(member(v, "estimate"@))
}

/// `issue` holds what the record `v` says, with absent fields at their zero
/// values.
pub open spec fn issue_reads(issue: Issue, v: Json) -> bool {
    &&& issue_fields(issue, v)
    &&& stamp_from(member(v, "createdAt"@)) == Some(issue.created_at)
    &&& stamp_from(member(v, "updatedAt"@)) == Some(issue.updated_at)
    &&& due_date_from(member(v, "dueDate"@)) == Some(issue.due_date)
}

/// A record with an id, an identifier and well-formed or absent instants is
/// always read, whatever its priority, state type and labels hold: these take
/// their mapped values or documented defaults. Empty label nodes give no
/// labels, and a null or absent due date gives none.
pub proof fn lemma_well_formed_records_are_read(v: Json)
    requires
        text_or_empty(member(v, "id"@)).len() > 0,
        text_or_empty(member(v, "identifier"@)).len() > 0,
        stamp_from(member(v, "createdAt"@)) is Some,
        stamp_from(member(v, "updatedAt"@)) is Some,
        due_date_from(member(v, "dueDate"@)) is Some,
    ensures
        issue_failure(v) is None,
        items_of(member(member(v, "labels"@), "nodes"@)) == Some(Seq::<Json>::empty()) ==> label_names(
            member(member(v, "labels"@), "nodes"@),
        ) == Seq::<Seq<char>>::empty(),
        member(v, "dueDate"@) is Null ==> due_date_from(member(v, "dueDate"@)) == Some(
            None::<Timestamp>,
        ),
{
    if items_of(member(member(v, "labels"@), "nodes"@)) == Some(Seq::<Json>::empty()) {
        assert(label_names_in(Seq::<Json>::empty()) =~= Seq::<Seq<char>>::empty());
    }
}

/// A decode failure naming `field`.
pub fn decode_error(field: &str) -> (e: ServiceError)
    ensures
        is_decode_error(e, field@),
{
    ServiceError::Decode { field: field.to_owned() }
}

/// The text of member `key`, if it is a string.
pub fn text_member(v: &Json, key: &str) -> (r: Option<String>)
    ensures
        opt_view(r) == text_of(member(*v, key@)),
{
    match v.get(key) {
        Some(x) => match x.as_str() {
            Some(s) => Some(s.clone()),
            None => None,
        },
        None => None,
    }
}

/// The text of member `key`, or the empty text.
pub fn text_member_or_empty(v: &Json, key: &str) -> (r: String)
    ensures
        r@ == text_or_empty(member(*v, key@)),
{
    match text_member(v, key) {
        Some(s) => s,
        None => String::new(),
    }
}

/// The text of member `key` of member `outer`, if it is a string.
pub fn nested_text(v: &Json, outer: &str, key: &str) -> (r: Option<String>)
    ensures
        opt_view(r) == text_of(member(member(*v, outer@), key@)),
{
    match v.get(outer) {
        Some(o) => text_member(o, key),
        None => None,
    }
}

fn read_number(v: &Json, key: &str) -> (r: Option<Number>)
    ensures
        r == number_of(member(*v, key@)),
{
    match v.get(key) {
        Some(Json::Number(n)) => Some(*n),
        _ => None,
    }
}

fn read_priority(v: &Json, key: &str) -> (r: IssuePriority)
    ensures
        r == priority_from(member(*v, key@)),
{
    match v.get(key) {
        Some(Json::Number(Number::Unsigned(n))) => {
            if *n == 1 {
                IssuePriority::Urgent
            } else if *n == 2 {
                IssuePriority::High
            } else if *n == 3 {
                IssuePriority::Medium
            } else if *n == 4 {
                IssuePriority::Low
            } else {
                IssuePriority::NoPriority
            }
        },
        _ => IssuePriority::NoPriority,
    }
}

fn read_state_type(v: &Json, key: &str) -> (r: IssueStateType)
    ensures
        r == state_type_from(member(*v, key@)),
{
    match text_member(v, key) {
        Some(t) => {
            if same_text(&t, "started") {
                IssueStateType::Started
            } else if same_text(&t, "completed") {
                IssueStateType::Completed
            } else if same_text(&t, "canceled") {
                IssueStateType::Canceled
            } else {
                IssueStateType::Unstarted
            }
        },
        None => IssueStateType::Unstarted,
    }
}

fn read_stamp(v: &Json, key: &str) -> (r: Option<Timestamp>)
    ensures
        r == stamp_from(member(*v, key@)),
{
    match text_member(v, key) {
        Some(t) => read_instant(t.as_str()),
        None => Some(Timestamp::epoch()),
    }
}

fn read_due_date(v: &Json, key: &str) -> (r: Option<Option<Timestamp>>)
    ensures
        r == due_date_from(member(*v, key@)),
{
    match text_member(v, key) {
        Some(t) => match read_calendar_date(t.as_str()) {
            Some(x) => Some(Some(x)),
            None => match read_instant(t.as_str()) {
                Some(x) => Some(Some(x)),
                None => None,
            },
        },
        None => Some(None),
    }
}

/// The names of the label nodes under member `nodes` of `labels`.
fn read_label_names(labels: &Json) -> (r: Vec<String>)
    ensures
        views(r@) == label_names(member(*labels, "nodes"@)),
{
    let mut names: Vec<String> = Vec::new();
    match labels.get("nodes") {
        Some(Json::Array(nodes)) => {
            let mut i: usize = 0;
            while i < nodes.len()
                invariant
                    i <= nodes@.len(),
                    views(names@) == label_names_in(nodes@.subrange(0, i as int)),
                decreases nodes@.len() - i,
            {
                let name = text_member(&nodes[i], "name");
                proof {
                    assert(nodes@.subrange(0, i + 1).drop_last() =~= nodes@.subrange(0, i as int));
                }
                match name {
                    Some(n) => {
                        names.push(n);
                        assert(views(names@) =~= label_names_in(nodes@.subrange(0, i + 1)));
                    },
                    None => {},
                }
                i = i + 1;
            }
            assert(nodes@.subrange(0, nodes@.len() as int) =~= nodes@);
        },
        _ => {
            assert(views(names@) =~= Seq::<Seq<char>>::empty());
        },
    }
    names
}

/// Builds an issue from the record `issue_data` and what its three instants
/// read as (`None` for a malformed one). Absent fields take their zero
/// values; the record is refused when its id or identifier is missing or an
/// instant is malformed.
pub fn assemble_issue(
    issue_data: &Json,
    created_at: Option<Timestamp>,
    updated_at: Option<Timestamp>,
    due_date: Option<Option<Timestamp>>,
) -> (r: Result<Issue, ServiceError>)
    ensures
        match r {
            Ok(issue) => issue_failure_with(*issue_data, created_at, updated_at, due_date) is None
                && issue_fields(issue, *issue_data) && created_at == Some(issue.created_at)
                && updated_at == Some(issue.updated_at) && due_date == Some(issue.due_date),
            Err(e) => issue_failure_with(*issue_data, created_at, updated_at, due_date) is Some
                && is_decode_error(
                e,
                issue_failure_with(*issue_data, created_at, updated_at, due_date)->0,
            ),
        },
{
    let id = text_member_or_empty(issue_data, "id");
    if id.as_str().is_empty() {
        return Err(decode_error("id"));
    }
    let identifier = text_member_or_empty(issue_data, "identifier");
    if identifier.as_str().is_empty() {
        return Err(decode_error("identifier"));
    }
    let created_at = match created_at {
        Some(t) => t,
        None => return Err(decode_error("createdAt")),
    };
    let updated_at = match updated_at {
        Some(t) => t,
        None => return Err(decode_error("updatedAt")),
    };
    let due_date = match due_date {
        Some(d) => d,
        None => return Err(decode_error("dueDate")),
    };
    let title = text_member_or_empty(issue_data, "title");
    let description = text_member(issue_data, "description");
    let url = text_member_or_empty(issue_data, "url");
    let priority = read_priority(issue_data, "priority");
    let state = match issue_data.get("state") {
        Some(s) => IssueState {
            id: text_member_or_empty(s, "id"),
            name: text_member_or_empty(s, "name"),
            type_: read_state_type(s, "type"),
            position: match read_number(s, "position") {
                Some(n) => n,
                None => Number::Unsigned(0),
            },
        },
        None => IssueState {
            id: String::new(),
            name: String::new(),
            type_: IssueStateType::Unstarted,
            position: Number::Unsigned(0),
        },
    };
    let assignee_id = nested_text(issue_data, "assignee", "id");
    let creator_id = match nested_text(issue_data, "creator", "id") {
        Some(c) => c,
        None => String::new(),
    };
    let project_id = nested_text(issue_data, "project", "id");
    let labels = match issue_data.get("labels") {
        Some(l) => read_label_names(l),
        None => Vec::new(),
    };
    let estimate = read_number(issue_data, "estimate");
    assert(views(labels@) == label_names(member(member(*issue_data, "labels"@), "nodes"@))) by {
        if lookup(*issue_data, "labels"@) is None {
            assert(views(labels@) =~= Seq::<Seq<char>>::empty());
        }
    }
    Ok(
        Issue {
            id,
            identifier,
            title,
            description,
            priority,
            state,
            assignee_id,
            creator_id,
            project_id,
            labels,
            created_at,
            updated_at,
            due_date,
            estimate,
            url,
        },
    )
}


/// Reads one issue record. Absent fields take their zero values; the record
/// is refused when its id or identifier is missing or when an instant is
/// present but malformed.
pub fn parse_issue(issue_data: &Json) -> (r: Result<Issue, ServiceError>)
    ensures
        match r {
            Ok(issue) => issue_failure(*issue_data) is None && issue_reads(issue, *issue_data),
            Err(e) => issue_failure(*issue_data) is Some && is_decode_error(
                e,
                issue_failure(*issue_data)->0,
            ),
        },
{
    let created_at = read_stamp(issue_data, "createdAt");
    let updated_at = read_stamp(issue_data, "updatedAt");
    let due_date = read_due_date(issue_data, "dueDate");
    assemble_issue(issue_data, created_at, updated_at, due_date)
}

/// Whether `r` is the outcome of reading the records `nodes` in order: all of
/// them, or the failure of the first one that cannot be read.
pub open spec fn records_read(r: Result<Vec<Issue>, ServiceError>, nodes: Seq<Json>) -> bool {
    match r {
        Ok(issues) => issues@.len() == nodes.len() && forall|i: int|
            0 <= i < nodes.len() ==> issue_failure(#[trigger] nodes[i]) is None && issue_reads(
                issues@[i],
                nodes[i],
            ),
        Err(e) => exists|k: int|
            0 <= k < nodes.len() && #[trigger] issue_failure(nodes[k]) is Some && is_decode_error(
                e,
                issue_failure(nodes[k])->0,
            ) && forall|j: int| 0 <= j < k ==> issue_failure(#[trigger] nodes[j]) is None,
    }
}

/// Reads a list of issue records, stopping at the first that cannot be read.
pub fn read_issue_list(nodes: &Vec<Json>) -> (r: Result<Vec<Issue>, ServiceError>)
    ensures
        records_read(r, nodes@),
{
    let mut issues: Vec<Issue> = Vec::new();
    let mut i: usize = 0;
    while i < nodes.len()
        invariant
            i <= nodes@.len(),
            issues@.len() == i,
            forall|j: int|
                0 <= j < i ==> issue_failure(#[trigger] nodes@[j]) is None && issue_reads(
                    issues@[j],
                    nodes@[j],
                ),
        decreases nodes@.len() - i,
    {
        match parse_issue(&nodes[i]) {
            Ok(issue) => issues.push(issue),
            Err(e) => {
                assert(issue_failure(nodes@[i as int]) is Some);
                return Err(e);
            },
        }
        i = i + 1;
    }
    Ok(issues)
}

/// The error for a user the backend does not know.
pub open spec fn is_unknown_user(e: ServiceError, user_id: Seq<char>) -> bool {
    match e {
        ServiceError::NotFound { entity, id } => entity@ == "user"@ && id@ == user_id,
        _ => false,
    }
}

/// The request for the issues assigned to `user_id`.
pub fn assigned_issues_request(user_id: &str) -> (r: GraphqlRequest)
    ensures
        r.query == ASSIGNED_ISSUES_QUERY,
        r.variables matches Some(vars) && text_of(member(vars, "userId"@)) == Some(user_id@),
{
    let mut vars: Vec<(String, Json)> = Vec::new();
    put_entry(&mut vars, "userId", json_str(user_id));
    assert(entry_value(vars@.drop_last(), "userId"@) is None);
    GraphqlRequest { query: ASSIGNED_ISSUES_QUERY, variables: Some(Json::Object(vars)) }
}

/// Reads the answer to [`assigned_issues_request`]: a null user does not
/// exist, an empty list is a valid answer.
pub fn read_assigned_issues(user_id: &str, data: &Json) -> (r: Result<Vec<Issue>, ServiceError>)
    ensures
        ({
            let user = member(*data, "user"@);
            let nodes = member(member(user, "assignedIssues"@), "nodes"@);
            &&& user is Null ==> r is Err && is_unknown_user(r->Err_0, user_id@)
            &&& !(user is Null) && items_of(nodes) is None ==> r is Err && is_decode_error(
                r->Err_0,
                "user.assignedIssues.nodes"@,
            )
            &&& !(user is Null) && items_of(nodes) is Some ==> records_read(r, items_of(nodes)->0)
        }),
{
    let null = Json::Null;
    let user = match data.get("user") {
        Some(u) => u,
        None => &null,
    };
    if user.is_null() {
        return Err(
            ServiceError::NotFound { entity: "user".to_owned(), id: user_id.to_owned() },
        );
    }
    let nodes = match user.get("assignedIssues") {
        Some(a) => a.get("nodes"),
        None => None,
    };
    match nodes {
        Some(Json::Array(items)) => read_issue_list(items),
        _ => Err(decode_error("user.assignedIssues.nodes")),
    }
}

/// The request for the issue with id `issue_id`.
pub fn issue_request(issue_id: &str) -> (r: GraphqlRequest)
    ensures
        r.query == ISSUE_QUERY,
        r.variables matches Some(vars) && text_of(member(vars, "id"@)) == Some(issue_id@),
{
    let mut vars: Vec<(String, Json)> = Vec::new();
    put_entry(&mut vars, "id", json_str(issue_id));
    assert(entry_value(vars@.drop_last(), "id"@) is None);
    GraphqlRequest { query: ISSUE_QUERY, variables: Some(Json::Object(vars)) }
}

/// Reads the answer to [`issue_request`]: a null issue is absent, which is
/// not a failure.
pub fn read_issue(data: &Json) -> (r: Result<Option<Issue>, ServiceError>)
    ensures
        ({
            let v = member(*data, "issue"@);
            &&& v is Null ==> r == Ok::<Option<Issue>, ServiceError>(None)
            &&& !(v is Null) ==> match r {
                Ok(Some(issue)) => issue_failure(v) is None && issue_reads(issue, v),
                Ok(None) => false,
                Err(e) => issue_failure(v) is Some && is_decode_error(e, issue_failure(v)->0),
            }
        }),
{
    match data.get("issue") {
        Some(v) => {
            if v.is_null() {
                Ok(None)
            } else {
                match parse_issue(v) {
                    Ok(issue) => Ok(Some(issue)),
                    Err(e) => Err(e),
                }
            }
        },
        None => Ok(None),
    }
}

/// The number the backend uses for a priority.
pub open spec fn priority_wire(p: IssuePriority) -> u64 {
    match p {
        IssuePriority::NoPriority => 0,
        IssuePriority::Urgent => 1,
        IssuePriority::High => 2,
        IssuePriority::Medium => 3,
        IssuePriority::Low => 4,
    }
}

pub fn priority_number(p: IssuePriority) -> (r: u64)
    ensures
        r == priority_wire(p),
{
    match p {
        IssuePriority::NoPriority => 0,
        IssuePriority::Urgent => 1,
        IssuePriority::High => 2,
        IssuePriority::Medium => 3,
        IssuePriority::Low => 4,
    }
}

/// `v` is an array of the strings `texts`.
pub open spec fn is_text_array(v: Json, texts: Seq<String>) -> bool {
    match v {
        Json::Array(items) => items@.len() == texts.len() && forall|i: int|
            0 <= i < texts.len() ==> text_of(#[trigger] items@[i]) == Some(texts[i]@),
        _ => false,
    }
}

pub fn text_array(texts: &Vec<String>) -> (r: Json)
    ensures
        is_text_array(r, texts@),
{
    let mut items: Vec<Json> = Vec::new();
    let mut i: usize = 0;
    while i < texts.len()
        invariant
            i <= texts@.len(),
            items@.len() == i,
            forall|j: int| 0 <= j < i ==> text_of(#[trigger] items@[j]) == Some(texts@[j]@),
        decreases texts@.len() - i,
    {
        items.push(Json::Str(texts[i].clone()));
        i = i + 1;
    }
    Json::Array(items)
}

/// Member `key` holds `value` when it is given, and is absent otherwise.
pub open spec fn optional_text_entry(obj: Json, key: Seq<char>, value: Option<String>) -> bool {
    match value {
        Some(s) => text_of(member(obj, key)) == Some(s@),
        None => lookup(obj, key) is None,
    }
}

/// A due date can be sent when it has a calendar date the backend can read.
pub open spec fn due_date_sendable(due_date: Option<Timestamp>) -> bool {
    match due_date {
        Some(t) => date_text_of(t) is Some,
        None => true,
    }
}

/// Member `dueDate` holds the calendar date of the due date when there is
/// one, and is absent otherwise.
pub open spec fn due_date_entry(obj: Json, due_date: Option<Timestamp>) -> bool {
    match due_date {
        Some(t) => text_of(member(obj, "dueDate"@)) == date_text_of(t),
        None => lookup(obj, "dueDate"@) is None,
    }
}

/// An estimate can be sent when it is a whole number, as the backend's
/// estimates are.
pub open spec fn estimate_sendable(estimate: Option<Number>) -> bool {
    !(estimate matches Some(Number::Float(_)))
}

/// Member `estimate` holds the estimate when there is one, and is absent
/// otherwise.
pub open spec fn estimate_entry(obj: Json, estimate: Option<Number>) -> bool {
    match estimate {
        Some(n) => member(obj, "estimate"@) == Json::Number(n),
        None => lookup(obj, "estimate"@) is None,
    }
}

/// The variables of the creation mutation for `req`. The priority defaults
/// to medium.
pub open spec fn create_variables(obj: Json, req: CreateIssueRequest) -> bool {
    &&& text_of(member(obj, "title"@)) == Some(req.title@)
    &&& unsigned_of(member(obj, "priority"@)) == Some(
        priority_wire(
            match req.priority {
                Some(p) => p,
                None => IssuePriority::Medium,
            },
        ),
    )
    &&& optional_text_entry(obj, "description"@, req.description)
    &&& optional_text_entry(obj, "assigneeId"@, req.assignee_id)
    &&& optional_text_entry(obj, "teamId"@, req.team_id)
    &&& optional_text_entry(obj, "projectId"@, req.project_id)
    &&& match req.label_ids {
        Some(ids) => is_text_array(member(obj, "labelIds"@), ids@),
        None => lookup(obj, "labelIds"@) is None,
    }
    &&& due_date_entry(obj, req.due_date)
    &&& estimate_entry(obj, req.estimate)
}

pub open spec fn is_validation_error(e: ServiceError, field: Seq<char>) -> bool {
    match e {
        ServiceError::Validation { field: f } => f@ == field,
        _ => false,
    }
}

fn put_optional_text(entries: &mut Vec<(String, Json)>, key: &str, value: &Option<String>)
    ensures
        forall|k: Seq<char>|
            #[trigger] entry_value(final(entries)@, k) == match entry_value(old(entries)@, k) {
                Some(v) => Some(v),
                None => if key@ == k && value is Some {
                    Some(Json::Str(value->0))
                } else {
                    None
                },
            },
{
    match value {
        Some(s) => put_entry(entries, key, Json::Str(s.clone())),
        None => {},
    }
}

/// The due date written as the backend's calendar date, or the validation
/// failure for one that has none.
fn due_date_text(due_date: Option<Timestamp>) -> (r: Result<Option<String>, ServiceError>)
    ensures
        r is Ok <==> due_date_sendable(due_date),
        r is Err ==> is_validation_error(r->Err_0, "due_date"@),
        r is Ok ==> match due_date {
            Some(t) => r->Ok_0 is Some && date_text_of(t) == Some(r->Ok_0->0@),
            None => r->Ok_0 is None,
        },
{
    match due_date {
        Some(t) => match write_date(t) {
            Some(text) => Ok(Some(text)),
            None => Err(ServiceError::Validation { field: "due_date".to_owned() }),
        },
        None => Ok(None),
    }
}

/// The creation mutation for `req`. The backend needs a team, so a request
/// without one is refused; so is a due date with no calendar date the
/// backend can read, and a fractional estimate.
pub fn create_issue_request(req: &CreateIssueRequest) -> (r: Result<GraphqlRequest, ServiceError>)
    ensures
        r is Err <==> req.team_id is None || !due_date_sendable(req.due_date) || !estimate_sendable(
            req.estimate,
        ),
        r is Err && req.team_id is None ==> is_validation_error(r->Err_0, "team_id"@),
        r is Err && req.team_id is Some && !due_date_sendable(req.due_date) ==> is_validation_error(
            r->Err_0,
            "due_date"@,
        ),
        r is Err && req.team_id is Some && due_date_sendable(req.due_date) ==> is_validation_error(
            r->Err_0,
            "estimate"@,
        ),
        r is Ok ==> r->Ok_0.query == CREATE_ISSUE_MUTATION && r->Ok_0.variables is Some
            && create_variables(r->Ok_0.variables->0, *req),
{
    if req.team_id.is_none() {
        return Err(ServiceError::Validation { field: "team_id".to_owned() });
    }
    let due_text = match due_date_text(req.due_date) {
        Ok(d) => d,
        Err(e) => return Err(e),
    };
    if let Some(Number::Float(_)) = req.estimate {
        return Err(ServiceError::Validation { field: "estimate".to_owned() });
    }
    proof {
        reveal_strlit("title");
        reveal_strlit("priority");
        reveal_strlit("description");
        reveal_strlit("assigneeId");
        reveal_strlit("teamId");
        reveal_strlit("projectId");
        reveal_strlit("labelIds");
        reveal_strlit("dueDate");
        reveal_strlit("estimate");
        assert("title"@.len() == 5 && "priority"@.len() == 8 && "description"@.len() == 11);
        assert("assigneeId"@.len() == 10 && "teamId"@.len() == 6 && "projectId"@.len() == 9);
        assert("labelIds"@.len() == 8 && "priority"@[0] != "labelIds"@[0]);
        assert("dueDate"@.len() == 7 && "estimate"@.len() == 8);
        assert("priority"@[0] != "estimate"@[0] && "labelIds"@[0] != "estimate"@[0]);
    }
    let mut vars: Vec<(String, Json)> = Vec::new();
    let priority = match req.priority {
        Some(p) => p,
        None => IssuePriority::Medium,
    };
    let ghost empty = vars@;
    assert(forall|k: Seq<char>| #[trigger] entry_value(empty, k) is None);
    put_entry(&mut vars, "title", Json::Str(req.title.clone()));
    put_entry(&mut vars, "priority", Json::Number(Number::Unsigned(priority_number(priority))));
    put_optional_text(&mut vars, "description", &req.description);
    put_optional_text(&mut vars, "assigneeId", &req.assignee_id);
    put_optional_text(&mut vars, "teamId", &req.team_id);
    put_optional_text(&mut vars, "projectId", &req.project_id);
    match &req.label_ids {
        Some(ids) => put_entry(&mut vars, "labelIds", text_array(ids)),
        None => {},
    }
    put_optional_text(&mut vars, "dueDate", &due_text);
    match req.estimate {
        Some(n) => put_entry(&mut vars, "estimate", Json::Number(n)),
        None => {},
    }
    Ok(GraphqlRequest { query: CREATE_ISSUE_MUTATION, variables: Some(Json::Object(vars)) })
}

pub open spec fn is_rejected(e: ServiceError, operation: Seq<char>) -> bool {
    match e {
        ServiceError::Upstream(UpstreamError::Rejected { operation: o }) => o@ == operation,
        _ => false,
    }
}

/// Reads the answer to a mutation on one issue (`operation` is its field in
/// the answer): unless the backend reports success, the change is refused;
/// otherwise the changed record, as reloaded by the backend, is read.
pub fn read_issue_mutation(data: &Json, operation: &str) -> (r: Result<Issue, ServiceError>)
    ensures
        ({
            let payload = member(*data, operation@);
            let v = member(payload, "issue"@);
            &&& bool_of(member(payload, "success"@)) != Some(true) ==> r is Err && is_rejected(
                r->Err_0,
                operation@,
            )
            &&& bool_of(member(payload, "success"@)) == Some(true) ==> match r {
                Ok(issue) => issue_failure(v) is None && issue_reads(issue, v),
                Err(e) => issue_failure(v) is Some && is_decode_error(e, issue_failure(v)->0),
            }
        }),
{
    let null = Json::Null;
    let payload = match data.get(operation) {
        Some(p) => p,
        None => &null,
    };
    let succeeded = match payload.get("success") {
        Some(Json::Bool(b)) => *b,
        _ => false,
    };
    if !succeeded {
        return Err(
            ServiceError::Upstream(UpstreamError::Rejected { operation: operation.to_owned() }),
        );
    }
    match payload.get("issue") {
        Some(v) => parse_issue(v),
        None => parse_issue(&null),
    }
}

/// The input of the update mutation: exactly the fields present in `req`.
pub open spec fn update_input(obj: Json, req: UpdateIssueRequest) -> bool {
    &&& optional_text_entry(obj, "title"@, req.title)
    &&& optional_text_entry(obj, "description"@, req.description)
    &&& match req.priority {
        Some(p) => unsigned_of(member(obj, "priority"@)) == Some(priority_wire(p)),
        None => lookup(obj, "priority"@) is None,
    }
    &&& optional_text_entry(obj, "assigneeId"@, req.assignee_id)
    &&& optional_text_entry(obj, "stateId"@, req.state_id)
    &&& match req.label_ids {
        Some(ids) => is_text_array(member(obj, "labelIds"@), ids@),
        None => lookup(obj, "labelIds"@) is None,
    }
    &&& due_date_entry(obj, req.due_date)
    &&& estimate_entry(obj, req.estimate)
}

/// The update mutation for `req`, changing only the fields it holds. A due
/// date with no calendar date the backend can read is refused, and so is a
/// fractional estimate.
pub fn update_issue_request(req: &UpdateIssueRequest) -> (r: Result<GraphqlRequest, ServiceError>)
    ensures
        r is Err <==> !due_date_sendable(req.due_date) || !estimate_sendable(req.estimate),
        r is Err && !due_date_sendable(req.due_date) ==> is_validation_error(r->Err_0, "due_date"@),
        r is Err && due_date_sendable(req.due_date) ==> is_validation_error(r->Err_0, "estimate"@),
        r is Ok ==> r->Ok_0.query == UPDATE_ISSUE_MUTATION && r->Ok_0.variables is Some && text_of(
            member(r->Ok_0.variables->0, "id"@),
        ) == Some(req.id@) && update_input(member(r->Ok_0.variables->0, "input"@), *req),
{
    let due_text = match due_date_text(req.due_date) {
        Ok(d) => d,
        Err(e) => return Err(e),
    };
    if let Some(Number::Float(_)) = req.estimate {
        return Err(ServiceError::Validation { field: "estimate".to_owned() });
    }
    proof {
        reveal_strlit("title");
        reveal_strlit("priority");
        reveal_strlit("description");
        reveal_strlit("assigneeId");
        reveal_strlit("stateId");
        reveal_strlit("labelIds");
        reveal_strlit("estimate");
        reveal_strlit("id");
        reveal_strlit("input");
        assert("title"@.len() == 5 && "priority"@.len() == 8 && "description"@.len() == 11);
        assert("assigneeId"@.len() == 10 && "stateId"@.len() == 7 && "labelIds"@.len() == 8);
        assert("estimate"@.len() == 8 && "priority"@[0] != "labelIds"@[0]);
        assert("priority"@[0] != "estimate"@[0] && "labelIds"@[0] != "estimate"@[0]);
        assert("id"@.len() == 2 && "input"@.len() == 5);
        reveal_strlit("dueDate");
        assert("dueDate"@.len() == 7 && "dueDate"@[0] != "stateId"@[0]);
    }
    let mut input: Vec<(String, Json)> = Vec::new();
    let ghost empty = input@;
    assert(forall|k: Seq<char>| #[trigger] entry_value(empty, k) is None);
    put_optional_text(&mut input, "title", &req.title);
    put_optional_text(&mut input, "description", &req.description);
    match req.priority {
        Some(p) => put_entry(&mut input, "priority", Json::Number(Number::Unsigned(priority_number(p)))),
        None => {},
    }
    put_optional_text(&mut input, "assigneeId", &req.assignee_id);
    put_optional_text(&mut input, "stateId", &req.state_id);
    match &req.label_ids {
        Some(ids) => put_entry(&mut input, "labelIds", text_array(ids)),
        None => {},
    }
    put_optional_text(&mut input, "dueDate", &due_text);
    match req.estimate {
        Some(n) => put_entry(&mut input, "estimate", Json::Number(n)),
        None => {},
    }
    let mut vars: Vec<(String, Json)> = Vec::new();
    assert(entry_value(vars@, "id"@) is None && entry_value(vars@, "input"@) is None);
    put_entry(&mut vars, "id", Json::Str(req.id.clone()));
    put_entry(&mut vars, "input", Json::Object(input));
    Ok(GraphqlRequest { query: UPDATE_ISSUE_MUTATION, variables: Some(Json::Object(vars)) })
}

/// `u` holds what the user record `v` says; a user counts as active unless
/// the record says otherwise.
pub open spec fn user_reads(u: User, v: Json) -> bool {
    &&& u.id@ == text_or_empty(member(v, "id"@))
    &&& u.name@ == text_or_empty(member(v, "name"@))
    &&& u.email@ == text_or_empty(member(v, "email"@))
    &&& opt_view(u.avatar_url) == text_of(member(v, "avatarUrl"@))
    &&& u.display_name@ == text_or_empty(member(v, "displayName"@))
    &&& u.active == match bool_of(member(v, "active"@)) {
        Some(b) => b,
        None => true,
    }
    &&& u.custom_fields@.len() == 0
    &&& keys_unique(u.custom_fields@)
}

pub fn read_user(v: &Json) -> (u: User)
    ensures
        user_reads(u, *v),
{
    User {
        id: text_member_or_empty(v, "id"),
        name: text_member_or_empty(v, "name"),
        email: text_member_or_empty(v, "email"),
        avatar_url: text_member(v, "avatarUrl"),
        display_name: text_member_or_empty(v, "displayName"),
        active: match v.get("active") {
            Some(Json::Bool(b)) => *b,
            _ => true,
        },
        custom_fields: Vec::new(),
    }
}

/// The request for the authenticated user.
pub fn current_user_request() -> (r: GraphqlRequest)
    ensures
        r.query == CURRENT_USER_QUERY,
        r.variables is None,
{
    GraphqlRequest { query: CURRENT_USER_QUERY, variables: None }
}

/// Reads the answer to [`current_user_request`].
pub fn read_current_user(data: &Json) -> (u: User)
    ensures
        user_reads(u, member(*data, "viewer"@)),
{
    match data.get("viewer") {
        Some(v) => read_user(v),
        None => read_user(&Json::Null),
    }
}

/// `t` holds what the team record `v` says; members are not part of it.
pub open spec fn team_reads(t: Team, v: Json) -> bool {
    &&& t.id@ == text_or_empty(member(v, "id"@))
    &&& t.name@ == text_or_empty(member(v, "name"@))
    &&& t.key@ == text_or_empty(member(v, "key"@))
    &&& opt_view(t.description) == text_of(member(v, "description"@))
    &&& t.members@.len() == 0
    &&& t.custom_fields@.len() == 0
    &&& keys_unique(t.custom_fields@)
}

/// The request for the teams.
pub fn teams_request() -> (r: GraphqlRequest)
    ensures
        r.query == TEAMS_QUERY,
        r.variables is None,
{
    GraphqlRequest { query: TEAMS_QUERY, variables: None }
}

/// Reads the answer to [`teams_request`].
pub fn read_teams(data: &Json) -> (r: Result<Vec<Team>, ServiceError>)
    ensures
        ({
            let nodes = member(member(*data, "teams"@), "nodes"@);
            &&& items_of(nodes) is None ==> r is Err && is_decode_error(r->Err_0, "teams.nodes"@)
            &&& items_of(nodes) matches Some(items) ==> r is Ok && r->Ok_0@.len() == items.len()
                && forall|i: int| 0 <= i < items.len() ==> team_reads(#[trigger] r->Ok_0@[i], items[i])
        }),
{
    let nodes = match data.get("teams") {
        Some(t) => t.get("nodes"),
        None => None,
    };
    match nodes {
        Some(Json::Array(items)) => {
            let mut teams: Vec<Team> = Vec::new();
            let mut i: usize = 0;
            while i < items.len()
                invariant
                    i <= items@.len(),
                    teams@.len() == i,
                    forall|j: int| 0 <= j < i ==> team_reads(#[trigger] teams@[j], items@[j]),
                decreases items@.len() - i,
            {
                let v = &items[i];
                teams.push(
                    Team {
                        id: text_member_or_empty(v, "id"),
                        name: text_member_or_empty(v, "name"),
                        key: text_member_or_empty(v, "key"),
                        description: text_member(v, "description"),
                        members: Vec::new(),
                        custom_fields: Vec::new(),
                    },
                );
                i = i + 1;
            }
            Ok(teams)
        },
        _ => Err(decode_error("teams.nodes")),
    }
}

} // verus!
