use generic_mcp::application::{active_tickets, is_active_state, text_search_filter};
use generic_mcp::domain::issue::{
    CreateIssueRequest, Issue, IssuePriority, IssueState, IssueStateType, UpdateIssueRequest,
};
use generic_mcp::domain::ticket::{
    CreateTicketRequest, Priority, State, StateType, Ticket, TicketFilter, UpdateTicketRequest,
};
use generic_mcp::domain::workspace::{Team, User};
use generic_mcp::error::{ErrorKind, ServiceError, UpstreamError};
use generic_mcp::json::{Json, Number};
use generic_mcp::linear::adapter::{
    check_provider, map_create_request, map_issue_priority_to_priority,
    map_issue_state_type_to_state_type, map_issue_to_ticket, map_issues_to_tickets,
    map_priority_to_issue_priority, map_state_type_to_issue_state_type, map_ticket_filter,
    map_update_request, synthesize_workspace, ticket_from_issue_response,
};
use generic_mcp::linear::client::{
    assigned_issues_request, create_issue_request, current_user_request, issue_request,
    update_issue_request, ASSIGNED_ISSUES_QUERY, CREATE_ISSUE_MUTATION, CURRENT_USER_QUERY,
    UPDATE_ISSUE_MUTATION,
};
use generic_mcp::ports::ProviderConfig;
use generic_mcp::server::{
    error_document, list_resources, list_tools, plan_resource_read, plan_tool_call, resource_contents,
    ResourceRead, ToolCall, ASSIGNED_TICKETS_URI, CURRENT_USER_URI,
};
use generic_mcp::time::Timestamp;

fn s(text: &str) -> Json {
    Json::Str(text.to_string())
}

fn obj(entries: Vec<(&str, Json)>) -> Json {
    Json::Object(entries.into_iter().map(|(k, v)| (k.to_string(), v)).collect())
}

fn member<'a>(v: &'a Json, key: &str) -> Option<&'a Json> {
    match v {
        Json::Object(entries) => entries.iter().find(|(k, _)| k == key).map(|(_, x)| x),
        _ => None,
    }
}

fn issue(id: &str, priority: IssuePriority, state_type: IssueStateType) -> Issue {
    Issue {
        id: id.to_string(),
        identifier: format!("ENG-{}", id),
        title: "Title".to_string(),
        description: Some("Body".to_string()),
        priority,
        state: IssueState {
            id: "s1".to_string(),
            name: "State".to_string(),
            type_: state_type,
            position: Number::Float(0x4000000000000000),
        },
        assignee_id: Some("u1".to_string()),
        creator_id: "u2".to_string(),
        project_id: Some("p1".to_string()),
        labels: vec!["bug".to_string()],
        created_at: Timestamp { seconds: 10, nanos: 0 },
        updated_at: Timestamp { seconds: 20, nanos: 5 },
        due_date: Some(Timestamp { seconds: 30, nanos: 0 }),
        estimate: Some(Number::Unsigned(5)),
        url: "https://example.com".to_string(),
    }
}

fn ticket_in(id: &str, state_type: StateType) -> Ticket {
    Ticket {
        id: id.to_string(),
        identifier: id.to_string(),
        title: String::new(),
        description: None,
        priority: Priority::NoPriority,
        state: State {
            id: String::new(),
            name: String::new(),
            type_: state_type,
            position: Number::Unsigned(0),
        },
        assignee_id: None,
        creator_id: String::new(),
        project_id: None,
        labels: vec![],
        created_at: Timestamp { seconds: 0, nanos: 0 },
        updated_at: Timestamp { seconds: 0, nanos: 0 },
        due_date: None,
        estimate: None,
        url: String::new(),
        custom_fields: vec![],
    }
}

#[test]
fn native_priorities_map_to_generic_and_back() {
    let table = [
        (IssuePriority::NoPriority, Priority::NoPriority),
        (IssuePriority::Urgent, Priority::Highest),
        (IssuePriority::High, Priority::High),
        (IssuePriority::Medium, Priority::Medium),
        (IssuePriority::Low, Priority::Low),
    ];
    for (native, generic) in table {
        assert_eq!(map_issue_priority_to_priority(native), generic);
        assert_eq!(map_priority_to_issue_priority(&generic), native);
    }
    assert_eq!(map_priority_to_issue_priority(&Priority::Lowest), IssuePriority::Low);
    assert_eq!(
        map_priority_to_issue_priority(&Priority::Custom("Blocker".to_string())),
        IssuePriority::Medium
    );
}

#[test]
fn native_state_types_map_to_generic_and_back() {
    let table = [
        (IssueStateType::Unstarted, StateType::Open),
        (IssueStateType::Started, StateType::InProgress),
        (IssueStateType::Completed, StateType::Closed),
        (IssueStateType::Canceled, StateType::Cancelled),
    ];
    for (native, generic) in table {
        assert_eq!(map_issue_state_type_to_state_type(native), generic.clone());
        assert_eq!(map_state_type_to_issue_state_type(&generic), native);
    }
    assert_eq!(
        map_state_type_to_issue_state_type(&StateType::Custom("Triage".to_string())),
        IssueStateType::Unstarted
    );
}

#[test]
fn ticket_keeps_every_shared_field() {
    let native = issue("42", IssuePriority::Urgent, IssueStateType::Completed);
    let t = map_issue_to_ticket(native.clone());
    assert_eq!(t.id, native.id);
    assert_eq!(t.identifier, "ENG-42");
    assert_eq!(t.title, native.title);
    assert_eq!(t.description, native.description);
    assert_eq!(t.priority, Priority::Highest);
    assert_eq!(map_priority_to_issue_priority(&t.priority), native.priority);
    assert_eq!(t.state.type_, StateType::Closed);
    assert_eq!(map_state_type_to_issue_state_type(&t.state.type_), native.state.type_);
    assert_eq!(t.state.position, native.state.position);
    assert_eq!(t.assignee_id, native.assignee_id);
    assert_eq!(t.creator_id, native.creator_id);
    assert_eq!(t.project_id, native.project_id);
    assert_eq!(t.labels, native.labels);
    assert_eq!(t.created_at, native.created_at);
    assert_eq!(t.updated_at, native.updated_at);
    assert_eq!(t.due_date, native.due_date);
    assert_eq!(t.estimate, native.estimate);
    assert_eq!(t.url, native.url);
    assert!(t.custom_fields.is_empty());
}

#[test]
fn issue_lists_map_in_order() {
    let tickets = map_issues_to_tickets(vec![
        issue("1", IssuePriority::Low, IssueStateType::Started),
        issue("2", IssuePriority::High, IssueStateType::Unstarted),
    ]);
    assert_eq!(tickets.len(), 2);
    assert_eq!(tickets[0].id, "1");
    assert_eq!(tickets[0].priority, Priority::Low);
    assert_eq!(tickets[1].id, "2");
    assert_eq!(tickets[1].state.type_, StateType::Open);
}

#[test]
fn ticket_lookup_is_absent_or_populated() {
    assert_eq!(ticket_from_issue_response(&obj(vec![("issue", Json::Null)])).unwrap(), None);
    let record = obj(vec![("id", s("abc")), ("identifier", s("ENG-1")), ("priority", Json::Number(Number::Unsigned(1)))]);
    let found = ticket_from_issue_response(&obj(vec![("issue", record)])).unwrap().unwrap();
    assert_eq!(found.id, "abc");
    assert_eq!(found.identifier, "ENG-1");
    assert_eq!(found.priority, Priority::Highest);
    let broken = obj(vec![("identifier", s("ENG-1"))]);
    assert_eq!(
        ticket_from_issue_response(&obj(vec![("issue", broken)])).unwrap_err(),
        ServiceError::Decode { field: "id".to_string() }
    );
}

#[test]
fn active_tickets_keep_open_in_progress_and_custom() {
    let tickets = vec![
        ticket_in("open", StateType::Open),
        ticket_in("closed", StateType::Closed),
        ticket_in("doing", StateType::InProgress),
        ticket_in("cancelled", StateType::Cancelled),
        ticket_in("triage", StateType::Custom("Triage".to_string())),
    ];
    let kept: Vec<String> = active_tickets(tickets).into_iter().map(|t| t.id).collect();
    assert_eq!(kept, vec!["open", "doing", "triage"]);
    assert!(active_tickets(vec![]).is_empty());
    assert!(is_active_state(&StateType::Custom(String::new())));
    assert!(!is_active_state(&StateType::Cancelled));
}

#[test]
fn text_search_sets_only_the_query() {
    let f = text_search_filter("login");
    assert_eq!(f.search_query.as_deref(), Some("login"));
    assert_eq!(f.assignee_id, None);
    assert_eq!(f.state_type, None);
    assert!(f.custom_filters.is_empty());
}

#[test]
fn filters_map_to_nearest_native_values() {
    let mut f = text_search_filter("q");
    f.state_type = Some(StateType::Custom("Blocked".to_string()));
    f.priority = Some(Priority::Lowest);
    f.labels = Some(vec!["bug".to_string()]);
    let native = map_ticket_filter(&f).unwrap();
    assert_eq!(native.state_type, Some(IssueStateType::Unstarted));
    assert_eq!(native.priority, Some(IssuePriority::Low));
    assert_eq!(native.labels, Some(vec!["bug".to_string()]));
    assert_eq!(native.search_query.as_deref(), Some("q"));
}

#[test]
fn provider_specific_filters_are_refused() {
    let f = TicketFilter {
        assignee_id: None,
        project_id: None,
        state_type: None,
        priority: None,
        labels: None,
        search_query: None,
        custom_filters: vec![("cycle".to_string(), s("current"))],
    };
    let err = map_ticket_filter(&f).unwrap_err();
    assert_eq!(err, ServiceError::UnsupportedFilter { dimension: "cycle".to_string() });
    assert_eq!(err.kind(), ErrorKind::UnsupportedFilter);
}

#[test]
fn creation_requests_map_and_need_a_team() {
    let request = CreateTicketRequest {
        title: "New".to_string(),
        description: None,
        priority: Some(Priority::Highest),
        assignee_id: Some("u1".to_string()),
        team_id: None,
        project_id: None,
        label_ids: Some(vec!["l1".to_string(), "l2".to_string()]),
        due_date: None,
        estimate: None,
        custom_fields: None,
    };
    let native = map_create_request(&request);
    assert_eq!(native.title, "New");
    assert_eq!(native.priority, Some(IssuePriority::Urgent));
    let err = create_issue_request(&native).unwrap_err();
    assert_eq!(err, ServiceError::Validation { field: "team_id".to_string() });
    assert_eq!(err.kind().name(), "ValidationError");

    let with_team = CreateIssueRequest { team_id: Some("t1".to_string()), ..native };
    let req = create_issue_request(&with_team).unwrap();
    assert_eq!(req.query, CREATE_ISSUE_MUTATION);
    let vars = req.variables.unwrap();
    assert_eq!(member(&vars, "title"), Some(&s("New")));
    assert_eq!(member(&vars, "priority"), Some(&Json::Number(Number::Unsigned(1))));
    assert_eq!(member(&vars, "teamId"), Some(&s("t1")));
    assert_eq!(member(&vars, "assigneeId"), Some(&s("u1")));
    assert_eq!(member(&vars, "description"), None);
    assert_eq!(member(&vars, "projectId"), None);
    assert_eq!(member(&vars, "labelIds"), Some(&Json::Array(vec![s("l1"), s("l2")])));
}

#[test]
fn creation_priority_defaults_to_medium() {
    let request = CreateIssueRequest {
        title: "T".to_string(),
        description: Some("D".to_string()),
        priority: None,
        assignee_id: None,
        team_id: Some("t".to_string()),
        project_id: None,
        label_ids: None,
        due_date: None,
        estimate: None,
    };
    let vars = create_issue_request(&request).unwrap().variables.unwrap();
    assert_eq!(member(&vars, "priority"), Some(&Json::Number(Number::Unsigned(3))));
    assert_eq!(member(&vars, "description"), Some(&s("D")));
    assert_eq!(member(&vars, "labelIds"), None);
}

#[test]
fn update_requests_keep_absent_fields_absent() {
    let request = UpdateTicketRequest {
        id: "i1".to_string(),
        title: Some("Renamed".to_string()),
        description: None,
        priority: Some(Priority::Custom("Minor".to_string())),
        assignee_id: None,
        state_id: Some("s2".to_string()),
        label_ids: None,
        due_date: None,
        estimate: Some(Number::Unsigned(8)),
        custom_fields: None,
    };
    let native = map_update_request(&request);
    assert_eq!(native.id, "i1");
    assert_eq!(native.title.as_deref(), Some("Renamed"));
    assert_eq!(native.description, None);
    assert_eq!(native.priority, Some(IssuePriority::Medium));
    assert_eq!(native.state_id.as_deref(), Some("s2"));
    assert_eq!(native.label_ids, None);
    assert_eq!(native.estimate, Some(Number::Unsigned(8)));
}

#[test]
fn requests_carry_their_variables() {
    let req = assigned_issues_request("u-7");
    assert_eq!(req.query, ASSIGNED_ISSUES_QUERY);
    assert_eq!(member(req.variables.as_ref().unwrap(), "userId"), Some(&s("u-7")));
    let req = issue_request("ENG-1");
    assert_eq!(member(req.variables.as_ref().unwrap(), "id"), Some(&s("ENG-1")));
    let req = current_user_request();
    assert_eq!(req.query, CURRENT_USER_QUERY);
    let body = req.into_body();
    assert_eq!(member(&body, "query"), Some(&s(CURRENT_USER_QUERY)));
    assert_eq!(member(&body, "variables"), None);
    let body = assigned_issues_request("u-7").into_body();
    assert_eq!(member(&body, "variables"), Some(&obj(vec![("userId", s("u-7"))])));
}

#[test]
fn workspace_is_synthesized_from_user_and_teams() {
    let user = User {
        id: "u1".to_string(),
        name: "Ada".to_string(),
        email: String::new(),
        avatar_url: None,
        display_name: String::new(),
        active: true,
        custom_fields: vec![],
    };
    let team = Team {
        id: "t1".to_string(),
        name: "Metal".to_string(),
        key: "METAL".to_string(),
        description: None,
        members: vec![],
        custom_fields: vec![],
    };
    let w = synthesize_workspace(&user, vec![team]);
    assert_eq!(w.name, "Ada's Linear Workspace");
    assert_eq!(w.id, "linear-workspace");
    assert_eq!(w.url, "https://linear.app");
    assert_eq!(w.description.as_deref(), Some("Linear workspace"));
    assert_eq!(w.teams.len(), 1);
}

#[test]
fn only_the_linear_provider_is_accepted() {
    let mut config = ProviderConfig {
        provider_type: "linear".to_string(),
        api_token: "SECRET-REDACTED".to_string(),
        base_url: None,
        workspace_id: None,
    };
    assert_eq!(check_provider(&config), Ok(()));
    config.provider_type = "jira".to_string();
    let err = check_provider(&config).unwrap_err();
    assert_eq!(
        err,
        ServiceError::InvalidValue { field: "provider_type".to_string(), value: "jira".to_string() }
    );
    assert_eq!(err.kind(), ErrorKind::Validation);
    let doc = error_document(err);
    let error = member(&doc, "error").unwrap();
    assert_eq!(member(error, "kind"), Some(&s("ValidationError")));
    assert_eq!(member(error, "detail"), Some(&s("provider_type")));
    assert_eq!(member(error, "value"), Some(&s("jira")));
}

#[test]
fn unknown_tool_is_refused() {
    let err = plan_tool_call("delete_everything", &obj(vec![])).unwrap_err();
    assert_eq!(err, ServiceError::UnknownTool { name: "delete_everything".to_string() });
    assert_eq!(err.kind(), ErrorKind::UnknownTool);
}

#[test]
fn missing_user_id_is_a_validation_error() {
    let err = plan_tool_call("get_assigned_tickets", &obj(vec![])).unwrap_err();
    assert_eq!(err, ServiceError::Validation { field: "user_id".to_string() });
    assert_eq!(err.kind(), ErrorKind::Validation);
    let err = plan_tool_call("get_assigned_tickets", &obj(vec![("user_id", Json::Number(Number::Unsigned(5)))]));
    assert_eq!(err.unwrap_err(), ServiceError::Validation { field: "user_id".to_string() });
}

#[test]
fn known_tools_plan_their_use_case() {
    let args = obj(vec![("user_id", s("u1"))]);
    assert_eq!(
        plan_tool_call("get_assigned_tickets", &args).unwrap(),
        ToolCall::GetAssignedTickets { user_id: "u1".to_string() }
    );
    assert_eq!(plan_tool_call("get_current_user", &Json::Null).unwrap(), ToolCall::GetCurrentUser);
    assert_eq!(
        plan_tool_call("search_tickets", &obj(vec![])).unwrap(),
        ToolCall::SearchTickets { query: String::new() }
    );
    assert_eq!(
        plan_tool_call("search_tickets", &obj(vec![("query", s("crash"))])).unwrap(),
        ToolCall::SearchTickets { query: "crash".to_string() }
    );
    assert_eq!(
        plan_tool_call("get_ticket", &obj(vec![("issue_id", s("ENG-9"))])).unwrap(),
        ToolCall::GetTicket { issue_id: "ENG-9".to_string() }
    );
    assert_eq!(
        plan_tool_call("get_ticket", &obj(vec![])).unwrap_err(),
        ServiceError::Validation { field: "issue_id".to_string() }
    );
}

#[test]
fn tool_catalog_lists_four_schemas() {
    let tools = list_tools();
    let names: Vec<&str> = tools.iter().map(|t| t.name.as_str()).collect();
    assert!(tools.iter().all(|t| !t.description.is_empty()));
    assert_eq!(tools[0].description, "Get tickets assigned to a specific user");
    assert_eq!(tools[3].description, "Get a specific ticket by ID");
    assert_eq!(names, vec!["get_assigned_tickets", "get_current_user", "search_tickets", "get_ticket"]);
    let required = |i: usize| member(&tools[i].input_schema, "required").cloned_items();
    assert_eq!(required(0), vec![s("user_id")]);
    assert_eq!(required(1), vec![]);
    assert_eq!(required(2), vec![]);
    assert_eq!(required(3), vec![s("issue_id")]);
    let props = member(&tools[0].input_schema, "properties").unwrap();
    let user_id = member(props, "user_id").unwrap();
    assert_eq!(member(user_id, "type"), Some(&s("string")));
    assert_eq!(
        member(user_id, "description"),
        Some(&s("The ID of the user to get assigned tickets for"))
    );
    assert_eq!(member(&tools[1].input_schema, "properties"), Some(&obj(vec![])));
    assert_eq!(member(&tools[2].input_schema, "type"), Some(&s("object")));
}

trait Items {
    fn cloned_items(self) -> Vec<Json>;
}

impl Items for Option<&Json> {
    fn cloned_items(self) -> Vec<Json> {
        match self {
            Some(Json::Array(items)) => items.iter().map(|i| match i {
                Json::Str(t) => Json::Str(t.clone()),
                _ => Json::Null,
            }).collect(),
            _ => panic!("not an array"),
        }
    }
}

#[test]
fn resources_resolve_or_are_unknown() {
    let resources = list_resources();
    assert_eq!(resources.len(), 2);
    assert_eq!(resources[0].uri, ASSIGNED_TICKETS_URI);
    assert_eq!(resources[1].uri, CURRENT_USER_URI);
    assert_eq!(resources[0].mime_type.as_deref(), Some("application/json"));
    assert_eq!(resources[0].name, "Assigned Tickets");
    assert_eq!(resources[1].name, "Current User");
    assert_eq!(
        resources[1].description.as_deref(),
        Some("Information about the current authenticated user")
    );
    assert_eq!(plan_resource_read(ASSIGNED_TICKETS_URI), Ok(ResourceRead::AssignedTickets));
    assert_eq!(plan_resource_read(CURRENT_USER_URI), Ok(ResourceRead::CurrentUser));
    let err = plan_resource_read("linear://nowhere").unwrap_err();
    assert_eq!(err, ServiceError::UnknownResource { uri: "linear://nowhere".to_string() });
    assert_eq!(err.kind().name(), "UnknownResource");
}

#[test]
fn resource_contents_carry_uri_type_and_text() {
    let doc = resource_contents(CURRENT_USER_URI, "{}".to_string());
    assert_eq!(member(&doc, "uri"), Some(&s(CURRENT_USER_URI)));
    assert_eq!(member(&doc, "mimeType"), Some(&s("application/json")));
    assert_eq!(member(&doc, "text"), Some(&s("{}")));
    match &doc {
        Json::Object(entries) => assert_eq!(entries.len(), 3),
        _ => panic!("not an object"),
    }
}

#[test]
fn update_mutation_sends_only_present_fields() {
    let request = UpdateTicketRequest {
        id: "i1".to_string(),
        title: None,
        description: Some("New body".to_string()),
        priority: Some(Priority::High),
        assignee_id: None,
        state_id: Some("s2".to_string()),
        label_ids: Some(vec![]),
        due_date: None,
        estimate: Some(Number::Unsigned(2)),
        custom_fields: None,
    };
    let req = update_issue_request(&map_update_request(&request)).unwrap();
    assert_eq!(req.query, UPDATE_ISSUE_MUTATION);
    let vars = req.variables.unwrap();
    assert_eq!(member(&vars, "id"), Some(&s("i1")));
    let input = member(&vars, "input").unwrap();
    assert_eq!(member(input, "title"), None);
    assert_eq!(member(input, "assigneeId"), None);
    assert_eq!(member(input, "description"), Some(&s("New body")));
    assert_eq!(member(input, "priority"), Some(&Json::Number(Number::Unsigned(2))));
    assert_eq!(member(input, "stateId"), Some(&s("s2")));
    assert_eq!(member(input, "labelIds"), Some(&Json::Array(vec![])));
    assert_eq!(member(input, "estimate"), Some(&Json::Number(Number::Unsigned(2))));
}

#[test]
fn update_sends_due_date_as_calendar_date() {
    let request = UpdateTicketRequest {
        id: "i1".to_string(),
        title: None,
        description: None,
        priority: None,
        assignee_id: None,
        state_id: None,
        label_ids: None,
        due_date: Some(Timestamp { seconds: 1704164645, nanos: 0 }),
        estimate: None,
        custom_fields: None,
    };
    let vars = update_issue_request(&map_update_request(&request)).unwrap().variables.unwrap();
    let input = member(&vars, "input").unwrap();
    assert_eq!(member(input, "dueDate"), Some(&s("2024-01-02")));
    assert_eq!(member(input, "estimate"), None);
    assert_eq!(member(input, "priority"), None);
}

#[test]
fn due_dates_outside_four_digit_years_are_refused() {
    let request = UpdateIssueRequest {
        id: "i1".to_string(),
        title: None,
        description: None,
        priority: None,
        assignee_id: None,
        state_id: None,
        label_ids: None,
        due_date: Some(Timestamp { seconds: 253402300800, nanos: 0 }),
        estimate: None,
    };
    let err = update_issue_request(&request).unwrap_err();
    assert_eq!(err, ServiceError::Validation { field: "due_date".to_string() });
    let earliest = UpdateIssueRequest {
        due_date: Some(Timestamp { seconds: -62167219200, nanos: 0 }),
        ..request
    };
    let vars = update_issue_request(&earliest).unwrap().variables.unwrap();
    assert_eq!(member(member(&vars, "input").unwrap(), "dueDate"), Some(&s("0000-01-01")));
}

#[test]
fn creation_sends_due_date_and_estimate() {
    let request = CreateIssueRequest {
        title: "T".to_string(),
        description: None,
        priority: Some(IssuePriority::Low),
        assignee_id: None,
        team_id: Some("t".to_string()),
        project_id: None,
        label_ids: None,
        due_date: Some(Timestamp { seconds: 951782400, nanos: 0 }),
        estimate: Some(Number::Unsigned(3)),
    };
    let vars = create_issue_request(&request).unwrap().variables.unwrap();
    assert_eq!(member(&vars, "dueDate"), Some(&s("2000-02-29")));
    assert_eq!(member(&vars, "estimate"), Some(&Json::Number(Number::Unsigned(3))));
    assert_eq!(member(&vars, "priority"), Some(&Json::Number(Number::Unsigned(4))));
    let fractional = CreateIssueRequest { estimate: Some(Number::Float(0x3FF8000000000000)), ..request.clone() };
    assert_eq!(
        create_issue_request(&fractional).unwrap_err(),
        ServiceError::Validation { field: "estimate".to_string() }
    );
    let far = CreateIssueRequest { due_date: Some(Timestamp { seconds: i64::MAX, nanos: 0 }), ..request };
    assert_eq!(
        create_issue_request(&far).unwrap_err(),
        ServiceError::Validation { field: "due_date".to_string() }
    );
}

#[test]
fn error_documents_keep_the_kind() {
    let doc = error_document(ServiceError::Validation { field: "user_id".to_string() });
    let error = member(&doc, "error").unwrap();
    assert_eq!(member(error, "kind"), Some(&s("ValidationError")));
    assert_eq!(member(error, "detail"), Some(&s("user_id")));

    let doc = error_document(ServiceError::Upstream(UpstreamError::Http {
        status: 503,
        body: "unavailable".to_string(),
    }));
    let error = member(&doc, "error").unwrap();
    assert_eq!(member(error, "kind"), Some(&s("UpstreamError")));
    assert_eq!(member(error, "detail"), Some(&s("unavailable")));
    assert_eq!(member(error, "status"), Some(&Json::Number(Number::Unsigned(503))));

    let doc = error_document(ServiceError::NotFound { entity: "user".to_string(), id: "u9".to_string() });
    let error = member(&doc, "error").unwrap();
    assert_eq!(member(error, "kind"), Some(&s("NotFound")));
    assert_eq!(member(error, "entity"), Some(&s("user")));
    assert_eq!(member(error, "detail"), Some(&s("u9")));

    let doc = error_document(ServiceError::UnknownTool { name: "x".to_string() });
    assert_eq!(member(member(&doc, "error").unwrap(), "kind"), Some(&s("UnknownTool")));
}
