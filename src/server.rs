//! The protocol boundary: the tool and resource catalogs, and the decision of
//! what a tool call or a resource read asks the application to do.
use crate::error::{kind_name, kind_of, ServiceError, UpstreamError};
use crate::json::{
    entry_value, items_of, json_str, lookup, member, opt_view, put_entry, same_text, text_of,
    text_or_empty, Json, Number,
};
use crate::linear::client::{is_validation_error, text_member, text_member_or_empty};
use crate::ports::{McpResource, McpTool};
use vstd::prelude::*;

verus! {

pub const ASSIGNED_TICKETS_URI: &'static str = "linear://tickets/assigned";

pub const CURRENT_USER_URI: &'static str = "linear://user/current";

pub const JSON_MIME_TYPE: &'static str = "application/json";

/// What a tool call asks the application to do, its arguments validated.
#[derive(Debug, Clone, PartialEq, Eq)]
pub enum ToolCall {
    GetAssignedTickets { user_id: String },
    GetCurrentUser,
    SearchTickets { query: String },
    GetTicket { issue_id: String },
}

/// What a resource read asks the application to do.
#[derive(Debug, Clone, Copy, PartialEq, Eq, Structural)]
pub enum ResourceRead {
    /// The current user, then the tickets assigned to them.
    AssignedTickets,
    CurrentUser,
}

pub open spec fn is_tool_name(name: Seq<char>) -> bool {
    ||| name == "get_assigned_tickets"@
    ||| name == "get_current_user"@
    ||| name == "search_tickets"@
    ||| name == "get_ticket"@
}

pub open spec fn is_unknown_tool(e: ServiceError, name: Seq<char>) -> bool {
    match e {
        ServiceError::UnknownTool { name: n } => n@ == name,
        _ => false,
    }
}

/// The outcome of a call whose one argument `field` is a required string:
/// `make` of its text, or a validation failure naming the field.
pub open spec fn required_text_call(
    r: Result<ToolCall, ServiceError>,
    arguments: Json,
    field: Seq<char>,
    expected: spec_fn(Seq<char>, ToolCall) -> bool,
) -> bool {
    match text_of(member(arguments, field)) {
        Some(t) => r is Ok && expected(t, r->Ok_0),
        None => r is Err && is_validation_error(r->Err_0, field),
    }
}

pub open spec fn assigned_call(user: Seq<char>, c: ToolCall) -> bool {
    c matches ToolCall::GetAssignedTickets { user_id } && user_id@ == user
}

pub open spec fn ticket_call(id: Seq<char>, c: ToolCall) -> bool {
    c matches ToolCall::GetTicket { issue_id } && issue_id@ == id
}

/// Validates a tool call and names the application use case it runs. An
/// unknown tool or a missing required argument is refused here, so nothing
/// runs for it.
pub fn plan_tool_call(name: &str, arguments: &Json) -> (r: Result<ToolCall, ServiceError>)
    ensures
        !is_tool_name(name@) ==> r is Err && is_unknown_tool(r->Err_0, name@),
        name@ == "get_assigned_tickets"@ ==> required_text_call(
            r,
            *arguments,
            "user_id"@,
            |t: Seq<char>, c: ToolCall| assigned_call(t, c),
        ),
        name@ == "get_current_user"@ ==> r matches Ok(ToolCall::GetCurrentUser),
        name@ == "search_tickets"@ ==> (r matches Ok(ToolCall::SearchTickets { query }) && query@
            == text_or_empty(member(*arguments, "query"@))),
        name@ == "get_ticket"@ ==> required_text_call(
            r,
            *arguments,
            "issue_id"@,
            |t: Seq<char>, c: ToolCall| ticket_call(t, c),
        ),
{
    proof {
        reveal_strlit("get_assigned_tickets");
        reveal_strlit("get_current_user");
        reveal_strlit("search_tickets");
        reveal_strlit("get_ticket");
        assert("get_assigned_tickets"@.len() == 20 && "get_current_user"@.len() == 16);
        assert("search_tickets"@.len() == 14 && "get_ticket"@.len() == 10);
    }
    let tool: String = name.to_owned();
    if same_text(&tool, "get_assigned_tickets") {
        match text_member(arguments, "user_id") {
            Some(user_id) => Ok(ToolCall::GetAssignedTickets { user_id }),
            None => Err(ServiceError::Validation { field: "user_id".to_owned() }),
        }
    } else if same_text(&tool, "get_current_user") {
        Ok(ToolCall::GetCurrentUser)
    } else if same_text(&tool, "search_tickets") {
        Ok(ToolCall::SearchTickets { query: text_member_or_empty(arguments, "query") })
    } else if same_text(&tool, "get_ticket") {
        match text_member(arguments, "issue_id") {
            Some(issue_id) => Ok(ToolCall::GetTicket { issue_id }),
            None => Err(ServiceError::Validation { field: "issue_id".to_owned() }),
        }
    } else {
        Err(ServiceError::UnknownTool { name: tool })
    }
}

/// `schema` describes an object whose only property, when there is one, is
/// the string `property.0` described by `property.1`, and whose required
/// fields are `required`.
pub open spec fn schema_declares(
    schema: Json,
    property: Option<(Seq<char>, Seq<char>)>,
    required: Seq<Seq<char>>,
) -> bool {
    let properties = member(schema, "properties"@);
    &&& text_of(member(schema, "type"@)) == Some("object"@)
    &&& properties is Object
    &&& match property {
        Some((name, description)) => text_of(member(member(properties, name), "type"@)) == Some(
            "string"@,
        ) && text_of(member(member(properties, name), "description"@)) == Some(description)
            && properties->Object_0@.len() == 1,
        None => properties->Object_0@.len() == 0,
    }
    &&& items_of(member(schema, "required"@)) matches Some(items) && items.len() == required.len()
        && forall|i: int| 0 <= i < required.len() ==> text_of(#[trigger] items[i]) == Some(required[i])
}

/// The input schema of a tool with at most one string argument, which may be
/// required.
fn tool_schema(property: Option<(&str, &str)>, required: bool) -> (r: Json)
    requires
        required ==> property is Some,
    ensures
        schema_declares(
            r,
            match property {
                Some(p) => Some((p.0@, p.1@)),
                None => None,
            },
            match property {
                Some(p) => if required {
                    seq![p.0@]
                } else {
                    Seq::empty()
                },
                None => Seq::empty(),
            },
        ),
{
    proof {
        reveal_strlit("type");
        reveal_strlit("properties");
        reveal_strlit("required");
        reveal_strlit("description");
        assert("type"@.len() == 4 && "properties"@.len() == 10 && "required"@.len() == 8);
        assert("description"@.len() == 11);
    }
    let mut properties: Vec<(String, Json)> = Vec::new();
    let mut names: Vec<Json> = Vec::new();
    match property {
        Some((name, description)) => {
            let mut declared: Vec<(String, Json)> = Vec::new();
            assert(entry_value(declared@, "type"@) is None);
            put_entry(&mut declared, "type", json_str("string"));
            put_entry(&mut declared, "description", json_str(description));
            assert(entry_value(properties@, name@) is None);
            put_entry(&mut properties, name, Json::Object(declared));
            if required {
                names.push(json_str(name));
            }
        },
        None => {},
    }
    let mut schema: Vec<(String, Json)> = Vec::new();
    assert(entry_value(schema@, "type"@) is None);
    assert(entry_value(schema@, "properties"@) is None);
    assert(entry_value(schema@, "required"@) is None);
    put_entry(&mut schema, "type", json_str("object"));
    put_entry(&mut schema, "properties", Json::Object(properties));
    put_entry(&mut schema, "required", Json::Array(names));
    Json::Object(schema)
}

/// The tools on offer, in order: assigned tickets (requires `user_id`),
/// current user, text search (optional `query`), and one ticket (requires
/// `issue_id`).
pub fn list_tools() -> (r: Vec<McpTool>)
    ensures
        r@.len() == 4,
        r@[0].name@ == "get_assigned_tickets"@,
        r@[0].description@ == "Get tickets assigned to a specific user"@,
        schema_declares(
            r@[0].input_schema,
            Some(("user_id"@, "The ID of the user to get assigned tickets for"@)),
            seq!["user_id"@],
        ),
        r@[1].name@ == "get_current_user"@,
        r@[1].description@ == "Get information about the current authenticated user"@,
        schema_declares(r@[1].input_schema, None, Seq::empty()),
        r@[2].name@ == "search_tickets"@,
        r@[2].description@ == "Search for tickets using a text query"@,
        schema_declares(
            r@[2].input_schema,
            Some(("query"@, "Search query to find tickets"@)),
            Seq::empty(),
        ),
        r@[3].name@ == "get_ticket"@,
        r@[3].description@ == "Get a specific ticket by ID"@,
        schema_declares(
            r@[3].input_schema,
            Some(("issue_id"@, "The ID of the ticket to retrieve"@)),
            seq!["issue_id"@],
        ),
        forall|i: int| 0 <= i < r@.len() ==> (#[trigger] r@[i]).description@.len() > 0,
        forall|i: int| 0 <= i < r@.len() ==> is_tool_name((#[trigger] r@[i]).name@),
{
    proof {
        reveal_strlit("Get tickets assigned to a specific user");
        reveal_strlit("Get information about the current authenticated user");
        reveal_strlit("Search for tickets using a text query");
        reveal_strlit("Get a specific ticket by ID");
    }
    let mut tools: Vec<McpTool> = Vec::new();
    tools.push(
        McpTool {
            name: "get_assigned_tickets".to_owned(),
            description: "Get tickets assigned to a specific user".to_owned(),
            input_schema: tool_schema(
                Some(("user_id", "The ID of the user to get assigned tickets for")),
                true,
            ),
        },
    );
    tools.push(
        McpTool {
            name: "get_current_user".to_owned(),
            description: "Get information about the current authenticated user".to_owned(),
            input_schema: tool_schema(None, false),
        },
    );
    tools.push(
        McpTool {
            name: "search_tickets".to_owned(),
            description: "Search for tickets using a text query".to_owned(),
            input_schema: tool_schema(Some(("query", "Search query to find tickets")), false),
        },
    );
    tools.push(
        McpTool {
            name: "get_ticket".to_owned(),
            description: "Get a specific ticket by ID".to_owned(),
            input_schema: tool_schema(
                Some(("issue_id", "The ID of the ticket to retrieve")),
                true,
            ),
        },
    );
    tools
}

/// The resources on offer: the current user's assigned tickets, and the
/// current user; both are JSON.
pub fn list_resources() -> (r: Vec<McpResource>)
    ensures
        r@.len() == 2,
        r@[0].uri@ == ASSIGNED_TICKETS_URI@,
        r@[0].name@ == "Assigned Tickets"@,
        opt_view(r@[0].description) == Some("Tickets assigned to the current user"@),
        r@[1].uri@ == CURRENT_USER_URI@,
        r@[1].name@ == "Current User"@,
        opt_view(r@[1].description) == Some("Information about the current authenticated user"@),
        forall|i: int|
            0 <= i < r@.len() ==> ((#[trigger] r@[i]).mime_type matches Some(m) && m@
                == JSON_MIME_TYPE@),
{
    let mut resources: Vec<McpResource> = Vec::new();
    resources.push(
        McpResource {
            uri: ASSIGNED_TICKETS_URI.to_owned(),
            name: "Assigned Tickets".to_owned(),
            description: Some("Tickets assigned to the current user".to_owned()),
            mime_type: Some(JSON_MIME_TYPE.to_owned()),
        },
    );
    resources.push(
        McpResource {
            uri: CURRENT_USER_URI.to_owned(),
            name: "Current User".to_owned(),
            description: Some("Information about the current authenticated user".to_owned()),
            mime_type: Some(JSON_MIME_TYPE.to_owned()),
        },
    );
    resources
}

pub open spec fn is_unknown_resource(e: ServiceError, uri: Seq<char>) -> bool {
    match e {
        ServiceError::UnknownResource { uri: u } => u@ == uri,
        _ => false,
    }
}

/// Resolves a resource URI to the reads it needs; an unknown URI is refused.
pub fn plan_resource_read(uri: &str) -> (r: Result<ResourceRead, ServiceError>)
    ensures
        uri@ == ASSIGNED_TICKETS_URI@ ==> r == Ok::<ResourceRead, ServiceError>(
            ResourceRead::AssignedTickets,
        ),
        uri@ == CURRENT_USER_URI@ ==> r == Ok::<ResourceRead, ServiceError>(
            ResourceRead::CurrentUser,
        ),
        uri@ != ASSIGNED_TICKETS_URI@ && uri@ != CURRENT_USER_URI@ ==> r is Err
            && is_unknown_resource(r->Err_0, uri@),
{
    proof {
        reveal_strlit("linear://tickets/assigned");
        reveal_strlit("linear://user/current");
        assert(ASSIGNED_TICKETS_URI@.len() == 25 && CURRENT_USER_URI@.len() == 21);
    }
    let requested: String = uri.to_owned();
    if same_text(&requested, ASSIGNED_TICKETS_URI) {
        Ok(ResourceRead::AssignedTickets)
    } else if same_text(&requested, CURRENT_USER_URI) {
        Ok(ResourceRead::CurrentUser)
    } else {
        Err(ServiceError::UnknownResource { uri: requested })
    }
}

/// The contents of a read resource: its URI, JSON as its type, and `text`,
/// the serialized entity, and nothing else.
pub fn resource_contents(uri: &str, text: String) -> (r: Json)
    ensures
        r is Object && r->Object_0@.len() == 3,
        text_of(member(r, "uri"@)) == Some(uri@),
        text_of(member(r, "mimeType"@)) == Some(JSON_MIME_TYPE@),
        text_of(member(r, "text"@)) == Some(text@),
{
    proof {
        reveal_strlit("uri");
        reveal_strlit("mimeType");
        reveal_strlit("text");
        assert("uri"@.len() == 3 && "mimeType"@.len() == 8 && "text"@.len() == 4);
    }
    let mut entries: Vec<(String, Json)> = Vec::new();
    assert(entry_value(entries@, "uri"@) is None);
    assert(entry_value(entries@, "mimeType"@) is None);
    assert(entry_value(entries@, "text"@) is None);
    put_entry(&mut entries, "uri", json_str(uri));
    put_entry(&mut entries, "mimeType", json_str(JSON_MIME_TYPE));
    put_entry(&mut entries, "text", Json::Str(text));
    Json::Object(entries)
}

/// The detail a failure carries into its protocol encoding: the offending
/// field, identifier, name or message, or the backend's own error list.
pub open spec fn error_detail(e: ServiceError) -> Json {
    match e {
        ServiceError::Validation { field } => Json::Str(field),
        ServiceError::InvalidValue { field, .. } => Json::Str(field),
        ServiceError::NotFound { id, .. } => Json::Str(id),
        ServiceError::UnsupportedOperation { operation } => Json::Str(operation),
        ServiceError::UnsupportedFilter { dimension } => Json::Str(dimension),
        ServiceError::Upstream(UpstreamError::Http { body, .. }) => Json::Str(body),
        ServiceError::Upstream(UpstreamError::Graphql { errors }) => errors,
        ServiceError::Upstream(UpstreamError::Rejected { operation }) => Json::Str(operation),
        ServiceError::Upstream(UpstreamError::Transport { message }) => Json::Str(message),
        ServiceError::Decode { field } => Json::Str(field),
        ServiceError::UnknownTool { name } => Json::Str(name),
        ServiceError::UnknownResource { uri } => Json::Str(uri),
    }
}

/// The protocol encoding of a failure: `{"error": {"kind": .., "detail": ..}}`,
/// with the HTTP status of a failed backend answer, the entity that was not
/// found, and the value that was not accepted, when there is one. The kind is kept so callers can branch on it.
pub fn error_document(e: ServiceError) -> (r: Json)
    ensures
        text_of(member(member(r, "error"@), "kind"@)) == Some(kind_name(kind_of(e))),
        member(member(r, "error"@), "detail"@) == error_detail(e),
        e matches ServiceError::Upstream(UpstreamError::Http { status, .. }) ==> member(
            member(r, "error"@),
            "status"@,
        ) == Json::Number(Number::Unsigned(status as u64)),
        e matches ServiceError::InvalidValue { value, .. } ==> text_of(
            member(member(r, "error"@), "value"@),
        ) == Some(value@),
        e matches ServiceError::NotFound { entity, .. } ==> text_of(
            member(member(r, "error"@), "entity"@),
        ) == Some(entity@),
{
    proof {
        reveal_strlit("error");
        reveal_strlit("kind");
        reveal_strlit("detail");
        reveal_strlit("status");
        reveal_strlit("entity");
        reveal_strlit("value");
        assert("value"@.len() == 5);
        assert("kind"@.len() == 4 && "detail"@.len() == 6 && "status"@.len() == 6);
        assert("entity"@.len() == 6 && "detail"@[0] != "status"@[0]);
        assert("detail"@[0] != "entity"@[0] && "status"@[0] != "entity"@[0]);
    }
    let kind = e.kind();
    let mut fields: Vec<(String, Json)> = Vec::new();
    let ghost empty = fields@;
    assert(forall|k: Seq<char>| #[trigger] entry_value(empty, k) is None);
    put_entry(&mut fields, "kind", json_str(kind.name()));
    match e {
        ServiceError::Validation { field } => put_entry(&mut fields, "detail", Json::Str(field)),
        ServiceError::InvalidValue { field, value } => {
            put_entry(&mut fields, "detail", Json::Str(field));
            put_entry(&mut fields, "value", Json::Str(value));
        },
        ServiceError::NotFound { entity, id } => {
            put_entry(&mut fields, "detail", Json::Str(id));
            put_entry(&mut fields, "entity", Json::Str(entity));
        },
        ServiceError::UnsupportedOperation { operation } => put_entry(
            &mut fields,
            "detail",
            Json::Str(operation),
        ),
        ServiceError::UnsupportedFilter { dimension } => put_entry(
            &mut fields,
            "detail",
            Json::Str(dimension),
        ),
        ServiceError::Upstream(UpstreamError::Http { status, body }) => {
            put_entry(&mut fields, "detail", Json::Str(body));
            put_entry(&mut fields, "status", Json::Number(Number::Unsigned(status as u64)));
        },
        ServiceError::Upstream(UpstreamError::Graphql { errors }) => put_entry(
            &mut fields,
            "detail",
            errors,
        ),
        ServiceError::Upstream(UpstreamError::Rejected { operation }) => put_entry(
            &mut fields,
            "detail",
            Json::Str(operation),
        ),
        ServiceError::Upstream(UpstreamError::Transport { message }) => put_entry(
            &mut fields,
            "detail",
            Json::Str(message),
        ),
        ServiceError::Decode { field } => put_entry(&mut fields, "detail", Json::Str(field)),
        ServiceError::UnknownTool { name } => put_entry(&mut fields, "detail", Json::Str(name)),
        ServiceError::UnknownResource { uri } => put_entry(&mut fields, "detail", Json::Str(uri)),
    }
    let mut document: Vec<(String, Json)> = Vec::new();
    assert(entry_value(document@, "error"@) is None);
    put_entry(&mut document, "error", Json::Object(fields));
    Json::Object(document)
}

} // verus!
