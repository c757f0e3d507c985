//! The rs-agent capability: what a tool handler may ask of the MCP server, how its request is
//! passed on, and what it is answered.
use crate::json::{encodes, json_result, values_view, Json, JsonObject, JsonValue};
use crate::mcp::{
    catalogue_of, content_of, fault_text, items_or_fault, resources_list_result,
    resources_read_result, tool_answer_of, tools_call_result, Catalogue, Fault, McpError, Resource,
    ResourceList, ResourceReadResult, ResourceText, ToolAnswer, ToolCallResult,
};
use crate::session::{
    requested, requests_say_what_is_asked, resource_read_begun, resource_readings_name_the_resource,
    tool_call_begun, tool_calls_reach_the_server, Exchange, McpClient, SessionState, Stage,
};
use crate::text::{opt_text, same_text};
use vstd::prelude::*;
use vstd::string::*;

verus! {

// ---------------------------------------------------------------------------------------------
// Requests and refusals
// ---------------------------------------------------------------------------------------------
/// What a tool handler asks for.
#[derive(Clone, Debug, PartialEq, Eq)]
pub struct CapabilityRequest {
    /// The tool that the handler belongs to.
    pub tool_name: String,
    /// The capability that it asks.
    pub capability: String,
    pub method: String,
    pub arguments: JsonValue,
}

/// Why a request is not answered.
#[derive(Clone, Debug, PartialEq, Eq)]
pub enum CapabilityError {
    /// The run was cancelled.
    Cancelled,
    /// The capability has no such method, or the handler may not use it.
    MethodDenied { capability: String, method: String },
    /// The arguments have the wrong shape.
    InvalidArguments { message: String },
    /// The request failed.
    Execution { message: String },
}

/// The content of a [`CapabilityError`].
#[verifier::ext_equal]
pub enum Refusal {
    Cancelled,
    MethodDenied(Seq<char>, Seq<char>),
    InvalidArguments(Seq<char>),
    Execution(Seq<char>),
}

impl CapabilityError {
    /// The content of the error.
    pub open spec fn view(&self) -> Refusal {
        match self {
            CapabilityError::Cancelled => Refusal::Cancelled,
            CapabilityError::MethodDenied { capability, method } => Refusal::MethodDenied(
                capability@,
                method@,
            ),
            CapabilityError::InvalidArguments { message } => Refusal::InvalidArguments(message@),
            CapabilityError::Execution { message } => Refusal::Execution(message@),
        }
    }
}

/// What the handler is told of an error of the session: a cancellation stays one, anything else
/// is described.
pub open spec fn refusal_of(fault: Fault) -> Refusal {
    match fault {
        Fault::Cancelled => Refusal::Cancelled,
        _ => Refusal::Execution(fault_text(fault)),
    }
}

/// Describes an error of the session to the handler.
pub fn map_mcp_error(error: McpError) -> (r: CapabilityError)
    ensures
        r@ == refusal_of(error@),
{
    match error {
        McpError::Cancelled => CapabilityError::Cancelled,
        error => CapabilityError::Execution { message: error.describe() },
    }
}

// ---------------------------------------------------------------------------------------------
// Grants
// ---------------------------------------------------------------------------------------------
/// An operation of the MCP server.
#[derive(Clone, Copy, Debug, PartialEq, Eq, Structural)]
pub enum McpOperation {
    Call,
    ListResources,
    ReadResource,
}

/// The right of the handler of one tool to use one operation.
#[derive(Clone, Debug, PartialEq, Eq)]
pub struct Grant {
    pub operation: McpOperation,
    pub tool: String,
}

/// The grants of the capability. A grant is an operation and the name of a tool.
#[derive(Clone, Debug, PartialEq, Eq)]
pub struct RunebenchMcpCapability {
    pub grants: Vec<Grant>,
}

/// The contents of a list of grants.
pub open spec fn grants_view(grants: Seq<Grant>) -> Seq<(McpOperation, Seq<char>)> {
    grants.map_values(|grant: Grant| (grant.operation, grant.tool@))
}

/// The operations that are granted, each to the handler of one tool.
pub open spec fn fixed_grants() -> Seq<(McpOperation, Seq<char>)> {
    seq![
        (McpOperation::Call, "execute_code"@),
        (McpOperation::Call, "list_bots"@),
        (McpOperation::Call, "disconnect_bot"@),
        (McpOperation::ListResources, "rs_agent_list_resources"@),
        (McpOperation::ReadResource, "rs_agent_read_resource"@),
    ]
}

/// The operation that a method stands for.
pub open spec fn operation_of(method: Seq<char>) -> Option<McpOperation> {
    if method == "tools.call"@ {
        Some(McpOperation::Call)
    } else if method == "resources.list"@ {
        Some(McpOperation::ListResources)
    } else if method == "resources.read"@ {
        Some(McpOperation::ReadResource)
    } else {
        None
    }
}

/// The verdict of the capability manifest on an operation.
#[derive(Clone, Debug, PartialEq, Eq)]
pub enum Verdict {
    /// The manifest grants the operation.
    Granted,
    /// There can be no such operation, for the given reason.
    Invalid(String),
    /// The manifest does not grant the operation, for the given reason.
    Denied(String),
}

/// The content of a [`Verdict`].
#[verifier::ext_equal]
pub enum Judgement {
    Granted,
    Invalid(Seq<char>),
    Denied(Seq<char>),
}

impl Verdict {
    /// The content of the verdict.
    pub open spec fn view(&self) -> Judgement {
        match self {
            Verdict::Granted => Judgement::Granted,
            Verdict::Invalid(reason) => Judgement::Invalid(reason@),
            Verdict::Denied(reason) => Judgement::Denied(reason@),
        }
    }
}

/// Whether a closure judges operations by the given function.
pub open spec fn judges<A: Fn(McpOperation, &str, &JsonValue) -> Verdict>(
    judge: A,
    meaning: spec_fn(McpOperation, Seq<char>, Json) -> Judgement,
) -> bool {
    forall|operation: McpOperation, tool: &str, arguments: &JsonValue, r: Verdict|
        #[trigger] call_ensures(judge, (operation, tool, arguments), r) ==> r@ == meaning(
            operation,
            tool@,
            arguments@,
        )
}

// ---------------------------------------------------------------------------------------------
// Passing a request on
// ---------------------------------------------------------------------------------------------
/// What the server is asked for.
#[derive(Clone, Debug, PartialEq, Eq)]
pub enum CapabilityCall {
    Tool { name: String, arguments: JsonValue },
    ListResources,
    ReadResource { uri: String },
}

/// The content of a [`CapabilityCall`].
#[verifier::ext_equal]
pub enum Plan {
    Tool(Seq<char>, Json),
    ListResources,
    ReadResource(Seq<char>),
}

impl CapabilityCall {
    /// The content of the call.
    pub open spec fn view(&self) -> Plan {
        match self {
            CapabilityCall::Tool { name, arguments } => Plan::Tool(name@, arguments@),
            CapabilityCall::ListResources => Plan::ListResources,
            CapabilityCall::ReadResource { uri } => Plan::ReadResource(uri@),
        }
    }
}

/// The arguments that `execute_code` is called with: the bot is always the agent, and the time
/// limit goes by the name that the server knows.
pub open spec fn execute_code_arguments(fields: Map<Seq<char>, Json>) -> Map<Seq<char>, Json> {
    let named = fields.insert("bot_name"@, Json::Text("agent"@));
    if named.contains_key("timeout_minutes"@) {
        named.remove("timeout_minutes"@).insert("timeout"@, named["timeout_minutes"@])
    } else {
        named
    }
}

/// The arguments that a tool is called with.
pub open spec fn normalized(tool_name: Seq<char>, arguments: Json) -> Result<Json, Seq<char>> {
    match arguments {
        Json::Object(fields) => if tool_name == "execute_code"@ {
            Ok(Json::Object(execute_code_arguments(fields)))
        } else {
            Ok(arguments)
        },
        _ => Err("rs-agent tool arguments must be a JSON object"@),
    }
}

/// What the server is asked for on a request whose operation is granted.
pub open spec fn plan_of(
    operation: McpOperation,
    tool_name: Seq<char>,
    arguments: Json,
) -> Result<Plan, Refusal> {
    match operation {
        McpOperation::Call => match normalized(tool_name, arguments) {
            Ok(arguments) => Ok(Plan::Tool(tool_name, arguments)),
            Err(_) => Err(
                Refusal::InvalidArguments("rs-agent tools.call arguments must be a JSON object"@),
            ),
        },
        McpOperation::ListResources => Ok(Plan::ListResources),
        McpOperation::ReadResource => match arguments.field("uri"@) {
            Some(Json::Text(uri)) => if uri.len() > 0 {
                Ok(Plan::ReadResource(uri))
            } else {
                Err(
                    Refusal::InvalidArguments(
                        "rs-agent resources.read requires a non-empty uri string"@,
                    ),
                )
            },
            _ => Err(
                Refusal::InvalidArguments(
                    "rs-agent resources.read requires a non-empty uri string"@,
                ),
            ),
        },
    }
}

/// What becomes of a request: in a cancelled run it is refused; a method that there is not, and
/// an operation that the manifest does not grant, are denied; anything else is passed on.
pub open spec fn admitted(
    request: CapabilityRequest,
    cancelled: bool,
    judge: spec_fn(McpOperation, Seq<char>, Json) -> Judgement,
) -> Result<Plan, Refusal> {
    if cancelled {
        Err(Refusal::Cancelled)
    } else {
        match operation_of(request.method@) {
            None => Err(Refusal::MethodDenied(request.capability@, request.method@)),
            Some(operation) => match judge(operation, request.tool_name@, request.arguments@) {
                Judgement::Invalid(reason) => Err(Refusal::Execution(reason)),
                Judgement::Denied(reason) => Err(Refusal::MethodDenied(request.capability@, reason)),
                Judgement::Granted => plan_of(operation, request.tool_name@, request.arguments@),
            },
        }
    }
}

/// The content of a call, or of the error about it.
pub open spec fn plan_or_refusal(r: Result<CapabilityCall, CapabilityError>) -> Result<
    Plan,
    Refusal,
> {
    match r {
        Ok(call) => Ok(call@),
        Err(error) => Err(error@),
    }
}

/// Adds a grant to a list.
fn add_grant(grants: &mut Vec<Grant>, operation: McpOperation, tool: &str)
    ensures
        grants_view(final(grants)@) == grants_view(old(grants)@).push((operation, tool@)),
{
    let ghost before = grants@;
    grants.push(Grant { operation, tool: tool.to_owned() });
    assert(grants_view(grants@) =~= grants_view(before).push((operation, tool@)));
}

impl RunebenchMcpCapability {
    /// The capability with its fixed grants.
    pub fn new() -> (r: Self)
        ensures
            grants_view(r.grants@) == fixed_grants(),
    {
        let mut grants: Vec<Grant> = Vec::new();
        assert(grants_view(grants@) =~= Seq::<(McpOperation, Seq<char>)>::empty());
        add_grant(&mut grants, McpOperation::Call, "execute_code");
        add_grant(&mut grants, McpOperation::Call, "list_bots");
        add_grant(&mut grants, McpOperation::Call, "disconnect_bot");
        add_grant(&mut grants, McpOperation::ListResources, "rs_agent_list_resources");
        add_grant(&mut grants, McpOperation::ReadResource, "rs_agent_read_resource");
        assert(grants_view(grants@) =~= fixed_grants());
        RunebenchMcpCapability { grants }
    }

    /// The operation that a request asks for.
    pub fn operation_for(request: &CapabilityRequest) -> (r: Result<McpOperation, CapabilityError>)
        ensures
            match r {
                Ok(operation) => operation_of(request.method@) == Some(operation),
                Err(error) => operation_of(request.method@) is None && error@
                    == Refusal::MethodDenied(request.capability@, request.method@),
            },
    {
        let method = request.method.as_str();
        if same_text(method, "tools.call") {
            Ok(McpOperation::Call)
        } else if same_text(method, "resources.list") {
            Ok(McpOperation::ListResources)
        } else if same_text(method, "resources.read") {
            Ok(McpOperation::ReadResource)
        } else {
            Err(
                CapabilityError::MethodDenied {
                    capability: request.capability.clone(),
                    method: request.method.clone(),
                },
            )
        }
    }

    /// The arguments that a tool is called with.
    pub fn normalize_tool_arguments(tool_name: &str, arguments: &JsonValue) -> (r: Result<
        JsonValue,
        String,
    >)
        ensures
            json_result(r) == normalized(tool_name@, arguments@),
    {
        match arguments {
            JsonValue::Object(object) => {
                let mut fields = object.clone();
                if same_text(tool_name, "execute_code") {
                    fields.insert("bot_name".to_owned(), JsonValue::text("agent"));
                    let ghost named = fields@;
                    match fields.remove("timeout_minutes") {
                        Some(timeout) => {
                            fields.insert("timeout".to_owned(), timeout);
                        },
                        None => {
                            assert(named.remove("timeout_minutes"@) =~= named);
                        },
                    }
                }
                Ok(JsonValue::Object(fields))
            },
            _ => Err(String::from_str("rs-agent tool arguments must be a JSON object")),
        }
    }

    /// What the server is asked for on a request whose operation is granted.
    fn plan(operation: McpOperation, request: &CapabilityRequest) -> (r: Result<
        CapabilityCall,
        CapabilityError,
    >)
        ensures
            plan_or_refusal(r) == plan_of(operation, request.tool_name@, request.arguments@),
    {
        match operation {
            McpOperation::Call => {
                match Self::normalize_tool_arguments(
                    request.tool_name.as_str(),
                    &request.arguments,
                ) {
                    Ok(arguments) => Ok(
                        CapabilityCall::Tool { name: request.tool_name.clone(), arguments },
                    ),
                    Err(_) => Err(
                        CapabilityError::InvalidArguments {
                            message: String::from_str(
                                "rs-agent tools.call arguments must be a JSON object",
                            ),
                        },
                    ),
                }
            },
            McpOperation::ListResources => Ok(CapabilityCall::ListResources),
            McpOperation::ReadResource => {
                if let Some(JsonValue::String(uri)) = request.arguments.get("uri") {
                    if !uri.as_str().is_empty() {
                        return Ok(CapabilityCall::ReadResource { uri: uri.clone() });
                    }
                }
                Err(
                    CapabilityError::InvalidArguments {
                        message: String::from_str(
                            "rs-agent resources.read requires a non-empty uri string",
                        ),
                    },
                )
            },
        }
    }

    /// Decides what becomes of a request. `judge` is the capability manifest, which is asked on
    /// every request.
    pub fn admit_request<A: Fn(McpOperation, &str, &JsonValue) -> Verdict>(
        request: &CapabilityRequest,
        cancelled: bool,
        judge: A,
    ) -> (r: Result<CapabilityCall, CapabilityError>)
        requires
            forall|operation: McpOperation, tool: &str, arguments: &JsonValue|
                call_requires(judge, (operation, tool, arguments)),
        ensures
            forall|meaning: spec_fn(McpOperation, Seq<char>, Json) -> Judgement| #[trigger]
                judges(judge, meaning) ==> plan_or_refusal(r) == admitted(
                    *request,
                    cancelled,
                    meaning,
                ),
    {
        if cancelled {
            return Err(CapabilityError::Cancelled);
        }
        let operation = match Self::operation_for(request) {
            Ok(operation) => operation,
            Err(error) => return Err(error),
        };
        match judge(operation, request.tool_name.as_str(), &request.arguments) {
            Verdict::Granted => Self::plan(operation, request),
            Verdict::Invalid(reason) => Err(CapabilityError::Execution { message: reason }),
            Verdict::Denied(reason) => Err(
                CapabilityError::MethodDenied {
                    capability: request.capability.clone(),
                    method: reason,
                },
            ),
        }
    }
}

/// How a call is begun.
pub open spec fn begun(
    client: SessionState,
    plan: Plan,
    cancelled: bool,
    encode: spec_fn(Json) -> Result<Seq<char>, Seq<char>>,
) -> (SessionState, Stage) {
    match plan {
        Plan::Tool(name, arguments) => tool_call_begun(client, name, arguments, cancelled, encode),
        Plan::ListResources => requested(
            client,
            "resources/list"@,
            Json::Object(Map::empty()),
            cancelled,
            encode,
        ),
        Plan::ReadResource(uri) => resource_read_begun(client, uri, cancelled, encode),
    }
}

impl CapabilityCall {
    /// Begins the call. `encode` is the JSON writer.
    pub fn begin<E: Fn(&JsonValue) -> Result<String, String>>(
        &self,
        client: &mut McpClient,
        cancelled: bool,
        encode: &E,
    ) -> (r: Exchange)
        requires
            forall|value: &JsonValue| call_requires(*encode, (value,)),
        ensures
            forall|meaning: spec_fn(Json) -> Result<Seq<char>, Seq<char>>| #[trigger]
                encodes(*encode, meaning) ==> (final(client)@, r@) == begun(
                    old(client)@,
                    self@,
                    cancelled,
                    meaning,
                ),
    {
        match self {
            CapabilityCall::Tool { name, arguments } => client.tools_call(
                name.as_str(),
                arguments,
                cancelled,
                encode,
            ),
            CapabilityCall::ListResources => client.resources_list(cancelled, encode),
            CapabilityCall::ReadResource { uri } => client.resources_read(
                uri.as_str(),
                cancelled,
                encode,
            ),
        }
    }
}

// ---------------------------------------------------------------------------------------------
// Answering
// ---------------------------------------------------------------------------------------------
/// A text that may be absent, as a JSON value.
pub open spec fn text_or_null(text: Option<Seq<char>>) -> Json {
    match text {
        Some(text) => Json::Text(text),
        None => Json::Null,
    }
}

/// An answer without details.
pub open spec fn plain_answer(content: Seq<char>, is_error: bool) -> Map<Seq<char>, Json> {
    Map::<Seq<char>, Json>::empty().insert("content"@, Json::Text(content)).insert(
        "is_error"@,
        Json::Bool(is_error),
    )
}

/// What the handler is answered to a call of a tool.
pub open spec fn tool_response(
    answer: ToolAnswer,
    encode: spec_fn(Json) -> Result<Seq<char>, Seq<char>>,
) -> Result<Json, Refusal> {
    let details = match answer.structured_content {
        None => Ok(None),
        Some(value) => match encode(value) {
            Ok(text) => Ok(Some(text)),
            Err(error) => Err(
                Refusal::Execution("cannot encode MCP structured content: "@ + error),
            ),
        },
    };
    match details {
        Err(refusal) => Err(refusal),
        Ok(details) => match content_of(answer.content, encode) {
            Err(fault) => Err(refusal_of(fault)),
            Ok(content) => Ok(
                Json::Object(
                    plain_answer(content, answer.is_error).insert(
                        "details_json"@,
                        text_or_null(details),
                    ),
                ),
            ),
        },
    }
}

/// A resource as the handler sees it.
pub open spec fn resource_json(resource: ResourceText) -> Json {
    Json::Object(
        Map::<Seq<char>, Json>::empty().insert("uri"@, Json::Text(resource.uri)).insert(
            "name"@,
            text_or_null(resource.name),
        ).insert("description"@, text_or_null(resource.description)).insert(
            "mimeType"@,
            text_or_null(resource.mime_type),
        ),
    )
}

/// What the handler is answered to a listing of the resources.
pub open spec fn list_response(
    catalogue: Catalogue,
    encode: spec_fn(Json) -> Result<Seq<char>, Seq<char>>,
) -> Result<Json, Refusal> {
    match encode(Json::Array(catalogue.resources.map_values(|r: ResourceText| resource_json(r)))) {
        Ok(text) => Ok(Json::Object(plain_answer(text, false))),
        Err(error) => Err(Refusal::Execution("cannot encode MCP resource list: "@ + error)),
    }
}

/// What the handler is answered to reading a resource.
pub open spec fn read_response(
    contents: Seq<Json>,
    encode: spec_fn(Json) -> Result<Seq<char>, Seq<char>>,
) -> Result<Json, Refusal> {
    match content_of(contents, encode) {
        Ok(text) => Ok(Json::Object(plain_answer(text, false))),
        Err(fault) => Err(refusal_of(fault)),
    }
}

/// What the handler is answered, by what the server replied.
pub open spec fn answered(
    plan: Plan,
    reply: Result<Json, Fault>,
    encode: spec_fn(Json) -> Result<Seq<char>, Seq<char>>,
) -> Result<Json, Refusal> {
    match reply {
        Err(fault) => Err(refusal_of(fault)),
        Ok(reply) => match plan {
            Plan::Tool(_, _) => match tool_answer_of(reply) {
                Ok(answer) => tool_response(answer, encode),
                Err(fault) => Err(refusal_of(fault)),
            },
            Plan::ListResources => match catalogue_of(reply) {
                Ok(catalogue) => list_response(catalogue, encode),
                Err(fault) => Err(refusal_of(fault)),
            },
            Plan::ReadResource(_) => match items_or_fault(
                reply.field("contents"@),
                "resources/read.contents was not an array"@,
            ) {
                Ok(contents) => read_response(contents, encode),
                Err(fault) => Err(refusal_of(fault)),
            },
        },
    }
}

/// The content of an answer, or of the error about it.
pub open spec fn answer_or_refusal(r: Result<JsonValue, CapabilityError>) -> Result<
    Json,
    Refusal,
> {
    match r {
        Ok(value) => Ok(value@),
        Err(error) => Err(error@),
    }
}

/// The content of a reply, or of the error about it.
pub open spec fn reply_content(r: Result<JsonValue, McpError>) -> Result<Json, Fault> {
    match r {
        Ok(value) => Ok(value@),
        Err(error) => Err(error@),
    }
}

/// Takes a text that may be absent as a JSON value.
fn text_value(text: &Option<String>) -> (r: JsonValue)
    ensures
        r@ == text_or_null(opt_text(*text)),
{
    match text {
        Some(text) => JsonValue::String(text.clone()),
        None => JsonValue::Null,
    }
}

/// Makes an answer without details.
fn answer_object(content: String, is_error: bool) -> (r: JsonObject)
    ensures
        r@ == plain_answer(content@, is_error),
{
    let mut object = JsonObject::new();
    object.insert("content".to_owned(), JsonValue::String(content));
    object.insert("is_error".to_owned(), JsonValue::Bool(is_error));
    object
}

/// Answers a call of a tool.
fn answer_tool_call<E: Fn(&JsonValue) -> Result<String, String>>(
    result: &ToolCallResult,
    encode: &E,
) -> (r: Result<JsonValue, CapabilityError>)
    requires
        forall|value: &JsonValue| call_requires(*encode, (value,)),
    ensures
        forall|meaning: spec_fn(Json) -> Result<Seq<char>, Seq<char>>| #[trigger]
            encodes(*encode, meaning) ==> answer_or_refusal(r) == tool_response(result@, meaning),
{
    let details: Option<String> = match &result.structured_content {
        None => None,
        Some(value) => match encode(value) {
            Ok(text) => Some(text),
            Err(error) => {
                let mut message = String::from_str("cannot encode MCP structured content: ");
                message.append(error.as_str());
                return Err(CapabilityError::Execution { message });
            },
        },
    };
    let content = match result.content_text(encode) {
        Ok(content) => content,
        Err(error) => return Err(map_mcp_error(error)),
    };
    let mut object = answer_object(content, result.is_error);
    object.insert("details_json".to_owned(), text_value(&details));
    Ok(JsonValue::Object(object))
}

/// Takes a resource as the handler sees it.
fn resource_value(resource: &Resource) -> (r: JsonValue)
    ensures
        r@ == resource_json(resource@),
{
    let mut object = JsonObject::new();
    object.insert("uri".to_owned(), JsonValue::String(resource.uri.clone()));
    object.insert("name".to_owned(), text_value(&resource.name));
    object.insert("description".to_owned(), text_value(&resource.description));
    object.insert("mimeType".to_owned(), text_value(&resource.mime_type));
    JsonValue::Object(object)
}

/// Answers a listing of the resources.
fn answer_resource_list<E: Fn(&JsonValue) -> Result<String, String>>(
    result: &ResourceList,
    encode: &E,
) -> (r: Result<JsonValue, CapabilityError>)
    requires
        forall|value: &JsonValue| call_requires(*encode, (value,)),
    ensures
        forall|meaning: spec_fn(Json) -> Result<Seq<char>, Seq<char>>| #[trigger]
            encodes(*encode, meaning) ==> answer_or_refusal(r) == list_response(result@, meaning),
{
    let mut values: Vec<JsonValue> = Vec::new();
    let mut i: usize = 0;
    while i < result.resources.len()
        invariant
            i <= result.resources@.len(),
            values@.len() == i,
            forall|j: int|
                0 <= j < i ==> (#[trigger] values@[j])@ == resource_json(result.resources@[j]@),
        decreases result.resources@.len() - i,
    {
        values.push(resource_value(&result.resources[i]));
        i = i + 1;
    }
    assert(values_view(values@) =~= result@.resources.map_values(
        |r: ResourceText| resource_json(r),
    ));
    match encode(&JsonValue::Array(values)) {
        Ok(text) => Ok(JsonValue::Object(answer_object(text, false))),
        Err(error) => {
            let mut message = String::from_str("cannot encode MCP resource list: ");
            message.append(error.as_str());
            Err(CapabilityError::Execution { message })
        },
    }
}

/// Answers reading a resource.
fn answer_resource_read<E: Fn(&JsonValue) -> Result<String, String>>(
    result: &ResourceReadResult,
    encode: &E,
) -> (r: Result<JsonValue, CapabilityError>)
    requires
        forall|value: &JsonValue| call_requires(*encode, (value,)),
    ensures
        forall|meaning: spec_fn(Json) -> Result<Seq<char>, Seq<char>>| #[trigger]
            encodes(*encode, meaning) ==> answer_or_refusal(r) == read_response(
                values_view(result.contents@),
                meaning,
            ),
{
    match result.content_text(encode) {
        Ok(content) => Ok(JsonValue::Object(answer_object(content, false))),
        Err(error) => Err(map_mcp_error(error)),
    }
}

impl CapabilityCall {
    /// Answers the handler, by what the server replied. `encode` is the JSON writer.
    pub fn respond<E: Fn(&JsonValue) -> Result<String, String>>(
        &self,
        reply: Result<JsonValue, McpError>,
        encode: &E,
    ) -> (r: Result<JsonValue, CapabilityError>)
        requires
            forall|value: &JsonValue| call_requires(*encode, (value,)),
        ensures
            forall|meaning: spec_fn(Json) -> Result<Seq<char>, Seq<char>>| #[trigger]
                encodes(*encode, meaning) ==> answer_or_refusal(r) == answered(
                    self@,
                    reply_content(reply),
                    meaning,
                ),
    {
        let reply = match reply {
            Ok(reply) => reply,
            Err(error) => return Err(map_mcp_error(error)),
        };
        match self {
            CapabilityCall::Tool { name: _, arguments: _ } => match tools_call_result(&reply) {
                Ok(result) => answer_tool_call(&result, encode),
                Err(error) => Err(map_mcp_error(error)),
            },
            CapabilityCall::ListResources => match resources_list_result(&reply) {
                Ok(result) => answer_resource_list(&result, encode),
                Err(error) => Err(map_mcp_error(error)),
            },
            CapabilityCall::ReadResource { uri: _ } => match resources_read_result(&reply) {
                Ok(result) => answer_resource_read(&result, encode),
                Err(error) => Err(map_mcp_error(error)),
            },
        }
    }
}

/// The answer of a request, where the run may have been cancelled meanwhile.
pub open spec fn settled(cancelled: bool, answer: Result<Json, Refusal>) -> Result<Json, Refusal> {
    if cancelled {
        Err(Refusal::Cancelled)
    } else {
        answer
    }
}

/// Settles the answer of a request: what came of it counts for nothing where the run was
/// cancelled meanwhile.
pub fn settle(cancelled: bool, answer: Result<JsonValue, CapabilityError>) -> (r: Result<
    JsonValue,
    CapabilityError,
>)
    ensures
        answer_or_refusal(r) == (if cancelled {
            Err(Refusal::Cancelled)
        } else {
            answer_or_refusal(answer)
        }),
        answer_or_refusal(r) == settled(cancelled, answer_or_refusal(answer)),
{
    if cancelled {
        Err(CapabilityError::Cancelled)
    } else {
        answer
    }
}

// ---------------------------------------------------------------------------------------------
// Laws
// ---------------------------------------------------------------------------------------------
/// Whether a judge grants nothing but the fixed grants of the capability.
pub open spec fn keeps_to_the_grants(
    judge: spec_fn(McpOperation, Seq<char>, Json) -> Judgement,
) -> bool {
    forall|operation: McpOperation, tool: Seq<char>, arguments: Json|
        #[trigger] judge(operation, tool, arguments) is Granted ==> fixed_grants().contains(
            (operation, tool),
        )
}

/// No request expands the authority of the capability, whatever its method, its tool and its
/// arguments are: only the granted tools are called, and resources are listed and read for the
/// tools that may do so.
pub proof fn only_granted_operations_are_passed_on(
    request: CapabilityRequest,
    cancelled: bool,
    judge: spec_fn(McpOperation, Seq<char>, Json) -> Judgement,
)
    requires
        keeps_to_the_grants(judge),
        admitted(request, cancelled, judge) is Ok,
    ensures
        !cancelled,
        match admitted(request, cancelled, judge)->Ok_0 {
            Plan::Tool(name, _) => name == request.tool_name@ && (name == "execute_code"@ || name
                == "list_bots"@ || name == "disconnect_bot"@),
            Plan::ListResources => request.tool_name@ == "rs_agent_list_resources"@,
            Plan::ReadResource(_) => request.tool_name@ == "rs_agent_read_resource"@,
        },
{
    let operation = operation_of(request.method@)->0;
    assert(judge(operation, request.tool_name@, request.arguments@) is Granted);
    assert(fixed_grants().contains((operation, request.tool_name@)));
}

/// Code is always executed for the agent's own bot, and the server never sees the handler's name
/// for the time limit.
pub proof fn code_runs_for_the_agent(arguments: Json)
    requires
        arguments is Object,
    ensures
        ({
            let result = normalized("execute_code"@, arguments);
            &&& result is Ok
            &&& result->Ok_0.field("bot_name"@) == Some(Json::Text("agent"@))
            &&& result->Ok_0.field("timeout_minutes"@) is None
        }),
{
    lemma_argument_names();
}

/// The time limit that the handler gives is the one that the server gets; without one, the
/// server's own field is left as it is.
pub proof fn time_limits_are_passed_on(arguments: Json)
    requires
        arguments is Object,
    ensures
        normalized("execute_code"@, arguments)->Ok_0.field("timeout"@) == (
        match arguments.field("timeout_minutes"@) {
            Some(limit) => Some(limit),
            None => arguments.field("timeout"@),
        }),
{
    lemma_argument_names();
}

/// All other arguments are passed on as they are, and so are all arguments of the other tools.
pub proof fn other_arguments_are_unchanged(
    tool_name: Seq<char>,
    arguments: Json,
    name: Seq<char>,
)
    requires
        arguments is Object,
        tool_name == "execute_code"@ ==> name != "bot_name"@ && name != "timeout_minutes"@ && name
            != "timeout"@,
    ensures
        normalized(tool_name, arguments)->Ok_0.field(name) == arguments.field(name),
{
}

/// Arguments that were normalized once are not changed by normalizing them again.
pub proof fn normalizing_twice_changes_nothing(tool_name: Seq<char>, arguments: Json)
    requires
        arguments is Object,
    ensures
        normalized(tool_name, normalized(tool_name, arguments)->Ok_0) == normalized(
            tool_name,
            arguments,
        ),
{
    lemma_argument_names();
    if tool_name == "execute_code"@ {
        let once = execute_code_arguments(arguments->Object_0);
        assert(!once.contains_key("timeout_minutes"@));
        assert(once.insert("bot_name"@, Json::Text("agent"@)) =~= once);
    }
}

proof fn lemma_argument_names()
    ensures
        "bot_name"@ != "timeout_minutes"@,
        "bot_name"@ != "timeout"@,
        "timeout_minutes"@ != "timeout"@,
{
    reveal_strlit("bot_name");
    reveal_strlit("timeout_minutes");
    reveal_strlit("timeout");
    assert("bot_name"@.len() == 8);
    assert("timeout"@.len() == 7);
    assert("timeout_minutes"@.len() == 15);
}

/// A request of a cancelled run is never passed on, and one that was cancelled while it was
/// under way is never answered.
pub proof fn cancelled_requests_get_no_answer(
    request: CapabilityRequest,
    judge: spec_fn(McpOperation, Seq<char>, Json) -> Judgement,
    plan: Plan,
    encode: spec_fn(Json) -> Result<Seq<char>, Seq<char>>,
)
    ensures
        admitted(request, true, judge) == Err::<Plan, Refusal>(Refusal::Cancelled),
        answered(plan, Err(Fault::Cancelled), encode) == Err::<Json, Refusal>(Refusal::Cancelled),
{
}

/// Each method of the capability stands for its own operation: a tool is called only on
/// `tools.call`, the resources are listed only on `resources.list`, one is read only on
/// `resources.read`, and any other method is denied by its name.
pub proof fn methods_stand_for_their_operations(
    request: CapabilityRequest,
    judge: spec_fn(McpOperation, Seq<char>, Json) -> Judgement,
)
    ensures
        admitted(request, false, judge) matches Ok(plan) ==> match plan {
            Plan::Tool(_, _) => request.method@ == "tools.call"@,
            Plan::ListResources => request.method@ == "resources.list"@,
            Plan::ReadResource(_) => request.method@ == "resources.read"@,
        },
        request.method@ != "tools.call"@ && request.method@ != "resources.list"@ && request.method@
            != "resources.read"@ ==> admitted(request, false, judge) == Err::<Plan, Refusal>(
            Refusal::MethodDenied(request.capability@, request.method@),
        ),
{
}

/// What the manifest is asked about is the operation of the request, for its tool and with its
/// arguments; what the manifest refuses is refused with its reason.
pub proof fn the_manifest_decides(
    request: CapabilityRequest,
    operation: McpOperation,
    judge: spec_fn(McpOperation, Seq<char>, Json) -> Judgement,
    reason: Seq<char>,
)
    requires
        (request.method@ == "tools.call"@ && operation == McpOperation::Call) || (request.method@
            == "resources.list"@ && operation == McpOperation::ListResources) || (request.method@
            == "resources.read"@ && operation == McpOperation::ReadResource),
    ensures
        judge(operation, request.tool_name@, request.arguments@) == Judgement::Denied(reason)
            ==> admitted(request, false, judge) == Err::<Plan, Refusal>(
            Refusal::MethodDenied(request.capability@, reason),
        ),
        judge(operation, request.tool_name@, request.arguments@) == Judgement::Invalid(reason)
            ==> admitted(request, false, judge) == Err::<Plan, Refusal>(Refusal::Execution(reason)),
        judge(operation, request.tool_name@, request.arguments@) is Granted ==> (admitted(
            request,
            false,
            judge,
        ) is Ok <==> match operation {
            McpOperation::Call => request.arguments@ is Object,
            McpOperation::ListResources => true,
            McpOperation::ReadResource => (request.arguments@.field("uri"@) matches Some(
                Json::Text(uri),
            ) && uri.len() > 0),
        }),
{
    lemma_methods();
}

proof fn lemma_methods()
    ensures
        "tools.call"@ != "resources.list"@,
        "tools.call"@ != "resources.read"@,
        "resources.list"@ != "resources.read"@,
{
    reveal_strlit("tools.call");
    reveal_strlit("resources.list");
    reveal_strlit("resources.read");
    assert("tools.call"@.len() == 10 && "resources.list"@.len() == 14);
    assert("resources.list"@[10] == 'l' && "resources.read"@[10] == 'r');
}

/// A granted call of a tool reaches the server: under the name of the tool, and with every argument
/// of the request, but for the bot, which is always the agent, and for the time limit of
/// `execute_code`, which goes by the name that the server knows. No argument is made up.
pub proof fn granted_calls_reach_the_server(
    client: SessionState,
    request: CapabilityRequest,
    judge: spec_fn(McpOperation, Seq<char>, Json) -> Judgement,
    encode: spec_fn(Json) -> Result<Seq<char>, Seq<char>>,
    name: Seq<char>,
) -> (message: Json)
    requires
        client.initialized,
        client.next_id < u64::MAX,
        request.method@ == "tools.call"@,
        request.arguments@ is Object,
        judge(McpOperation::Call, request.tool_name@, request.arguments@) is Granted,
    ensures
        admitted(request, false, judge) matches Ok(plan) && (encode(message) matches Ok(text) ==> begun(
            client,
            plan,
            false,
            encode,
        ).1 == Stage::Write(text.push('\n'), Some(client.next_id))),
        message.field("method"@) == Some(Json::Text("tools/call"@)),
        message.field("params"@) matches Some(params) && params.field("name"@) == Some(
            Json::Text(request.tool_name@),
        ) && (params.field("arguments"@) matches Some(arguments) && arguments is Object && (
        request.tool_name@ != "execute_code"@ ==> arguments == request.arguments@) && (
        request.tool_name@ == "execute_code"@ ==> {
            &&& arguments.field("bot_name"@) == Some(Json::Text("agent"@))
            &&& arguments.field("timeout_minutes"@) is None
            &&& arguments.field("timeout"@) == (match request.arguments@.field("timeout_minutes"@) {
                Some(limit) => Some(limit),
                None => request.arguments@.field("timeout"@),
            })
            &&& name != "bot_name"@ && name != "timeout_minutes"@ && name != "timeout"@
                ==> arguments.field(name) == request.arguments@.field(name)
        })),
{
    let arguments = normalized(request.tool_name@, request.arguments@)->Ok_0;
    if request.tool_name@ == "execute_code"@ {
        code_runs_for_the_agent(request.arguments@);
        time_limits_are_passed_on(request.arguments@);
    }
    tool_calls_reach_the_server(client, request.tool_name@, arguments, encode)
}

/// A granted reading of a resource asks the server for the very address of the request.
pub proof fn granted_readings_reach_the_server(
    client: SessionState,
    request: CapabilityRequest,
    judge: spec_fn(McpOperation, Seq<char>, Json) -> Judgement,
    encode: spec_fn(Json) -> Result<Seq<char>, Seq<char>>,
    uri: Seq<char>,
) -> (message: Json)
    requires
        client.initialized,
        client.next_id < u64::MAX,
        request.method@ == "resources.read"@,
        uri.len() > 0,
        request.arguments@.field("uri"@) == Some(Json::Text(uri)),
        judge(McpOperation::ReadResource, request.tool_name@, request.arguments@) is Granted,
    ensures
        admitted(request, false, judge) matches Ok(plan) && (encode(message) matches Ok(text) ==> begun(
            client,
            plan,
            false,
            encode,
        ).1 == Stage::Write(text.push('\n'), Some(client.next_id))),
        message.field("method"@) == Some(Json::Text("resources/read"@)),
        message.field("params"@) matches Some(params) && params.field("uri"@) == Some(
            Json::Text(uri),
        ),
{
    lemma_methods();
    resource_readings_name_the_resource(client, uri, encode)
}

/// A granted listing of the resources asks the server for the list.
pub proof fn granted_listings_reach_the_server(
    client: SessionState,
    request: CapabilityRequest,
    judge: spec_fn(McpOperation, Seq<char>, Json) -> Judgement,
    encode: spec_fn(Json) -> Result<Seq<char>, Seq<char>>,
) -> (message: Json)
    requires
        client.initialized,
        client.next_id < u64::MAX,
        request.method@ == "resources.list"@,
        judge(McpOperation::ListResources, request.tool_name@, request.arguments@) is Granted,
    ensures
        admitted(request, false, judge) matches Ok(plan) && (encode(message) matches Ok(text) ==> begun(
            client,
            plan,
            false,
            encode,
        ).1 == Stage::Write(text.push('\n'), Some(client.next_id))),
        message.field("method"@) == Some(Json::Text("resources/list"@)),
        message.field("params"@) == Some(Json::Object(Map::empty())),
{
    lemma_methods();
    requests_say_what_is_asked(client, "resources/list"@, Json::Object(Map::empty()), encode)
}

/// The grants of the capability are five: three tools may be called, and one tool each may list
/// and read the resources.
pub proof fn the_grants_are_five(operation: McpOperation, tool: Seq<char>)
    ensures
        fixed_grants().contains((operation, tool)) <==> match operation {
            McpOperation::Call => tool == "execute_code"@ || tool == "list_bots"@ || tool
                == "disconnect_bot"@,
            McpOperation::ListResources => tool == "rs_agent_list_resources"@,
            McpOperation::ReadResource => tool == "rs_agent_read_resource"@,
        },
{
    let grants = fixed_grants();
    assert(grants[0] == (McpOperation::Call, "execute_code"@));
    assert(grants[1] == (McpOperation::Call, "list_bots"@));
    assert(grants[2] == (McpOperation::Call, "disconnect_bot"@));
    assert(grants[3] == (McpOperation::ListResources, "rs_agent_list_resources"@));
    assert(grants[4] == (McpOperation::ReadResource, "rs_agent_read_resource"@));
}

proof fn lemma_answer_names()
    ensures
        "content"@ != "is_error"@,
        "content"@ != "details_json"@,
        "is_error"@ != "details_json"@,
        "uri"@ != "name"@,
        "uri"@ != "description"@,
        "uri"@ != "mimeType"@,
        "name"@ != "description"@,
        "name"@ != "mimeType"@,
        "description"@ != "mimeType"@,
{
    reveal_strlit("content");
    reveal_strlit("is_error");
    reveal_strlit("details_json");
    reveal_strlit("uri");
    reveal_strlit("name");
    reveal_strlit("description");
    reveal_strlit("mimeType");
    assert("content"@.len() == 7 && "is_error"@.len() == 8 && "details_json"@.len() == 12);
    assert("uri"@.len() == 3 && "name"@.len() == 4 && "description"@.len() == 11
        && "mimeType"@.len() == 8);
}

/// The handler is told what the tool answered: the text of its content, whether the tool says that
/// it is an error, and the JSON of its structured content, or null where there is none.
pub proof fn handlers_are_told_the_answer(
    name: Seq<char>,
    arguments: Json,
    reply: Json,
    encode: spec_fn(Json) -> Result<Seq<char>, Seq<char>>,
    answer: ToolAnswer,
    content: Seq<char>,
)
    requires
        tool_answer_of(reply) == Ok::<ToolAnswer, Fault>(answer),
        content_of(answer.content, encode) == Ok::<Seq<char>, Fault>(content),
    ensures
        ({
            let told = answered(Plan::Tool(name, arguments), Ok(reply), encode);
            match answer.structured_content {
                None => told matches Ok(value) && value.field("content"@) == Some(
                    Json::Text(content),
                ) && value.field("is_error"@) == Some(Json::Bool(answer.is_error)) && value.field(
                    "details_json"@,
                ) == Some(Json::Null),
                Some(structured) => match encode(structured) {
                    Ok(details) => told matches Ok(value) && value.field("content"@) == Some(
                        Json::Text(content),
                    ) && value.field("is_error"@) == Some(Json::Bool(answer.is_error))
                        && value.field("details_json"@) == Some(Json::Text(details)),
                    Err(error) => told == Err::<Json, Refusal>(
                        Refusal::Execution("cannot encode MCP structured content: "@ + error),
                    ),
                },
            }
        }),
{
    lemma_answer_names();
}

/// The handler is told the text of a resource that it reads, which is no error.
pub proof fn handlers_are_told_the_resource(
    uri: Seq<char>,
    reply: Json,
    contents: Seq<Json>,
    encode: spec_fn(Json) -> Result<Seq<char>, Seq<char>>,
    text: Seq<char>,
)
    requires
        reply.field("contents"@) == Some(Json::Array(contents)),
        content_of(contents, encode) == Ok::<Seq<char>, Fault>(text),
    ensures
        answered(Plan::ReadResource(uri), Ok(reply), encode) matches Ok(value) && value.field(
            "content"@,
        ) == Some(Json::Text(text)) && value.field("is_error"@) == Some(Json::Bool(false)),
{
    lemma_answer_names();
}

/// The handler is told the resources of a listing as JSON: one object for each resource, in order,
/// with its address, its name, its description and its type.
pub proof fn handlers_are_told_the_resources(
    reply: Json,
    listed: Catalogue,
    encode: spec_fn(Json) -> Result<Seq<char>, Seq<char>>,
) -> (items: Seq<Json>)
    requires
        catalogue_of(reply) == Ok::<Catalogue, Fault>(listed),
    ensures
        match encode(Json::Array(items)) {
            Ok(text) => answered(Plan::ListResources, Ok(reply), encode) matches Ok(value)
                && value.field("content"@) == Some(Json::Text(text)) && value.field("is_error"@)
                == Some(Json::Bool(false)),
            Err(error) => answered(Plan::ListResources, Ok(reply), encode) == Err::<Json, Refusal>(
                Refusal::Execution("cannot encode MCP resource list: "@ + error),
            ),
        },
        items.len() == listed.resources.len(),
        forall|i: int|
            0 <= i < items.len() ==> {
                let resource = listed.resources[i];
                &&& (#[trigger] items[i]).field("uri"@) == Some(Json::Text(resource.uri))
                &&& items[i].field("name"@) == Some(
                    match resource.name {
                        Some(text) => Json::Text(text),
                        None => Json::Null,
                    },
                )
                &&& items[i].field("description"@) == Some(
                    match resource.description {
                        Some(text) => Json::Text(text),
                        None => Json::Null,
                    },
                )
                &&& items[i].field("mimeType"@) == Some(
                    match resource.mime_type {
                        Some(text) => Json::Text(text),
                        None => Json::Null,
                    },
                )
            },
{
    lemma_answer_names();
    listed.resources.map_values(|r: ResourceText| resource_json(r))
}

/// What went wrong is told to the handler in full: a cancellation as one, and any other error by
/// its description.
pub proof fn handlers_are_told_what_went_wrong(
    plan: Plan,
    fault: Fault,
    encode: spec_fn(Json) -> Result<Seq<char>, Seq<char>>,
)
    ensures
        fault is Cancelled ==> answered(plan, Err(fault), encode) == Err::<Json, Refusal>(
            Refusal::Cancelled,
        ),
        !(fault is Cancelled) ==> answered(plan, Err(fault), encode) == Err::<Json, Refusal>(
            Refusal::Execution(fault_text(fault)),
        ),
{
}

/// An answer that came in time is passed on as it is; one that came after the cancellation of the run
/// is not passed on at all.
pub proof fn answers_come_in_time(answer: Result<Json, Refusal>, value: Json)
    ensures
        settled(false, answer) == answer,
        settled(true, answer) == Err::<Json, Refusal>(Refusal::Cancelled),
        settled(true, Ok(value)) is Err,
{
}

/// Whatever a cancelled run was about to ask of the server, nothing is sent, and the server is
/// terminated.
pub proof fn cancelled_calls_send_nothing(
    client: SessionState,
    plan: Plan,
    encode: spec_fn(Json) -> Result<Seq<char>, Seq<char>>,
)
    requires
        client.initialized,
        match plan {
            Plan::Tool(_, arguments) => arguments is Object,
            Plan::ListResources => true,
            Plan::ReadResource(uri) => uri.len() > 0,
        },
    ensures
        begun(client, plan, true, encode) == (client, Stage::Terminate),
{
}

}
