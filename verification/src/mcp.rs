//! What the host and an MCP server tell each other: the configuration of the server, its
//! results, and the errors of a call.
use crate::json::{
    copy_values, encodes, opt_json, opt_json_ref, values_view, Json, JsonNumber, JsonObject,
    JsonValue,
};
use crate::process::{set_variable, CaptureFailure, Launch, LaunchText};
use crate::text::{
    copy_texts, join, joined, joined_lists_join, opt_text, path_debug_text, quote_path_debug, same_text,
    signed_decimal, signed_text, text_pairs, texts,
};
use vstd::prelude::*;
use vstd::string::*;

verus! {

// ---------------------------------------------------------------------------------------------
// Configuration
// ---------------------------------------------------------------------------------------------
/// The one MCP server process that a client owns.
///
/// The default is the production command; tests and other hosts can use another executable
/// under the same environment policy.
#[derive(Clone, Debug, PartialEq, Eq)]
pub struct McpClientConfig {
    /// The executable.
    pub command: String,
    /// The arguments of the executable.
    pub args: Vec<String>,
    /// The only `PATH` that the server gets.
    pub path: String,
    /// The `HOME` that the server gets, if any.
    pub home: Option<String>,
}

impl McpClientConfig {
    /// Whether the server gets the production environment.
    pub open spec fn has_production_environment(self) -> bool {
        &&& self.path@ == "/root/.bun/bin:/usr/local/bin:/usr/bin:/bin"@
        &&& opt_text(self.home) == Some("/root"@)
    }

    /// A command with the production environment.
    pub fn new(command: String, args: Vec<String>) -> (r: Self)
        ensures
            r.command == command,
            r.args == args,
            r.has_production_environment(),
    {
        McpClientConfig {
            command,
            args,
            path: String::from_str("/root/.bun/bin:/usr/local/bin:/usr/bin:/bin"),
            home: Some(String::from_str("/root")),
        }
    }

    /// The rs-agent MCP server of Runebench.
    pub fn runebench() -> (r: Self)
        ensures
            r.command@ == "bun"@,
            texts(r.args@) == seq!["run"@, "/app/mcp/server.ts"@],
            r.has_production_environment(),
    {
        let mut args: Vec<String> = Vec::new();
        args.push(String::from_str("run"));
        args.push(String::from_str("/app/mcp/server.ts"));
        assert(texts(args@) =~= seq!["run"@, "/app/mcp/server.ts"@]);
        McpClientConfig::new(String::from_str("bun"), args)
    }
}

/// The whole environment that a server gets: `PATH`, and `HOME` where one is configured.
pub open spec fn server_environment(config: McpClientConfig) -> Seq<(Seq<char>, Seq<char>)> {
    match config.home {
        Some(home) => seq![("PATH"@, config.path@), ("HOME"@, home@)],
        None => seq![("PATH"@, config.path@)],
    }
}

/// How a server is started: by the configured command with the configured arguments.
pub open spec fn server_launch(config: McpClientConfig) -> LaunchText {
    LaunchText {
        program: config.command@,
        arguments: texts(config.args@),
        environment: server_environment(config),
    }
}

impl McpClientConfig {
    /// The whole environment that the server gets, by names and values.
    pub fn environment(&self) -> (r: Vec<(String, String)>)
        ensures
            text_pairs(r@) == server_environment(*self),
    {
        let mut environment: Vec<(String, String)> = Vec::new();
        assert(text_pairs(environment@) =~= Seq::<(Seq<char>, Seq<char>)>::empty());
        set_variable(&mut environment, "PATH", self.path.as_str());
        if let Some(home) = &self.home {
            set_variable(&mut environment, "HOME", home.as_str());
        }
        assert(text_pairs(environment@) =~= server_environment(*self));
        environment
    }

    /// How the server is started.
    pub fn launch(&self) -> (r: Launch)
        ensures
            r@ == server_launch(*self),
    {
        Launch {
            program: self.command.clone(),
            arguments: copy_texts(&self.args),
            environment: self.environment(),
        }
    }
}

/// The Runebench server is started as `bun run /app/mcp/server.ts`, and gets a fixed `PATH` and
/// `HOME` and nothing else.
pub proof fn the_runebench_server_is_fixed(config: McpClientConfig)
    requires
        config.command@ == "bun"@,
        texts(config.args@) == seq!["run"@, "/app/mcp/server.ts"@],
        config.has_production_environment(),
    ensures
        server_launch(config) == (LaunchText {
            program: "bun"@,
            arguments: seq!["run"@, "/app/mcp/server.ts"@],
            environment: seq![
                ("PATH"@, "/root/.bun/bin:/usr/local/bin:/usr/bin:/bin"@),
                ("HOME"@, "/root"@),
            ],
        }),
{
}

impl Default for McpClientConfig {
    /// The rs-agent MCP server of Runebench.
    fn default() -> (r: Self)
        ensures
            r.command@ == "bun"@,
            texts(r.args@) == seq!["run"@, "/app/mcp/server.ts"@],
            r.has_production_environment(),
    {
        McpClientConfig::runebench()
    }
}

// ---------------------------------------------------------------------------------------------
// Errors
// ---------------------------------------------------------------------------------------------
/// An error of the server process, of the transport, of the protocol or of the server itself.
#[derive(Clone, Debug, PartialEq, Eq)]
pub enum McpError {
    /// The caller's run was cancelled.
    Cancelled,
    /// The server could not be started, or a stream failed.
    Io { operation: String, message: String },
    /// The server exited before the expected response arrived.
    ProcessExited { status: Option<i32>, stderr: String },
    /// The server answered with an error object.
    Server { code: i64, message: String, data: Option<JsonValue> },
    /// A message was not what the protocol asks for.
    Protocol { message: String },
    /// The caller's argument has the wrong shape.
    InvalidArgument { message: String },
}

/// The content of an [`McpError`].
#[verifier::ext_equal]
pub enum Fault {
    Cancelled,
    Io(Seq<char>, Seq<char>),
    ProcessExited(Option<i32>, Seq<char>),
    Server(i64, Seq<char>, Option<Json>),
    Protocol(Seq<char>),
    InvalidArgument(Seq<char>),
}

impl McpError {
    /// The content of the error.
    pub open spec fn view(&self) -> Fault {
        match self {
            McpError::Cancelled => Fault::Cancelled,
            McpError::Io { operation, message } => Fault::Io(operation@, message@),
            McpError::ProcessExited { status, stderr } => Fault::ProcessExited(*status, stderr@),
            McpError::Server { code, message, data } => Fault::Server(
                *code,
                message@,
                opt_json(*data),
            ),
            McpError::Protocol { message } => Fault::Protocol(message@),
            McpError::InvalidArgument { message } => Fault::InvalidArgument(message@),
        }
    }

    /// What the user is told of the error.
    pub fn describe(&self) -> (r: String)
        ensures
            r@ == fault_text(self@),
    {
        match self {
            McpError::Cancelled => String::from_str("MCP operation cancelled"),
            McpError::Io { operation, message } => {
                let mut text = String::from_str("MCP ");
                text.append(operation.as_str());
                text.append(" failed: ");
                text.append(message.as_str());
                text
            },
            McpError::ProcessExited { status, stderr } => {
                let mut text = String::from_str("MCP child exited with ");
                text.append(describe_status(*status).as_str());
                if !stderr.as_str().is_empty() {
                    text.append(": ");
                    text.append(stderr.as_str());
                }
                text
            },
            McpError::Server { code, message, data: _ } => {
                let mut text = String::from_str("MCP server error ");
                text.append(signed_decimal(*code).as_str());
                text.append(": ");
                text.append(message.as_str());
                text
            },
            McpError::Protocol { message } => {
                let mut text = String::from_str("MCP protocol error: ");
                text.append(message.as_str());
                text
            },
            McpError::InvalidArgument { message } => {
                let mut text = String::from_str("invalid MCP argument: ");
                text.append(message.as_str());
                text
            },
        }
    }
}

/// How an exit status is written.
pub open spec fn status_text(status: Option<i32>) -> Seq<char> {
    match status {
        Some(code) => "Some("@ + signed_text(code as int) + ")"@,
        None => "None"@,
    }
}

/// What the user is told of an error.
pub open spec fn fault_text(fault: Fault) -> Seq<char> {
    match fault {
        Fault::Cancelled => "MCP operation cancelled"@,
        Fault::Io(operation, message) => "MCP "@ + operation + " failed: "@ + message,
        Fault::ProcessExited(status, stderr) => if stderr.len() == 0 {
            "MCP child exited with "@ + status_text(status)
        } else {
            "MCP child exited with "@ + status_text(status) + ": "@ + stderr
        },
        Fault::Server(code, message, _) => "MCP server error "@ + signed_text(code as int) + ": "@
            + message,
        Fault::Protocol(message) => "MCP protocol error: "@ + message,
        Fault::InvalidArgument(message) => "invalid MCP argument: "@ + message,
    }
}

/// Writes an exit status.
fn describe_status(status: Option<i32>) -> (r: String)
    ensures
        r@ == status_text(status),
{
    match status {
        Some(code) => {
            let mut text = String::from_str("Some(");
            text.append(signed_decimal(code as i64).as_str());
            text.append(")");
            text
        },
        None => String::from_str("None"),
    }
}

/// The error of a message that is not what the protocol asks for.
pub fn protocol_error(message: &str) -> (r: McpError)
    ensures
        r@ == Fault::Protocol(message@),
{
    McpError::Protocol { message: message.to_owned() }
}

/// The error of a stream operation that failed.
pub fn io_error(operation: &str, message: String) -> (r: McpError)
    ensures
        r@ == Fault::Io(operation@, message@),
{
    McpError::Io { operation: operation.to_owned(), message }
}

/// The error of a server that could not be started.
pub fn start_error(command: &str, message: String) -> (r: McpError)
    ensures
        r@ == Fault::Io("start MCP command "@ + path_debug_text(command@), message@),
{
    let mut operation = String::from_str("start MCP command ");
    operation.append(quote_path_debug(command).as_str());
    McpError::Io { operation, message }
}

/// The error of a capture file that could not be had.
pub fn capture_error(stream: &str, failure: CaptureFailure) -> (r: McpError)
    ensures
        r@ == Fault::Io(
            "create private MCP "@ + stream@ + " capture"@,
            match failure {
                CaptureFailure::Refused(message) => message@,
                CaptureFailure::Exhausted => "could not allocate a unique capture path"@,
            },
        ),
{
    let mut operation = String::from_str("create private MCP ");
    operation.append(stream);
    operation.append(" capture");
    let message = match failure {
        CaptureFailure::Refused(message) => message,
        CaptureFailure::Exhausted => String::from_str("could not allocate a unique capture path"),
    };
    McpError::Io { operation, message }
}

// ---------------------------------------------------------------------------------------------
// Fields of a message
// ---------------------------------------------------------------------------------------------
/// The text of a string that may be absent or null.
pub open spec fn optional_text(value: Option<Json>) -> Result<Option<Seq<char>>, Fault> {
    match value {
        None => Ok(None),
        Some(Json::Null) => Ok(None),
        Some(Json::Text(text)) => Ok(Some(text)),
        Some(_) => Err(Fault::Protocol("MCP response field was not a string"@)),
    }
}

/// The text of a string that must be there and not empty.
pub open spec fn required_text(value: Option<Json>, field: Seq<char>) -> Result<Seq<char>, Fault> {
    match optional_text(value) {
        Err(fault) => Err(fault),
        Ok(Some(text)) => if text.len() > 0 {
            Ok(text)
        } else {
            Err(Fault::Protocol("MCP response omitted "@ + field))
        },
        Ok(None) => Err(Fault::Protocol("MCP response omitted "@ + field)),
    }
}

/// A text that may be absent, or the error about it.
pub open spec fn opt_text_or_fault(r: Result<Option<String>, McpError>) -> Result<
    Option<Seq<char>>,
    Fault,
> {
    match r {
        Ok(text) => Ok(opt_text(text)),
        Err(error) => Err(error@),
    }
}

/// A text, or the error about it.
pub open spec fn text_or_fault(r: Result<String, McpError>) -> Result<Seq<char>, Fault> {
    match r {
        Ok(text) => Ok(text@),
        Err(error) => Err(error@),
    }
}

/// Takes the text of a string that may be absent or null.
pub fn optional_string(value: Option<&JsonValue>) -> (r: Result<Option<String>, McpError>)
    ensures
        opt_text_or_fault(r) == optional_text(opt_json_ref(value)),
{
    match value {
        None => Ok(None),
        Some(JsonValue::Null) => Ok(None),
        Some(JsonValue::String(text)) => Ok(Some(text.clone())),
        Some(_) => Err(protocol_error("MCP response field was not a string")),
    }
}

/// Takes the text of a string that must be there and not empty.
pub fn required_string(value: Option<&JsonValue>, field: &str) -> (r: Result<String, McpError>)
    ensures
        text_or_fault(r) == required_text(opt_json_ref(value), field@),
{
    match optional_string(value) {
        Err(error) => return Err(error),
        Ok(Some(text)) => if !text.as_str().is_empty() {
            return Ok(text);
        },
        Ok(None) => {},
    }
    let mut message = String::from_str("MCP response omitted ");
    message.append(field);
    Err(McpError::Protocol { message })
}

/// The items of an array that may be absent or null; `complaint` tells of anything else.
pub open spec fn items_or_fault(value: Option<Json>, complaint: Seq<char>) -> Result<
    Seq<Json>,
    Fault,
> {
    match value {
        None => Ok(Seq::empty()),
        Some(Json::Null) => Ok(Seq::empty()),
        Some(Json::Array(items)) => Ok(items),
        Some(_) => Err(Fault::Protocol(complaint)),
    }
}

/// The contents of a list of values, or the error about it.
pub open spec fn values_or_fault(r: Result<Vec<JsonValue>, McpError>) -> Result<Seq<Json>, Fault> {
    match r {
        Ok(values) => Ok(values_view(values@)),
        Err(error) => Err(error@),
    }
}

/// Takes the items of an array that may be absent or null.
fn optional_items(value: Option<&JsonValue>, complaint: &str) -> (r: Result<
    Vec<JsonValue>,
    McpError,
>)
    ensures
        values_or_fault(r) == items_or_fault(opt_json_ref(value), complaint@),
{
    match value {
        Some(JsonValue::Array(items)) => Ok(copy_values(items)),
        None => {
            let none: Vec<JsonValue> = Vec::new();
            assert(values_view(none@) =~= Seq::<Json>::empty());
            Ok(none)
        },
        Some(JsonValue::Null) => {
            let none: Vec<JsonValue> = Vec::new();
            assert(values_view(none@) =~= Seq::<Json>::empty());
            Ok(none)
        },
        Some(_) => Err(protocol_error(complaint)),
    }
}

/// Copies a value that may be absent.
pub(crate) fn copy_optional(value: Option<&JsonValue>) -> (r: Option<JsonValue>)
    ensures
        opt_json(r) == opt_json_ref(value),
{
    match value {
        Some(value) => Some(value.clone()),
        None => None,
    }
}

/// The identifier of a response. A message without one is a notification.
pub open spec fn id_of(message: Json) -> Result<Option<u64>, Fault> {
    match message.field("id"@) {
        None => Ok(None),
        Some(Json::Null) => Ok(None),
        Some(Json::Number(JsonNumber::Unsigned(n))) => Ok(Some(n)),
        Some(Json::Number(JsonNumber::Signed(n))) => if n >= 0 {
            Ok(Some(n as u64))
        } else {
            Err(Fault::Protocol("MCP response id was not an unsigned integer"@))
        },
        Some(_) => Err(Fault::Protocol("MCP response id was not an unsigned integer"@)),
    }
}

/// A value, or the content of the error about it.
pub open spec fn or_fault<T>(r: Result<T, McpError>) -> Result<T, Fault> {
    match r {
        Ok(value) => Ok(value),
        Err(error) => Err(error@),
    }
}

/// Takes the identifier of a response.
pub fn response_id(message: &JsonValue) -> (r: Result<Option<u64>, McpError>)
    ensures
        or_fault(r) == id_of(message@),
{
    match message.get("id") {
        None => return Ok(None),
        Some(JsonValue::Null) => return Ok(None),
        Some(JsonValue::Number(JsonNumber::Unsigned(n))) => return Ok(Some(*n)),
        Some(JsonValue::Number(JsonNumber::Signed(n))) => if *n >= 0 {
            return Ok(Some(*n as u64));
        },
        Some(_) => {},
    }
    Err(protocol_error("MCP response id was not an unsigned integer"))
}

/// The code of an error object; a code that is no integer counts as 0, and one that is too large
/// as the largest.
pub open spec fn error_code(error: Json) -> i64 {
    match error.field("code"@) {
        Some(Json::Number(JsonNumber::Signed(n))) => n,
        Some(Json::Number(JsonNumber::Unsigned(n))) => if n <= i64::MAX {
            n as i64
        } else {
            i64::MAX
        },
        _ => 0,
    }
}

/// The error that an error object of the server stands for.
pub open spec fn server_fault(error: Json) -> Fault {
    Fault::Server(
        error_code(error),
        match error.field("message"@) {
            Some(Json::Text(text)) => text,
            _ => "MCP server rejected the request"@,
        },
        error.field("data"@),
    )
}

/// Reads an error object of the server.
pub fn parse_server_error(error: &JsonValue) -> (r: McpError)
    ensures
        r@ == server_fault(error@),
{
    let code: i64 = match error.get("code") {
        Some(JsonValue::Number(JsonNumber::Signed(n))) => *n,
        Some(JsonValue::Number(JsonNumber::Unsigned(n))) => if *n <= i64::MAX as u64 {
            *n as i64
        } else {
            i64::MAX
        },
        _ => 0,
    };
    let message = match error.get("message") {
        Some(JsonValue::String(text)) => text.clone(),
        _ => String::from_str("MCP server rejected the request"),
    };
    McpError::Server { code, message, data: copy_optional(error.get("data")) }
}

// ---------------------------------------------------------------------------------------------
// Results
// ---------------------------------------------------------------------------------------------
/// What the server answers to `initialize`.
#[derive(Clone, Debug, PartialEq, Eq)]
pub struct InitializeResult {
    pub protocol_version: String,
    pub capabilities: JsonValue,
    pub server_info: JsonValue,
}

/// The content of an [`InitializeResult`].
#[verifier::ext_equal]
pub struct Introduction {
    pub protocol_version: Seq<char>,
    pub capabilities: Json,
    pub server_info: Json,
}

impl InitializeResult {
    /// The content of the result.
    pub open spec fn view(&self) -> Introduction {
        Introduction {
            protocol_version: self.protocol_version@,
            capabilities: self.capabilities@,
            server_info: self.server_info@,
        }
    }
}

/// A field of an object, which is an empty object where it is absent.
pub open spec fn field_or_empty(value: Json, name: Seq<char>) -> Json {
    match value.field(name) {
        Some(field) => field,
        None => Json::Object(Map::empty()),
    }
}

/// What a reply to `initialize` says.
pub open spec fn introduction_of(reply: Json) -> Result<Introduction, Fault> {
    match required_text(reply.field("protocolVersion"@), "initialize.protocolVersion"@) {
        Err(fault) => Err(fault),
        Ok(protocol_version) => Ok(
            Introduction {
                protocol_version,
                capabilities: field_or_empty(reply, "capabilities"@),
                server_info: field_or_empty(reply, "serverInfo"@),
            },
        ),
    }
}

/// The content of an initialize result, or of the error about it.
pub open spec fn introduction_or_fault(r: Result<InitializeResult, McpError>) -> Result<
    Introduction,
    Fault,
> {
    match r {
        Ok(result) => Ok(result@),
        Err(error) => Err(error@),
    }
}

/// Takes a field of an object, which is an empty object where it is absent.
fn copy_field_or_empty(value: &JsonValue, name: &str) -> (r: JsonValue)
    ensures
        r@ == field_or_empty(value@, name@),
{
    match value.get(name) {
        Some(field) => field.clone(),
        None => JsonValue::Object(JsonObject::new()),
    }
}

/// Reads a reply to `initialize`.
pub fn initialize_result(reply: &JsonValue) -> (r: Result<InitializeResult, McpError>)
    ensures
        introduction_or_fault(r) == introduction_of(reply@),
{
    let protocol_version = match required_string(
        reply.get("protocolVersion"),
        "initialize.protocolVersion",
    ) {
        Ok(text) => text,
        Err(error) => return Err(error),
    };
    Ok(
        InitializeResult {
            protocol_version,
            capabilities: copy_field_or_empty(reply, "capabilities"),
            server_info: copy_field_or_empty(reply, "serverInfo"),
        },
    )
}

/// One resource of the server.
#[derive(Clone, Debug, PartialEq, Eq)]
pub struct Resource {
    pub uri: String,
    pub name: Option<String>,
    pub description: Option<String>,
    pub mime_type: Option<String>,
}

/// The content of a [`Resource`].
#[verifier::ext_equal]
pub struct ResourceText {
    pub uri: Seq<char>,
    pub name: Option<Seq<char>>,
    pub description: Option<Seq<char>>,
    pub mime_type: Option<Seq<char>>,
}

impl Resource {
    /// The content of the resource.
    pub open spec fn view(&self) -> ResourceText {
        ResourceText {
            uri: self.uri@,
            name: opt_text(self.name),
            description: opt_text(self.description),
            mime_type: opt_text(self.mime_type),
        }
    }
}

/// The contents of a list of resources.
pub open spec fn resources_view(resources: Seq<Resource>) -> Seq<ResourceText> {
    resources.map_values(|resource: Resource| resource@)
}

/// What a resource descriptor says.
pub open spec fn resource_of(value: Json) -> Result<ResourceText, Fault> {
    match required_text(value.field("uri"@), "resource.uri"@) {
        Err(fault) => Err(fault),
        Ok(uri) => match optional_text(value.field("name"@)) {
            Err(fault) => Err(fault),
            Ok(name) => match optional_text(value.field("description"@)) {
                Err(fault) => Err(fault),
                Ok(description) => match optional_text(value.field("mimeType"@)) {
                    Err(fault) => Err(fault),
                    Ok(mime_type) => Ok(ResourceText { uri, name, description, mime_type }),
                },
            },
        },
    }
}

/// The content of a resource, or of the error about it.
pub open spec fn resource_or_fault(r: Result<Resource, McpError>) -> Result<ResourceText, Fault> {
    match r {
        Ok(resource) => Ok(resource@),
        Err(error) => Err(error@),
    }
}

/// Reads a resource descriptor.
pub fn parse_resource(value: &JsonValue) -> (r: Result<Resource, McpError>)
    ensures
        resource_or_fault(r) == resource_of(value@),
{
    let uri = match required_string(value.get("uri"), "resource.uri") {
        Ok(uri) => uri,
        Err(error) => return Err(error),
    };
    let name = match optional_string(value.get("name")) {
        Ok(name) => name,
        Err(error) => return Err(error),
    };
    let description = match optional_string(value.get("description")) {
        Ok(description) => description,
        Err(error) => return Err(error),
    };
    let mime_type = match optional_string(value.get("mimeType")) {
        Ok(mime_type) => mime_type,
        Err(error) => return Err(error),
    };
    Ok(Resource { uri, name, description, mime_type })
}

/// What the server answers to `resources/list`.
#[derive(Clone, Debug, PartialEq, Eq, Default)]
pub struct ResourceList {
    pub resources: Vec<Resource>,
    /// Where the next page starts, if there is one.
    pub next_cursor: Option<String>,
}

/// The content of a [`ResourceList`].
#[verifier::ext_equal]
pub struct Catalogue {
    pub resources: Seq<ResourceText>,
    pub next_cursor: Option<Seq<char>>,
}

impl ResourceList {
    /// The content of the list.
    pub open spec fn view(&self) -> Catalogue {
        Catalogue {
            resources: resources_view(self.resources@),
            next_cursor: opt_text(self.next_cursor),
        }
    }
}

/// What a list of resource descriptors says; the first bad one spoils the list.
pub open spec fn resources_of(items: Seq<Json>) -> Result<Seq<ResourceText>, Fault>
    decreases items.len(),
{
    if items.len() == 0 {
        Ok(Seq::empty())
    } else {
        match resources_of(items.drop_last()) {
            Err(fault) => Err(fault),
            Ok(resources) => match resource_of(items.last()) {
                Err(fault) => Err(fault),
                Ok(resource) => Ok(resources.push(resource)),
            },
        }
    }
}

/// What a reply to `resources/list` says.
pub open spec fn catalogue_of(reply: Json) -> Result<Catalogue, Fault> {
    match items_or_fault(
        reply.field("resources"@),
        "resources/list.resources was not an array"@,
    ) {
        Err(fault) => Err(fault),
        Ok(items) => match resources_of(items) {
            Err(fault) => Err(fault),
            Ok(resources) => match optional_text(reply.field("nextCursor"@)) {
                Err(fault) => Err(fault),
                Ok(next_cursor) => Ok(Catalogue { resources, next_cursor }),
            },
        },
    }
}

/// The content of a resource list, or of the error about it.
pub open spec fn catalogue_or_fault(r: Result<ResourceList, McpError>) -> Result<
    Catalogue,
    Fault,
> {
    match r {
        Ok(list) => Ok(list@),
        Err(error) => Err(error@),
    }
}

/// The contents of a list of resources, or of the error about it.
pub open spec fn resources_or_fault(r: Result<Vec<Resource>, McpError>) -> Result<
    Seq<ResourceText>,
    Fault,
> {
    match r {
        Ok(resources) => Ok(resources_view(resources@)),
        Err(error) => Err(error@),
    }
}

proof fn lemma_bad_resource(items: Seq<Json>, n: int)
    requires
        0 <= n <= items.len(),
        resources_of(items.take(n)) is Err,
    ensures
        resources_of(items) == resources_of(items.take(n)),
    decreases items.len(),
{
    if n < items.len() {
        assert(items.drop_last().take(n) =~= items.take(n));
        lemma_bad_resource(items.drop_last(), n);
    } else {
        assert(items.take(n) =~= items);
    }
}

/// Reads a list of resource descriptors.
fn parse_resources(items: &Vec<JsonValue>) -> (r: Result<Vec<Resource>, McpError>)
    ensures
        resources_or_fault(r) == resources_of(values_view(items@)),
{
    let ghost contents = values_view(items@);
    let mut resources: Vec<Resource> = Vec::new();
    let mut i: usize = 0;
    assert(contents.take(0) =~= Seq::<Json>::empty());
    assert(resources_view(resources@) =~= Seq::<ResourceText>::empty());
    while i < items.len()
        invariant
            contents == values_view(items@),
            i <= items@.len(),
            resources_of(contents.take(i as int)) == Ok::<Seq<ResourceText>, Fault>(
                resources_view(resources@),
            ),
        decreases items@.len() - i,
    {
        proof {
            assert(contents.take(i + 1).drop_last() =~= contents.take(i as int));
            assert(contents.take(i + 1).last() == items@[i as int]@);
        }
        match parse_resource(&items[i]) {
            Ok(resource) => {
                let ghost before = resources@;
                resources.push(resource);
                assert(resources_view(resources@) =~= resources_view(before).push(resource@));
            },
            Err(error) => {
                proof {
                    lemma_bad_resource(contents, i + 1);
                }
                return Err(error);
            },
        }
        i = i + 1;
    }
    assert(contents.take(contents.len() as int) =~= contents);
    Ok(resources)
}

/// Reads a reply to `resources/list`.
pub fn resources_list_result(reply: &JsonValue) -> (r: Result<ResourceList, McpError>)
    ensures
        catalogue_or_fault(r) == catalogue_of(reply@),
{
    let items = match optional_items(
        reply.get("resources"),
        "resources/list.resources was not an array",
    ) {
        Ok(items) => items,
        Err(error) => return Err(error),
    };
    let resources = match parse_resources(&items) {
        Ok(resources) => resources,
        Err(error) => return Err(error),
    };
    let next_cursor = match optional_string(reply.get("nextCursor")) {
        Ok(next_cursor) => next_cursor,
        Err(error) => return Err(error),
    };
    Ok(ResourceList { resources, next_cursor })
}

/// What the server answers to `resources/read`.
#[derive(Clone, Debug, PartialEq, Eq, Default)]
pub struct ResourceReadResult {
    pub contents: Vec<JsonValue>,
}

/// What a reply to `resources/read` says.
pub open spec fn read_contents(reply: Json) -> Result<Seq<Json>, Fault> {
    items_or_fault(reply.field("contents"@), "resources/read.contents was not an array"@)
}

/// Reads a reply to `resources/read`.
pub fn resources_read_result(reply: &JsonValue) -> (r: Result<ResourceReadResult, McpError>)
    ensures
        match r {
            Ok(result) => items_or_fault(
                reply@.field("contents"@),
                "resources/read.contents was not an array"@,
            ) == Ok::<Seq<Json>, Fault>(values_view(result.contents@)),
            Err(error) => items_or_fault(
                reply@.field("contents"@),
                "resources/read.contents was not an array"@,
            ) == Err::<Seq<Json>, Fault>(error@),
        },
        match r {
            Ok(result) => read_contents(reply@) == Ok::<Seq<Json>, Fault>(
                values_view(result.contents@),
            ),
            Err(error) => read_contents(reply@) == Err::<Seq<Json>, Fault>(error@),
        },
{
    match optional_items(reply.get("contents"), "resources/read.contents was not an array") {
        Ok(contents) => Ok(ResourceReadResult { contents }),
        Err(error) => Err(error),
    }
}

/// What the server answers to `tools/call`.
#[derive(Clone, Debug, PartialEq, Eq, Default)]
pub struct ToolCallResult {
    pub content: Vec<JsonValue>,
    /// Whether the server marked the result as an error of the tool.
    pub is_error: bool,
    pub structured_content: Option<JsonValue>,
}

/// The content of a [`ToolCallResult`].
#[verifier::ext_equal]
pub struct ToolAnswer {
    pub content: Seq<Json>,
    pub is_error: bool,
    pub structured_content: Option<Json>,
}

impl ToolCallResult {
    /// The content of the result.
    pub open spec fn view(&self) -> ToolAnswer {
        ToolAnswer {
            content: values_view(self.content@),
            is_error: self.is_error,
            structured_content: opt_json(self.structured_content),
        }
    }
}

/// A flag that may be absent or null, which counts as not set.
pub open spec fn flag_of(value: Option<Json>) -> Result<bool, Fault> {
    match value {
        None => Ok(false),
        Some(Json::Null) => Ok(false),
        Some(Json::Bool(flag)) => Ok(flag),
        Some(_) => Err(Fault::Protocol("tools/call.isError was not a boolean"@)),
    }
}

/// What a reply to `tools/call` says.
pub open spec fn tool_answer_of(reply: Json) -> Result<ToolAnswer, Fault> {
    match items_or_fault(reply.field("content"@), "tools/call.content was not an array"@) {
        Err(fault) => Err(fault),
        Ok(content) => match flag_of(reply.field("isError"@)) {
            Err(fault) => Err(fault),
            Ok(is_error) => Ok(
                ToolAnswer {
                    content,
                    is_error,
                    structured_content: reply.field("structuredContent"@),
                },
            ),
        },
    }
}

/// The content of a tool result, or of the error about it.
pub open spec fn tool_answer_or_fault(r: Result<ToolCallResult, McpError>) -> Result<
    ToolAnswer,
    Fault,
> {
    match r {
        Ok(result) => Ok(result@),
        Err(error) => Err(error@),
    }
}

/// Reads a reply to `tools/call`.
pub fn tools_call_result(reply: &JsonValue) -> (r: Result<ToolCallResult, McpError>)
    ensures
        tool_answer_or_fault(r) == tool_answer_of(reply@),
{
    let content = match optional_items(
        reply.get("content"),
        "tools/call.content was not an array",
    ) {
        Ok(content) => content,
        Err(error) => return Err(error),
    };
    let is_error = match reply.get("isError") {
        None => false,
        Some(JsonValue::Null) => false,
        Some(JsonValue::Bool(flag)) => *flag,
        Some(_) => return Err(protocol_error("tools/call.isError was not a boolean")),
    };
    Ok(
        ToolCallResult {
            content,
            is_error,
            structured_content: copy_optional(reply.get("structuredContent")),
        },
    )
}

// ---------------------------------------------------------------------------------------------
// The text of a result
// ---------------------------------------------------------------------------------------------
/// A value as JSON text, or a remark where it has none.
pub open spec fn value_text(
    value: Json,
    encode: spec_fn(Json) -> Result<Seq<char>, Seq<char>>,
) -> Seq<char> {
    match encode(value) {
        Ok(text) => text,
        Err(_) => "<unserializable MCP content>"@,
    }
}

/// The text of a field that holds a string; else the JSON text of the whole part.
pub open spec fn field_text(
    field: Option<Json>,
    part: Json,
    encode: spec_fn(Json) -> Result<Seq<char>, Seq<char>>,
) -> Seq<char> {
    match field {
        Some(Json::Text(text)) => text,
        _ => value_text(part, encode),
    }
}

/// The text of one part of a content list. A text part is its text, a resource part is the text
/// of its resource, and any other part that has a text is that text; what is left is shown as
/// JSON.
pub open spec fn part_text(
    part: Json,
    encode: spec_fn(Json) -> Result<Seq<char>, Seq<char>>,
) -> Result<Seq<char>, Fault> {
    match part {
        Json::Object(_) => match part.field("type"@) {
            Some(Json::Text(kind)) => if kind == "text"@ {
                match optional_text(part.field("text"@)) {
                    Err(fault) => Err(fault),
                    Ok(Some(text)) => Ok(text),
                    Ok(None) => Ok(Seq::empty()),
                }
            } else if kind == "resource"@ {
                Ok(
                    field_text(
                        match part.field("resource"@) {
                            Some(resource) => resource.field("text"@),
                            None => None,
                        },
                        part,
                        encode,
                    ),
                )
            } else {
                Ok(field_text(part.field("text"@), part, encode))
            },
            None => Ok(field_text(part.field("text"@), part, encode)),
            Some(_) => Ok(value_text(part, encode)),
        },
        _ => Ok(value_text(part, encode)),
    }
}

/// The texts of a content list, without those that are empty; the first bad part spoils the
/// list.
pub open spec fn part_texts(
    parts: Seq<Json>,
    encode: spec_fn(Json) -> Result<Seq<char>, Seq<char>>,
) -> Result<Seq<Seq<char>>, Fault>
    decreases parts.len(),
{
    if parts.len() == 0 {
        Ok(Seq::empty())
    } else {
        match part_texts(parts.drop_last(), encode) {
            Err(fault) => Err(fault),
            Ok(before) => match part_text(parts.last(), encode) {
                Err(fault) => Err(fault),
                Ok(text) => Ok(
                    if text.len() == 0 {
                        before
                    } else {
                        before.push(text)
                    },
                ),
            },
        }
    }
}

/// The text of a content list.
pub open spec fn content_of(
    parts: Seq<Json>,
    encode: spec_fn(Json) -> Result<Seq<char>, Seq<char>>,
) -> Result<Seq<char>, Fault> {
    match part_texts(parts, encode) {
        Err(fault) => Err(fault),
        Ok(list) => Ok(joined(list, "\n"@)),
    }
}

/// Writes a value as JSON text, or a remark where it has none.
pub fn json_text<E: Fn(&JsonValue) -> Result<String, String>>(value: &JsonValue, encode: &E) -> (r:
    String)
    requires
        forall|value: &JsonValue| call_requires(*encode, (value,)),
    ensures
        forall|meaning: spec_fn(Json) -> Result<Seq<char>, Seq<char>>| #[trigger]
            encodes(*encode, meaning) ==> r@ == value_text(value@, meaning),
{
    match encode(value) {
        Ok(text) => text,
        Err(_) => String::from_str("<unserializable MCP content>"),
    }
}

/// Takes the text of a field, or the JSON text of the whole part.
fn text_or_json<E: Fn(&JsonValue) -> Result<String, String>>(
    field: Option<&JsonValue>,
    part: &JsonValue,
    encode: &E,
) -> (r: String)
    requires
        forall|value: &JsonValue| call_requires(*encode, (value,)),
    ensures
        forall|meaning: spec_fn(Json) -> Result<Seq<char>, Seq<char>>| #[trigger]
            encodes(*encode, meaning) ==> r@ == field_text(opt_json_ref(field), part@, meaning),
{
    match field {
        Some(JsonValue::String(text)) => text.clone(),
        _ => json_text(part, encode),
    }
}

/// Takes the text of one part of a content list.
fn part_to_text<E: Fn(&JsonValue) -> Result<String, String>>(part: &JsonValue, encode: &E) -> (r:
    Result<String, McpError>)
    requires
        forall|value: &JsonValue| call_requires(*encode, (value,)),
    ensures
        forall|meaning: spec_fn(Json) -> Result<Seq<char>, Seq<char>>| #[trigger]
            encodes(*encode, meaning) ==> text_or_fault(r) == part_text(part@, meaning),
{
    match part {
        JsonValue::Object(object) => match object.get("type") {
            Some(JsonValue::String(kind)) => if same_text(kind.as_str(), "text") {
                match optional_string(object.get("text")) {
                    Err(error) => Err(error),
                    Ok(Some(text)) => Ok(text),
                    Ok(None) => {
                        let none = String::new();
                        assert(none@ =~= Seq::<char>::empty());
                        Ok(none)
                    },
                }
            } else if same_text(kind.as_str(), "resource") {
                let field = match object.get("resource") {
                    Some(resource) => resource.get("text"),
                    None => None,
                };
                Ok(text_or_json(field, part, encode))
            } else {
                Ok(text_or_json(object.get("text"), part, encode))
            },
            None => Ok(text_or_json(object.get("text"), part, encode)),
            Some(_) => Ok(json_text(part, encode)),
        },
        _ => Ok(json_text(part, encode)),
    }
}

proof fn lemma_bad_part(
    parts: Seq<Json>,
    n: int,
    encode: spec_fn(Json) -> Result<Seq<char>, Seq<char>>,
)
    requires
        0 <= n <= parts.len(),
        part_texts(parts.take(n), encode) is Err,
    ensures
        part_texts(parts, encode) == part_texts(parts.take(n), encode),
    decreases parts.len(),
{
    if n < parts.len() {
        assert(parts.drop_last().take(n) =~= parts.take(n));
        lemma_bad_part(parts.drop_last(), n, encode);
    } else {
        assert(parts.take(n) =~= parts);
    }
}

/// Takes the text of a content list. `encode` is the JSON writer.
pub fn content_parts_to_text<E: Fn(&JsonValue) -> Result<String, String>>(
    parts: &Vec<JsonValue>,
    encode: &E,
) -> (r: Result<String, McpError>)
    requires
        forall|value: &JsonValue| call_requires(*encode, (value,)),
    ensures
        forall|meaning: spec_fn(Json) -> Result<Seq<char>, Seq<char>>| #[trigger]
            encodes(*encode, meaning) ==> text_or_fault(r) == content_of(
                values_view(parts@),
                meaning,
            ),
{
    let ghost contents = values_view(parts@);
    let mut output: Vec<String> = Vec::new();
    let mut i: usize = 0;
    assert(contents.take(0) =~= Seq::<Json>::empty());
    assert(texts(output@) =~= Seq::<Seq<char>>::empty());
    while i < parts.len()
        invariant
            forall|value: &JsonValue| call_requires(*encode, (value,)),
            contents == values_view(parts@),
            i <= parts@.len(),
            forall|meaning: spec_fn(Json) -> Result<Seq<char>, Seq<char>>| #[trigger]
                encodes(*encode, meaning) ==> part_texts(contents.take(i as int), meaning) == Ok::<
                    Seq<Seq<char>>,
                    Fault,
                >(texts(output@)),
        decreases parts@.len() - i,
    {
        proof {
            assert(contents.take(i + 1).drop_last() =~= contents.take(i as int));
            assert(contents.take(i + 1).last() == parts@[i as int]@);
        }
        match part_to_text(&parts[i], encode) {
            Ok(text) => {
                if !text.as_str().is_empty() {
                    let ghost before = output@;
                    let ghost added = text@;
                    output.push(text);
                    assert(texts(output@) =~= texts(before).push(added));
                }
            },
            Err(error) => {
                proof {
                    assert forall|meaning: spec_fn(Json) -> Result<Seq<char>, Seq<char>>| #[trigger]
                        encodes(*encode, meaning) implies part_texts(contents, meaning) == Err::<
                        Seq<Seq<char>>,
                        Fault,
                    >(error@) by {
                        lemma_bad_part(contents, i + 1, meaning);
                    }
                }
                return Err(error);
            },
        }
        i = i + 1;
    }
    assert(contents.take(contents.len() as int) =~= contents);
    Ok(join(&output, "\n"))
}

impl ResourceReadResult {
    /// Takes the text of the resource. `encode` is the JSON writer.
    pub fn content_text<E: Fn(&JsonValue) -> Result<String, String>>(&self, encode: &E) -> (r:
        Result<String, McpError>)
        requires
            forall|value: &JsonValue| call_requires(*encode, (value,)),
        ensures
            forall|meaning: spec_fn(Json) -> Result<Seq<char>, Seq<char>>| #[trigger]
                encodes(*encode, meaning) ==> text_or_fault(r) == content_of(
                    values_view(self.contents@),
                    meaning,
                ),
    {
        content_parts_to_text(&self.contents, encode)
    }
}

impl ToolCallResult {
    /// Takes the text of the result. `encode` is the JSON writer.
    pub fn content_text<E: Fn(&JsonValue) -> Result<String, String>>(&self, encode: &E) -> (r:
        Result<String, McpError>)
        requires
            forall|value: &JsonValue| call_requires(*encode, (value,)),
        ensures
            forall|meaning: spec_fn(Json) -> Result<Seq<char>, Seq<char>>| #[trigger]
                encodes(*encode, meaning) ==> text_or_fault(r) == content_of(
                    values_view(self.content@),
                    meaning,
                ),
    {
        content_parts_to_text(&self.content, encode)
    }
}

// ---------------------------------------------------------------------------------------------
// Laws
// ---------------------------------------------------------------------------------------------
/// The text of a content list never fails for want of a JSON writer: it fails on a text part
/// whose text is no string, and on nothing else.
pub proof fn only_bad_text_parts_spoil_a_content_list(
    parts: Seq<Json>,
    encode: spec_fn(Json) -> Result<Seq<char>, Seq<char>>,
)
    ensures
        content_of(parts, encode) is Err <==> exists|i: int|
            0 <= i < parts.len() && #[trigger] is_bad_text_part(parts[i]),
    decreases parts.len(),
{
    if parts.len() > 0 {
        let shorter = parts.drop_last();
        only_bad_text_parts_spoil_a_content_list(shorter, encode);
        assert(part_text(parts.last(), encode) is Err <==> is_bad_text_part(parts.last()));
        if exists|i: int| 0 <= i < shorter.len() && #[trigger] is_bad_text_part(shorter[i]) {
            let i = choose|i: int| 0 <= i < shorter.len() && #[trigger] is_bad_text_part(shorter[i]);
            assert(is_bad_text_part(parts[i]));
        }
        if is_bad_text_part(parts.last()) {
            assert(is_bad_text_part(parts[parts.len() - 1]));
        }
        if exists|i: int| 0 <= i < parts.len() && #[trigger] is_bad_text_part(parts[i]) {
            let i = choose|i: int| 0 <= i < parts.len() && #[trigger] is_bad_text_part(parts[i]);
            if i < shorter.len() {
                assert(is_bad_text_part(shorter[i]));
            }
        }
    }
}

/// Whether a part is a text part whose text is neither a string nor absent nor null.
pub open spec fn is_bad_text_part(part: Json) -> bool {
    &&& part.field("type"@) == Some(Json::Text("text"@))
    &&& optional_text(part.field("text"@)) is Err
}

// ---------------------------------------------------------------------------------------------
// What the server told
// ---------------------------------------------------------------------------------------------
/// A server is started by the configured command with the configured arguments, in order, and
/// gets the configured `PATH` and `HOME` and no other variable.
pub proof fn servers_get_what_is_configured(config: McpClientConfig, i: int)
    ensures
        server_launch(config).program == config.command@,
        server_launch(config).arguments.len() == config.args@.len(),
        0 <= i < config.args@.len() ==> server_launch(config).arguments[i] == config.args@[i]@,
        ({
            let environment = server_launch(config).environment;
            &&& environment[0] == ("PATH"@, config.path@)
            &&& config.home matches Some(home) ==> environment.len() == 2 && environment[1] == (
                "HOME"@,
                home@,
            )
            &&& config.home is None ==> environment.len() == 1
        }),
{
}

/// What the user is told of an error holds everything that is known of it: the operation and the
/// message, the exit status and the error output, or the code and the message.
pub proof fn errors_are_described_in_full(
    operation: Seq<char>,
    message: Seq<char>,
    status: Option<i32>,
    code: i64,
    data: Option<Json>,
)
    ensures
        fault_text(Fault::Io(operation, message)) == "MCP "@ + operation + " failed: "@ + message,
        fault_text(Fault::Server(code, message, data)) == "MCP server error "@ + signed_text(
            code as int,
        ) + ": "@ + message,
        fault_text(Fault::Protocol(message)) == "MCP protocol error: "@ + message,
        fault_text(Fault::InvalidArgument(message)) == "invalid MCP argument: "@ + message,
        message.len() > 0 ==> fault_text(Fault::ProcessExited(status, message)) == fault_text(
            Fault::ProcessExited(status, Seq::empty()),
        ) + ": "@ + message,
        status matches Some(n) ==> fault_text(Fault::ProcessExited(status, Seq::empty()))
            == "MCP child exited with Some("@ + signed_text(n as int) + ")"@,
{
    reveal_strlit("MCP child exited with ");
    reveal_strlit("Some(");
    reveal_strlit("MCP child exited with Some(");
    if let Some(n) = status {
        assert("MCP child exited with "@ + "Some("@ =~= "MCP child exited with Some("@);
        assert("MCP child exited with "@ + ("Some("@ + signed_text(n as int) + ")"@)
            =~= "MCP child exited with Some("@ + signed_text(n as int) + ")"@);
    }
}

/// A server introduces itself by the version of the protocol that it speaks; its capabilities and
/// what it says of itself are taken as they are. Without a version there is no introduction.
pub proof fn introductions_are_taken_as_they_are(reply: Json, version: Seq<char>)
    ensures
        reply.field("protocolVersion"@) == Some(Json::Text(version)) && version.len() > 0 ==> (
        introduction_of(reply) matches Ok(told) && told.protocol_version == version && (reply.field(
            "capabilities"@,
        ) matches Some(field) ==> told.capabilities == field) && (reply.field("serverInfo"@) matches Some(
            field,
        ) ==> told.server_info == field)),
        introduction_of(reply) matches Ok(told) ==> reply.field("protocolVersion"@) == Some(
            Json::Text(told.protocol_version),
        ) && told.protocol_version.len() > 0,
{
}

/// A resource is listed by its address, and with the name, the description and the type that it
/// has.
pub proof fn resources_are_listed_as_described(
    value: Json,
    uri: Seq<char>,
    name: Seq<char>,
    description: Seq<char>,
    mime_type: Seq<char>,
)
    requires
        value.field("uri"@) == Some(Json::Text(uri)),
        uri.len() > 0,
        value.field("name"@) == Some(Json::Text(name)) || value.field("name"@) is None,
        value.field("description"@) == Some(Json::Text(description)) || value.field("description"@)
            is None,
        value.field("mimeType"@) == Some(Json::Text(mime_type)) || value.field("mimeType"@) is None,
    ensures
        resource_of(value) matches Ok(resource) && resource.uri == uri && resource.name == (
        if value.field("name"@) is Some {
            Some(name)
        } else {
            None
        }) && resource.description == (if value.field("description"@) is Some {
            Some(description)
        } else {
            None
        }) && resource.mime_type == (if value.field("mimeType"@) is Some {
            Some(mime_type)
        } else {
            None
        }),
{
}

proof fn lemma_resource_at(items: Seq<Json>, i: int)
    requires
        resources_of(items) is Ok,
        0 <= i < items.len(),
    ensures
        resources_of(items)->Ok_0.len() == items.len(),
        resource_of(items[i]) == Ok::<ResourceText, Fault>(resources_of(items)->Ok_0[i]),
    decreases items.len(),
{
    if items.len() > 1 {
        if i < items.len() - 1 {
            lemma_resource_at(items.drop_last(), i);
        } else {
            lemma_resource_at(items.drop_last(), 0);
        }
    } else {
        reveal_with_fuel(resources_of, 2);
    }
}

proof fn lemma_resources(items: Seq<Json>)
    ensures
        resources_of(items) is Ok <==> forall|i: int|
            0 <= i < items.len() ==> resource_of(#[trigger] items[i]) is Ok,
    decreases items.len(),
{
    if items.len() > 0 {
        let shorter = items.drop_last();
        lemma_resources(shorter);
        if forall|i: int| 0 <= i < items.len() ==> resource_of(#[trigger] items[i]) is Ok {
            assert forall|i: int| 0 <= i < shorter.len() implies resource_of(
                #[trigger] shorter[i],
            ) is Ok by {
                assert(resource_of(items[i]) is Ok);
            }
            assert(resource_of(items[items.len() - 1]) is Ok);
        }
        if resources_of(items) is Ok {
            assert forall|i: int| 0 <= i < items.len() implies resource_of(#[trigger] items[i]) is Ok
            by {
                lemma_resource_at(items, i);
            }
        }
    }
}

/// A listing holds one resource for each item of the reply, in order, and says where the next page
/// starts. It fails on an item that is no resource.
pub proof fn listings_hold_every_resource(reply: Json, items: Seq<Json>)
    requires
        reply.field("resources"@) == Some(Json::Array(items)),
    ensures
        catalogue_of(reply) matches Ok(listed) ==> {
            &&& listed.resources.len() == items.len()
            &&& forall|i: int|
                0 <= i < items.len() ==> resource_of(#[trigger] items[i]) == Ok::<
                    ResourceText,
                    Fault,
                >(listed.resources[i])
            &&& match reply.field("nextCursor"@) {
                Some(Json::Text(cursor)) => listed.next_cursor == Some(cursor),
                _ => listed.next_cursor is None,
            }
        },
        reply.field("nextCursor"@) is None && (forall|i: int|
            0 <= i < items.len() ==> resource_of(#[trigger] items[i]) is Ok) ==> catalogue_of(reply)
            is Ok,
{
    lemma_resources(items);
    if let Ok(listed) = catalogue_of(reply) {
        if items.len() > 0 {
            lemma_resource_at(items, 0);
        }
        assert forall|i: int| 0 <= i < items.len() implies resource_of(#[trigger] items[i]) == Ok::<
            ResourceText,
            Fault,
        >(listed.resources[i]) by {
            lemma_resource_at(items, i);
        }
    }
}

/// What a tool answered is taken as it is: its content, its structured content, and whether it is
/// an error, which it is only if the server says so.
pub proof fn tool_answers_are_taken_as_they_are(reply: Json, items: Seq<Json>, flag: bool)
    requires
        reply.field("content"@) == Some(Json::Array(items)),
    ensures
        reply.field("isError"@) == Some(Json::Bool(flag)) ==> (tool_answer_of(reply) matches Ok(
            answer,
        ) && answer.is_error == flag),
        reply.field("isError"@) is None || reply.field("isError"@) == Some(Json::Null) ==> (
        tool_answer_of(reply) matches Ok(answer) && !answer.is_error),
        tool_answer_of(reply) matches Ok(answer) ==> answer.content == items
            && answer.structured_content == reply.field("structuredContent"@),
{
}

// ---------------------------------------------------------------------------------------------
// What a content list says
// ---------------------------------------------------------------------------------------------
/// A part of a content list says its text, wherever the part keeps it; a part without a text is
/// shown as the JSON that it is.
pub proof fn parts_say_their_text(
    part: Json,
    text: Seq<char>,
    encode: spec_fn(Json) -> Result<Seq<char>, Seq<char>>,
)
    requires
        part is Object,
    ensures
        part.field("type"@) == Some(Json::Text("text"@)) && part.field("text"@) == Some(
            Json::Text(text),
        ) ==> part_text(part, encode) == Ok::<Seq<char>, Fault>(text),
        part.field("type"@) == Some(Json::Text("text"@)) && part.field("text"@) is None
            ==> part_text(part, encode) == Ok::<Seq<char>, Fault>(Seq::empty()),
        part.field("type"@) == Some(Json::Text("resource"@)) && (part.field("resource"@) matches Some(
            resource,
        ) && resource.field("text"@) == Some(Json::Text(text))) ==> part_text(part, encode) == Ok::<
            Seq<char>,
            Fault,
        >(text),
        part.field("type"@) is None && part.field("text"@) == Some(Json::Text(text)) ==> part_text(
            part,
            encode,
        ) == Ok::<Seq<char>, Fault>(text),
        part.field("type"@) == Some(Json::Text("resource"@)) && part.field("resource"@) is None
            && encode(part) == Ok::<Seq<char>, Seq<char>>(text) ==> part_text(part, encode) == Ok::<
            Seq<char>,
            Fault,
        >(text),
        part.field("text"@) is None && part.field("resource"@) is None && part.field("type"@)
            != Some(Json::Text("text"@)) && encode(part) == Ok::<Seq<char>, Seq<char>>(text)
            ==> part_text(part, encode) == Ok::<Seq<char>, Fault>(text),
{
    reveal_strlit("text");
    reveal_strlit("resource");
    assert("text"@.len() != "resource"@.len());
}

/// A part of another type that has a text says its text.
pub proof fn parts_of_other_types_say_their_text(
    part: Json,
    kind: Seq<char>,
    text: Seq<char>,
    encode: spec_fn(Json) -> Result<Seq<char>, Seq<char>>,
)
    requires
        part.field("type"@) == Some(Json::Text(kind)),
        kind != "resource"@,
        part.field("text"@) == Some(Json::Text(text)),
    ensures
        part_text(part, encode) == Ok::<Seq<char>, Fault>(text),
{
}

/// A value that is no object is shown as the JSON that it is, and a value that cannot be written
/// is remarked on.
pub proof fn other_values_are_shown_as_json(
    part: Json,
    encode: spec_fn(Json) -> Result<Seq<char>, Seq<char>>,
)
    requires
        !(part is Object),
    ensures
        encode(part) matches Ok(text) ==> part_text(part, encode) == Ok::<Seq<char>, Fault>(text),
        encode(part) is Err ==> part_text(part, encode) == Ok::<Seq<char>, Fault>(
            "<unserializable MCP content>"@,
        ),
{
}

proof fn lemma_joined_texts(list: Seq<Seq<char>>)
    requires
        list.len() > 0,
        forall|i: int| 0 <= i < list.len() ==> (#[trigger] list[i]).len() > 0,
    ensures
        joined(list, "\n"@).len() > 0,
{
    assert(list[list.len() - 1].len() > 0);
}

proof fn lemma_texts_are_not_empty(
    parts: Seq<Json>,
    encode: spec_fn(Json) -> Result<Seq<char>, Seq<char>>,
)
    requires
        part_texts(parts, encode) is Ok,
    ensures
        forall|i: int|
            0 <= i < part_texts(parts, encode)->Ok_0.len() ==> (#[trigger] part_texts(
                parts,
                encode,
            )->Ok_0[i]).len() > 0,
    decreases parts.len(),
{
    if parts.len() > 0 {
        lemma_texts_are_not_empty(parts.drop_last(), encode);
    }
}

proof fn lemma_texts_add_up(
    a: Seq<Json>,
    b: Seq<Json>,
    encode: spec_fn(Json) -> Result<Seq<char>, Seq<char>>,
)
    ensures
        part_texts(a + b, encode) == (match (part_texts(a, encode), part_texts(b, encode)) {
            (Ok(x), Ok(y)) => Ok(x + y),
            (Err(fault), _) => Err(fault),
            (_, Err(fault)) => Err(fault),
        }),
    decreases b.len(),
{
    if b.len() == 0 {
        assert(a + b =~= a);
        if let Ok(x) = part_texts(a, encode) {
            assert(x + Seq::<Seq<char>>::empty() =~= x);
        }
    } else {
        let whole = a + b;
        assert(whole.last() == b.last());
        assert(whole.drop_last() =~= a + b.drop_last());
        lemma_texts_add_up(a, b.drop_last(), encode);
        if let (Ok(x), Ok(y)) = (part_texts(a, encode), part_texts(b.drop_last(), encode)) {
            if let Ok(text) = part_text(b.last(), encode) {
                assert((x + y).push(text) =~= x + y.push(text));
            }
        }
    }
}

/// A content list says what its parts say, in order and each on lines of its own: of two lists the
/// texts come one after the other with a line break in between, and one that says nothing leaves no
/// trace.
pub proof fn content_lists_add_up(
    a: Seq<Json>,
    b: Seq<Json>,
    encode: spec_fn(Json) -> Result<Seq<char>, Seq<char>>,
)
    ensures
        match (content_of(a, encode), content_of(b, encode)) {
            (Ok(x), Ok(y)) => content_of(a + b, encode) == Ok::<Seq<char>, Fault>(
                if x.len() == 0 {
                    y
                } else if y.len() == 0 {
                    x
                } else {
                    x + "\n"@ + y
                },
            ),
            (Err(fault), _) => content_of(a + b, encode) == Err::<Seq<char>, Fault>(fault),
            (_, Err(fault)) => content_of(a + b, encode) == Err::<Seq<char>, Fault>(fault),
        },
{
    lemma_texts_add_up(a, b, encode);
    if let (Ok(x), Ok(y)) = (part_texts(a, encode), part_texts(b, encode)) {
        lemma_texts_are_not_empty(a, encode);
        lemma_texts_are_not_empty(b, encode);
        joined_lists_join(x, y, Seq::empty(), "\n"@);
        if x.len() > 0 {
            lemma_joined_texts(x);
        } else {
            assert(x + y =~= y);
        }
        if y.len() > 0 {
            lemma_joined_texts(y);
        } else {
            assert(x + y =~= x);
        }
    }
}

/// A content list of one part says what the part says.
pub proof fn single_parts_say_it_all(
    part: Json,
    encode: spec_fn(Json) -> Result<Seq<char>, Seq<char>>,
)
    ensures
        content_of(seq![part], encode) == part_text(part, encode),
{
    let list = seq![part];
    assert(list.drop_last() =~= Seq::<Json>::empty());
    reveal_with_fuel(part_texts, 2);
    assert(list.last() == part);
    if let Ok(text) = part_text(part, encode) {
        if text.len() == 0 {
            assert(joined(Seq::<Seq<char>>::empty(), "\n"@) =~= text);
        } else {
            assert(Seq::<Seq<char>>::empty().push(text)[0] == text);
        }
    }
}

/// What a reply leaves out is empty: a tool result and a resource without contents, and a listing
/// without resources. Contents that are no list are refused.
pub proof fn what_is_left_out_is_empty(reply: Json)
    ensures
        reply.field("content"@) is None && reply.field("isError"@) is None ==> (tool_answer_of(reply)
            matches Ok(answer) && answer.content.len() == 0 && !answer.is_error),
        reply.field("resources"@) is None && reply.field("nextCursor"@) is None ==> (catalogue_of(
            reply,
        ) matches Ok(listed) && listed.resources.len() == 0 && listed.next_cursor is None),
        read_contents(reply) matches Ok(contents) ==> (reply.field("contents"@) is None
            || reply.field("contents"@) == Some(Json::Null)) && contents.len() == 0 || reply.field(
            "contents"@,
        ) == Some(Json::Array(contents)),
        !(match reply.field("contents"@) {
            None => true,
            Some(Json::Null) => true,
            Some(Json::Array(_)) => true,
            _ => false,
        }) ==> read_contents(reply) is Err,
        !(match reply.field("content"@) {
            None => true,
            Some(Json::Null) => true,
            Some(Json::Array(_)) => true,
            _ => false,
        }) ==> tool_answer_of(reply) is Err,
        !(match reply.field("isError"@) {
            None => true,
            Some(Json::Null) => true,
            Some(Json::Bool(_)) => true,
            _ => false,
        }) ==> tool_answer_of(reply) is Err,
{
}

/// What has the wrong shape is refused: a resource without an address, one whose name, description or
/// type is no string, and a listing whose resources are no list or whose cursor is no string.
pub proof fn misshapen_resources_are_refused(value: Json, reply: Json)
    ensures
        resource_of(value) matches Ok(resource) ==> resource.uri.len() > 0 && value.field("uri"@)
            == Some(Json::Text(resource.uri)),
        !is_text_or_absent(value.field("name"@)) ==> resource_of(value) is Err,
        !is_text_or_absent(value.field("description"@)) ==> resource_of(value) is Err,
        !is_text_or_absent(value.field("mimeType"@)) ==> resource_of(value) is Err,
        !is_text_or_absent(reply.field("nextCursor"@)) ==> catalogue_of(reply) is Err,
        !(match reply.field("resources"@) {
            None => true,
            Some(Json::Null) => true,
            Some(Json::Array(_)) => true,
            _ => false,
        }) ==> catalogue_of(reply) is Err,
{
}

/// Whether a field is a string, null or absent.
pub open spec fn is_text_or_absent(field: Option<Json>) -> bool {
    field is None || field == Some(Json::Null) || (field matches Some(Json::Text(_)))
}

}
