//! A session with an MCP server: one request at a time, each answered by a line of the server's
//! output.
//!
//! The session decides, and the host acts: an [`Exchange`] tells the host what to do next, and
//! the host hands back what came of it as a [`HostEvent`].
use crate::json::{empty_object, encodes, parses, Json, JsonNumber, JsonObject, JsonValue};
use crate::lines::{
    encoded_line_ends_at_its_break, find_line_break, line_breaks_stay, next_line_break,
    next_line_break_after,
};
use crate::mcp::{
    id_of, initialize_result, introduction_of, introduction_or_fault, io_error, parse_server_error,
    protocol_error, response_id, server_fault, Fault, InitializeResult, Introduction, McpError,
};
use crate::text::{decimal, decimal_text, decode_strict, same_text, trim, trimmed};
use std::marker::PhantomData;
use vstd::prelude::*;
use vstd::slice::slice_subrange;
use vstd::string::*;
use vstd::utf8::*;

verus! {

/// The largest output of the server that is looked at at once.
pub const MAX_MESSAGE_BYTES: usize = 8_388_608;

/// `std::cell::Cell` as a type, of which nothing is claimed. A type that is marked with it cannot
/// be shared between threads.
#[verifier::external_type_specification]
#[verifier::external_body]
#[verifier::reject_recursive_types(T)]
pub struct ExCell<T: ?Sized>(std::cell::Cell<T>);

/// What a session has come to.
#[derive(Clone, Copy, Debug, PartialEq, Eq, Structural)]
pub struct SessionState {
    /// How much of the server's output was read.
    pub stdout_offset: usize,
    /// The identifier of the next request.
    pub next_id: u64,
    /// Whether the handshake is done.
    pub initialized: bool,
}

/// A session with an MCP server.
///
/// A session has one owner, who controls the identifiers of its requests and what was read of the
/// responses: it can be neither copied nor shared between threads, only handed on.
#[derive(Debug)]
pub struct McpClient {
    state: SessionState,
    unshared: PhantomData<std::cell::Cell<()>>,
}

impl McpClient {
    /// What the session has come to.
    pub closed spec fn view(&self) -> SessionState {
        self.state
    }
}

/// The state of one exchange with the server, and what the host is to do about it.
#[derive(Debug, PartialEq, Eq)]
pub enum Exchange {
    /// Write the text to the server. A reply to the request of that identifier is awaited, if
    /// there is one.
    Write { text: String, awaited: Option<u64> },
    /// Tell whether the run was cancelled.
    Watch { id: u64 },
    /// Read the server's output. `exited` is the exit status of a server that is gone.
    Scan { id: u64, exited: Option<Option<i32>> },
    /// Look whether the server is still running.
    Poll { id: u64 },
    /// Read the server's error output.
    Report { status: Option<i32> },
    /// Wait a little.
    Pause { id: u64 },
    /// Kill the server and reap it.
    Terminate,
    /// The exchange is over.
    Done(Result<Option<JsonValue>, McpError>),
}

/// What came of an action of the host.
#[derive(Debug, PartialEq, Eq)]
pub enum HostEvent {
    Written,
    WriteFailed(String),
    Cancellation(bool),
    Output(Vec<u8>),
    OutputFailed(String),
    Running,
    Exited(Option<i32>),
    PollFailed(String),
    /// The error output of the server, if it could be read.
    Stderr(Option<Vec<u8>>),
    Slept,
    Terminated,
}

/// The content of an [`Exchange`].
#[verifier::ext_equal]
pub enum Stage {
    Write(Seq<char>, Option<u64>),
    Watch(u64),
    Scan(u64, Option<Option<i32>>),
    Poll(u64),
    Report(Option<i32>),
    Pause(u64),
    Terminate,
    Done(Result<Option<Json>, Fault>),
}

/// The content of a reply that may not have come yet, or of the error about it.
pub open spec fn reply_or_fault(r: Result<Option<JsonValue>, McpError>) -> Result<
    Option<Json>,
    Fault,
> {
    match r {
        Ok(Some(value)) => Ok(Some(value@)),
        Ok(None) => Ok(None),
        Err(error) => Err(error@),
    }
}

impl Exchange {
    /// The content of the exchange.
    pub open spec fn view(&self) -> Stage {
        match self {
            Exchange::Write { text, awaited } => Stage::Write(text@, *awaited),
            Exchange::Watch { id } => Stage::Watch(*id),
            Exchange::Scan { id, exited } => Stage::Scan(*id, *exited),
            Exchange::Poll { id } => Stage::Poll(*id),
            Exchange::Report { status } => Stage::Report(*status),
            Exchange::Pause { id } => Stage::Pause(*id),
            Exchange::Terminate => Stage::Terminate,
            Exchange::Done(r) => Stage::Done(reply_or_fault(*r)),
        }
    }
}

// ---------------------------------------------------------------------------------------------
// Messages to the server
// ---------------------------------------------------------------------------------------------
/// A request as a JSON value.
pub open spec fn request_message(id: u64, method: Seq<char>, params: Json) -> Json {
    Json::Object(
        Map::<Seq<char>, Json>::empty().insert("jsonrpc"@, Json::Text("2.0"@)).insert(
            "id"@,
            Json::Number(JsonNumber::Unsigned(id)),
        ).insert("method"@, Json::Text(method)).insert("params"@, params),
    )
}

/// A notification as a JSON value.
pub open spec fn notice_message(method: Seq<char>, params: Json) -> Json {
    Json::Object(
        Map::<Seq<char>, Json>::empty().insert("jsonrpc"@, Json::Text("2.0"@)).insert(
            "method"@,
            Json::Text(method),
        ).insert("params"@, params),
    )
}

/// How a message is sent: as one line of JSON.
pub open spec fn sent(
    message: Json,
    awaited: Option<u64>,
    encode: spec_fn(Json) -> Result<Seq<char>, Seq<char>>,
) -> Stage {
    match encode(message) {
        Ok(text) => Stage::Write(text + "\n"@, awaited),
        Err(error) => Stage::Done(Err(Fault::Protocol("cannot encode request: "@ + error))),
    }
}

/// How a request is begun. Before the handshake nothing but the handshake itself is sent, in a
/// cancelled run nothing is sent at all, and every request gets an identifier of its own.
pub open spec fn requested(
    client: SessionState,
    method: Seq<char>,
    params: Json,
    cancelled: bool,
    encode: spec_fn(Json) -> Result<Seq<char>, Seq<char>>,
) -> (SessionState, Stage) {
    if !client.initialized && method != "initialize"@ {
        (
            client,
            Stage::Done(Err(Fault::Protocol("MCP request attempted before initialization"@))),
        )
    } else if cancelled {
        (client, Stage::Terminate)
    } else if client.next_id == u64::MAX {
        (client, Stage::Done(Err(Fault::Protocol("MCP request identifier exhausted"@))))
    } else {
        (
            SessionState {
                stdout_offset: client.stdout_offset,
                next_id: (client.next_id + 1) as u64,
                initialized: client.initialized,
            },
            sent(request_message(client.next_id, method, params), Some(client.next_id), encode),
        )
    }
}

/// How a notification is begun.
pub open spec fn notified(
    method: Seq<char>,
    params: Json,
    cancelled: bool,
    encode: spec_fn(Json) -> Result<Seq<char>, Seq<char>>,
) -> Stage {
    if cancelled {
        Stage::Terminate
    } else {
        sent(notice_message(method, params), None, encode)
    }
}

// ---------------------------------------------------------------------------------------------
// Messages from the server
// ---------------------------------------------------------------------------------------------
/// What a response to the request of that identifier says.
pub open spec fn response_of(message: Json) -> Result<Json, Fault> {
    match message.field("error"@) {
        Some(error) => Err(server_fault(error)),
        None => match message.field("result"@) {
            Some(result) => Ok(result),
            None => Err(Fault::Protocol("MCP response omitted both result and error"@)),
        },
    }
}

/// What one line of the server's output says to the one who awaits a response: nothing, where
/// the line is blank or a notification.
pub open spec fn line_says(
    line: Seq<char>,
    id: u64,
    parse: spec_fn(Seq<char>) -> Result<Json, Seq<char>>,
) -> Option<Result<Json, Fault>> {
    if trimmed(line).len() == 0 {
        None
    } else {
        match parse(trimmed(line)) {
            Err(error) => Some(Err(Fault::Protocol("MCP response was not JSON: "@ + error))),
            Ok(message) => match id_of(message) {
                Err(fault) => Some(Err(fault)),
                Ok(None) => None,
                Ok(Some(other)) => if other != id {
                    Some(
                        Err(
                            Fault::Protocol(
                                "MCP response id "@ + decimal_text(other as nat)
                                    + " did not match request "@ + decimal_text(id as nat),
                            ),
                        ),
                    )
                } else {
                    Some(response_of(message))
                },
            },
        }
    }
}

/// The outcome of reading output: how far it was read, and the response if there is one.
#[verifier::ext_equal]
pub struct Reading {
    pub offset: int,
    pub outcome: Result<Option<Json>, Fault>,
}

/// What the output says from some place on: what the first line says that says something. A line
/// without its line break is left for later.
pub open spec fn reading(
    bytes: Seq<u8>,
    offset: int,
    id: u64,
    parse: spec_fn(Seq<char>) -> Result<Json, Seq<char>>,
) -> Reading
    decreases bytes.len() - offset,
{
    match next_line_break(bytes, offset) {
        None => Reading { offset, outcome: Ok(None) },
        Some(k) => if k < offset || k >= bytes.len() {
            Reading { offset, outcome: Ok(None) }
        } else if !valid_utf8(bytes.subrange(offset, k + 1)) {
            Reading { offset, outcome: Err(Fault::Protocol("MCP response was not UTF-8"@)) }
        } else {
            match line_says(decode_utf8(bytes.subrange(offset, k + 1)), id, parse) {
                None => reading(bytes, k + 1, id, parse),
                Some(Ok(value)) => Reading { offset: k + 1, outcome: Ok(Some(value)) },
                Some(Err(fault)) => Reading { offset: k + 1, outcome: Err(fault) },
            }
        },
    }
}

/// What the output says from some place on, unless too much of it is unread.
pub open spec fn bounded_reading(
    bytes: Seq<u8>,
    offset: int,
    id: u64,
    parse: spec_fn(Seq<char>) -> Result<Json, Seq<char>>,
) -> Reading {
    if bytes.len() - offset > MAX_MESSAGE_BYTES {
        Reading {
            offset,
            outcome: Err(Fault::Protocol("MCP response exceeded 8388608 bytes"@)),
        }
    } else {
        reading(bytes, offset, id, parse)
    }
}

// ---------------------------------------------------------------------------------------------
// The course of an exchange
// ---------------------------------------------------------------------------------------------
/// The text of an error output that may not be readable.
pub open spec fn stderr_text(bytes: Option<Vec<u8>>) -> Seq<char> {
    match bytes {
        Some(bytes) => if valid_utf8(bytes@) {
            trimmed(decode_utf8(bytes@))
        } else {
            Seq::empty()
        },
        None => Seq::empty(),
    }
}

/// How an exchange goes on. An event that does not belong to the action that the host was asked
/// for changes nothing.
pub open spec fn advanced(
    client: SessionState,
    stage: Stage,
    event: HostEvent,
    parse: spec_fn(Seq<char>) -> Result<Json, Seq<char>>,
) -> (SessionState, Stage) {
    match (stage, event) {
        (Stage::Write(_, Some(id)), HostEvent::Written) => (client, Stage::Watch(id)),
        (Stage::Write(_, None), HostEvent::Written) => (client, Stage::Done(Ok(None))),
        (Stage::Write(_, _), HostEvent::WriteFailed(error)) => (
            client,
            Stage::Done(Err(Fault::Io("write MCP request"@, error@))),
        ),
        (Stage::Watch(id), HostEvent::Cancellation(cancelled)) => (
            client,
            if cancelled {
                Stage::Terminate
            } else {
                Stage::Scan(id, None)
            },
        ),
        (Stage::Scan(_, _), HostEvent::OutputFailed(error)) => (
            client,
            Stage::Done(Err(Fault::Io("read MCP response capture"@, error@))),
        ),
        (Stage::Scan(id, exited), HostEvent::Output(bytes)) => {
            let read = bounded_reading(bytes@, client.stdout_offset as int, id, parse);
            (
                SessionState {
                    stdout_offset: read.offset as usize,
                    next_id: client.next_id,
                    initialized: client.initialized,
                },
                match read.outcome {
                    Ok(Some(value)) => Stage::Done(Ok(Some(value))),
                    Err(fault) => Stage::Done(Err(fault)),
                    Ok(None) => match exited {
                        Some(status) => Stage::Report(status),
                        None => Stage::Poll(id),
                    },
                },
            )
        },
        (Stage::Poll(id), HostEvent::Running) => (client, Stage::Pause(id)),
        (Stage::Poll(id), HostEvent::Exited(status)) => (client, Stage::Scan(id, Some(status))),
        (Stage::Poll(_), HostEvent::PollFailed(error)) => (
            client,
            Stage::Done(Err(Fault::Io("poll MCP child"@, error@))),
        ),
        (Stage::Report(status), HostEvent::Stderr(bytes)) => (
            client,
            Stage::Done(Err(Fault::ProcessExited(status, stderr_text(bytes)))),
        ),
        (Stage::Pause(id), HostEvent::Slept) => (client, Stage::Watch(id)),
        (Stage::Terminate, HostEvent::Terminated) => (client, Stage::Done(Err(Fault::Cancelled))),
        _ => (client, stage),
    }
}

/// Sets a field of an object to a text.
fn set_text(object: &mut JsonObject, name: &str, text: &str)
    ensures
        final(object)@ == old(object)@.insert(name@, Json::Text(text@)),
{
    object.insert(name.to_owned(), JsonValue::text(text));
}

/// Sends a message as one line of JSON.
fn write_message<E: Fn(&JsonValue) -> Result<String, String>>(
    message: &JsonValue,
    awaited: Option<u64>,
    encode: &E,
) -> (r: Exchange)
    requires
        forall|value: &JsonValue| call_requires(*encode, (value,)),
    ensures
        forall|meaning: spec_fn(Json) -> Result<Seq<char>, Seq<char>>| #[trigger]
            encodes(*encode, meaning) ==> r@ == sent(message@, awaited, meaning),
{
    match encode(message) {
        Ok(line) => {
            let mut text = line;
            text.append("\n");
            Exchange::Write { text, awaited }
        },
        Err(error) => {
            let mut message = String::from_str("cannot encode request: ");
            message.append(error.as_str());
            Exchange::Done(Err(McpError::Protocol { message }))
        },
    }
}

/// Takes what a response says.
fn take_response(message: &JsonValue) -> (r: Result<JsonValue, McpError>)
    ensures
        match r {
            Ok(value) => response_of(message@) == Ok::<Json, Fault>(value@),
            Err(error) => response_of(message@) == Err::<Json, Fault>(error@),
        },
{
    if let Some(error) = message.get("error") {
        return Err(parse_server_error(error));
    }
    match message.get("result") {
        Some(result) => Ok(result.clone()),
        None => Err(protocol_error("MCP response omitted both result and error")),
    }
}

/// What a line says, by its content.
pub open spec fn saying(r: Option<Result<JsonValue, McpError>>) -> Option<Result<Json, Fault>> {
    match r {
        None => None,
        Some(Ok(value)) => Some(Ok(value@)),
        Some(Err(error)) => Some(Err(error@)),
    }
}

/// Takes what one line of the server's output says.
fn read_line<P: Fn(&str) -> Result<JsonValue, String>>(line: &str, id: u64, parse: &P) -> (r:
    Option<Result<JsonValue, McpError>>)
    requires
        forall|text: &str| call_requires(*parse, (text,)),
    ensures
        forall|meaning: spec_fn(Seq<char>) -> Result<Json, Seq<char>>| #[trigger]
            parses(*parse, meaning) ==> saying(r) == line_says(line@, id, meaning),
{
    let text = trim(line);
    if text.as_str().is_empty() {
        return None;
    }
    let message = match parse(text.as_str()) {
        Ok(message) => message,
        Err(error) => {
            let mut complaint = String::from_str("MCP response was not JSON: ");
            complaint.append(error.as_str());
            return Some(Err(McpError::Protocol { message: complaint }));
        },
    };
    let other = match response_id(&message) {
        Ok(Some(other)) => other,
        Ok(None) => return None,
        Err(error) => return Some(Err(error)),
    };
    if other != id {
        let mut complaint = String::from_str("MCP response id ");
        complaint.append(decimal(other).as_str());
        complaint.append(" did not match request ");
        complaint.append(decimal(id).as_str());
        return Some(Err(McpError::Protocol { message: complaint }));
    }
    Some(take_response(&message))
}

impl McpClient {
    /// A session that has not begun.
    pub fn new() -> (r: Self)
        ensures
            r@ == (SessionState { stdout_offset: 0, next_id: 1, initialized: false }),
    {
        McpClient {
            state: SessionState { stdout_offset: 0, next_id: 1, initialized: false },
            unshared: PhantomData,
        }
    }

    /// What the session has come to.
    pub fn state(&self) -> (r: SessionState)
        ensures
            r == self@,
    {
        self.state
    }

    /// Begins a request. `encode` is the JSON writer.
    pub fn request<E: Fn(&JsonValue) -> Result<String, String>>(
        &mut self,
        method: &str,
        params: JsonValue,
        cancelled: bool,
        encode: &E,
    ) -> (r: Exchange)
        requires
            forall|value: &JsonValue| call_requires(*encode, (value,)),
        ensures
            forall|meaning: spec_fn(Json) -> Result<Seq<char>, Seq<char>>| #[trigger]
                encodes(*encode, meaning) ==> (final(self)@, r@) == requested(
                    old(self)@,
                    method@,
                    params@,
                    cancelled,
                    meaning,
                ),
    {
        if !self.state.initialized && !same_text(method, "initialize") {
            return Exchange::Done(
                Err(protocol_error("MCP request attempted before initialization")),
            );
        }
        if cancelled {
            return Exchange::Terminate;
        }
        let id: u64 = self.state.next_id;
        if id == u64::MAX {
            return Exchange::Done(Err(protocol_error("MCP request identifier exhausted")));
        }
        self.state.next_id = id + 1;
        let mut message = JsonObject::new();
        set_text(&mut message, "jsonrpc", "2.0");
        message.insert("id".to_owned(), JsonValue::Number(JsonNumber::Unsigned(id)));
        set_text(&mut message, "method", method);
        message.insert("params".to_owned(), params);
        write_message(&JsonValue::Object(message), Some(id), encode)
    }

    /// Begins a notification. `encode` is the JSON writer.
    pub fn notify<E: Fn(&JsonValue) -> Result<String, String>>(
        &self,
        method: &str,
        params: JsonValue,
        cancelled: bool,
        encode: &E,
    ) -> (r: Exchange)
        requires
            forall|value: &JsonValue| call_requires(*encode, (value,)),
        ensures
            forall|meaning: spec_fn(Json) -> Result<Seq<char>, Seq<char>>| #[trigger]
                encodes(*encode, meaning) ==> r@ == notified(method@, params@, cancelled, meaning),
    {
        if cancelled {
            return Exchange::Terminate;
        }
        let mut message = JsonObject::new();
        set_text(&mut message, "jsonrpc", "2.0");
        set_text(&mut message, "method", method);
        message.insert("params".to_owned(), params);
        write_message(&JsonValue::Object(message), None, encode)
    }

    /// Reads the server's output from where it was left, up to the response to the request of
    /// that identifier. `parse` is the JSON reader.
    pub fn scan_responses<P: Fn(&str) -> Result<JsonValue, String>>(
        &mut self,
        bytes: &[u8],
        expected_id: u64,
        parse: &P,
    ) -> (r: Result<Option<JsonValue>, McpError>)
        requires
            forall|text: &str| call_requires(*parse, (text,)),
        ensures
            forall|meaning: spec_fn(Seq<char>) -> Result<Json, Seq<char>>| #[trigger]
                parses(*parse, meaning) ==> (Reading {
                    offset: final(self)@.stdout_offset as int,
                    outcome: reply_or_fault(r),
                }) == bounded_reading(
                    bytes@,
                    old(self)@.stdout_offset as int,
                    expected_id,
                    meaning,
                ),
            final(self)@.next_id == old(self)@.next_id,
            final(self)@.initialized == old(self)@.initialized,
            old(self)@.stdout_offset <= final(self)@.stdout_offset,
            final(self)@.stdout_offset > old(self)@.stdout_offset ==> final(self)@.stdout_offset
                <= bytes@.len(),
    {
        let start: usize = self.state.stdout_offset;
        let total: usize = bytes.len();
        if start < total && total - start > MAX_MESSAGE_BYTES {
            return Err(protocol_error("MCP response exceeded 8388608 bytes"));
        }
        let ghost before = old(self)@;
        while self.state.stdout_offset < total
            invariant
                forall|text: &str| call_requires(*parse, (text,)),
                total == bytes@.len(),
                before == old(self)@,
                start == before.stdout_offset,
                self.state.next_id == before.next_id,
                self.state.initialized == before.initialized,
                start <= self.state.stdout_offset,
                self.state.stdout_offset > start ==> self.state.stdout_offset <= total,
                total - start <= MAX_MESSAGE_BYTES,
                forall|meaning: spec_fn(Seq<char>) -> Result<Json, Seq<char>>| #[trigger]
                    parses(*parse, meaning) ==> reading(
                        bytes@,
                        start as int,
                        expected_id,
                        meaning,
                    ) == reading(bytes@, self.state.stdout_offset as int, expected_id, meaning),
            decreases total - self.state.stdout_offset,
        {
            let offset: usize = self.state.stdout_offset;
            let line_break = match find_line_break(bytes, offset) {
                Some(line_break) => line_break,
                None => return Ok(None),
            };
            let line_end: usize = line_break + 1;
            let line = match decode_strict(slice_subrange(bytes, offset, line_end)) {
                Some(line) => line,
                None => return Err(protocol_error("MCP response was not UTF-8")),
            };
            self.state.stdout_offset = line_end;
            match read_line(line, expected_id, parse) {
                None => {},
                Some(Ok(value)) => return Ok(Some(value)),
                Some(Err(error)) => return Err(error),
            }
        }
        assert(next_line_break(bytes@, self.state.stdout_offset as int) is None);
        Ok(None)
    }

    /// Goes on with an exchange after the host did what it was asked for. `parse` is the JSON
    /// reader.
    pub fn advance<P: Fn(&str) -> Result<JsonValue, String>>(
        &mut self,
        exchange: Exchange,
        event: HostEvent,
        parse: &P,
    ) -> (r: Exchange)
        requires
            forall|text: &str| call_requires(*parse, (text,)),
        ensures
            forall|meaning: spec_fn(Seq<char>) -> Result<Json, Seq<char>>|
                #![trigger parses(*parse, meaning)]
                #![trigger advanced(old(self)@, exchange@, event, meaning)]
                parses(*parse, meaning) || !(event is Output) ==> (final(self)@, r@) == advanced(
                    old(self)@,
                    exchange@,
                    event,
                    meaning,
                ),
            final(self)@.next_id == old(self)@.next_id,
            final(self)@.initialized == old(self)@.initialized,
            old(self)@.stdout_offset <= final(self)@.stdout_offset,
    {
        match (exchange, event) {
            (Exchange::Write { text: _, awaited: Some(id) }, HostEvent::Written) => {
                Exchange::Watch { id }
            },
            (Exchange::Write { text: _, awaited: None }, HostEvent::Written) => Exchange::Done(
                Ok(None),
            ),
            (Exchange::Write { text: _, awaited: _ }, HostEvent::WriteFailed(error)) => {
                Exchange::Done(Err(io_error("write MCP request", error)))
            },
            (Exchange::Watch { id }, HostEvent::Cancellation(cancelled)) => if cancelled {
                Exchange::Terminate
            } else {
                Exchange::Scan { id, exited: None }
            },
            (Exchange::Scan { id: _, exited: _ }, HostEvent::OutputFailed(error)) => {
                Exchange::Done(Err(io_error("read MCP response capture", error)))
            },
            (Exchange::Scan { id, exited }, HostEvent::Output(bytes)) => {
                match self.scan_responses(bytes.as_slice(), id, parse) {
                    Ok(Some(value)) => Exchange::Done(Ok(Some(value))),
                    Err(error) => Exchange::Done(Err(error)),
                    Ok(None) => match exited {
                        Some(status) => Exchange::Report { status },
                        None => Exchange::Poll { id },
                    },
                }
            },
            (Exchange::Poll { id }, HostEvent::Running) => Exchange::Pause { id },
            (Exchange::Poll { id }, HostEvent::Exited(status)) => {
                Exchange::Scan { id, exited: Some(status) }
            },
            (Exchange::Poll { id: _ }, HostEvent::PollFailed(error)) => Exchange::Done(
                Err(io_error("poll MCP child", error)),
            ),
            (Exchange::Report { status }, HostEvent::Stderr(bytes)) => Exchange::Done(
                Err(McpError::ProcessExited { status, stderr: read_stderr(&bytes) }),
            ),
            (Exchange::Pause { id }, HostEvent::Slept) => Exchange::Watch { id },
            (Exchange::Terminate, HostEvent::Terminated) => Exchange::Done(
                Err(McpError::Cancelled),
            ),
            (exchange, _) => exchange,
        }
    }
}

/// Takes the text of an error output.
fn read_stderr(bytes: &Option<Vec<u8>>) -> (r: String)
    ensures
        r@ == stderr_text(*bytes),
{
    if let Some(bytes) = bytes {
        if let Some(text) = decode_strict(bytes.as_slice()) {
            return trim(text);
        }
    }
    let none = String::new();
    assert(none@ =~= Seq::<char>::empty());
    none
}

// ---------------------------------------------------------------------------------------------
// Operations
// ---------------------------------------------------------------------------------------------
/// An exchange that ends before anything is sent, because the caller's argument is wrong.
pub open spec fn misuse(message: Seq<char>) -> Stage {
    Stage::Done(Err(Fault::InvalidArgument(message)))
}

/// How a call of a tool is begun.
pub open spec fn tool_call_begun(
    client: SessionState,
    name: Seq<char>,
    arguments: Json,
    cancelled: bool,
    encode: spec_fn(Json) -> Result<Seq<char>, Seq<char>>,
) -> (SessionState, Stage) {
    if arguments is Object {
        requested(
            client,
            "tools/call"@,
            Json::Object(
                Map::<Seq<char>, Json>::empty().insert("name"@, Json::Text(name)).insert(
                    "arguments"@,
                    arguments,
                ),
            ),
            cancelled,
            encode,
        )
    } else {
        (client, misuse("tools/call arguments must be a JSON object"@))
    }
}

/// How reading a resource is begun.
pub open spec fn resource_read_begun(
    client: SessionState,
    uri: Seq<char>,
    cancelled: bool,
    encode: spec_fn(Json) -> Result<Seq<char>, Seq<char>>,
) -> (SessionState, Stage) {
    if uri.len() == 0 {
        (client, misuse("resources/read uri must not be empty"@))
    } else {
        requested(
            client,
            "resources/read"@,
            Json::Object(Map::<Seq<char>, Json>::empty().insert("uri"@, Json::Text(uri))),
            cancelled,
            encode,
        )
    }
}

impl McpClient {
    /// Begins a call of a tool. The reply is read by [`crate::mcp::tools_call_result`].
    pub fn tools_call<E: Fn(&JsonValue) -> Result<String, String>>(
        &mut self,
        name: &str,
        arguments: &JsonValue,
        cancelled: bool,
        encode: &E,
    ) -> (r: Exchange)
        requires
            forall|value: &JsonValue| call_requires(*encode, (value,)),
        ensures
            forall|meaning: spec_fn(Json) -> Result<Seq<char>, Seq<char>>| #[trigger]
                encodes(*encode, meaning) ==> (final(self)@, r@) == tool_call_begun(
                    old(self)@,
                    name@,
                    arguments@,
                    cancelled,
                    meaning,
                ),
    {
        if !matches!(arguments, JsonValue::Object(_)) {
            return Exchange::Done(
                Err(
                    McpError::InvalidArgument {
                        message: String::from_str("tools/call arguments must be a JSON object"),
                    },
                ),
            );
        }
        let mut params = JsonObject::new();
        set_text(&mut params, "name", name);
        params.insert("arguments".to_owned(), arguments.clone());
        self.request("tools/call", JsonValue::Object(params), cancelled, encode)
    }

    /// Begins a listing of the resources. The reply is read by
    /// [`crate::mcp::resources_list_result`].
    pub fn resources_list<E: Fn(&JsonValue) -> Result<String, String>>(
        &mut self,
        cancelled: bool,
        encode: &E,
    ) -> (r: Exchange)
        requires
            forall|value: &JsonValue| call_requires(*encode, (value,)),
        ensures
            forall|meaning: spec_fn(Json) -> Result<Seq<char>, Seq<char>>| #[trigger]
                encodes(*encode, meaning) ==> (final(self)@, r@) == requested(
                    old(self)@,
                    "resources/list"@,
                    Json::Object(Map::empty()),
                    cancelled,
                    meaning,
                ),
    {
        self.request("resources/list", empty_object(), cancelled, encode)
    }

    /// Begins reading a resource. The reply is read by [`crate::mcp::resources_read_result`].
    pub fn resources_read<E: Fn(&JsonValue) -> Result<String, String>>(
        &mut self,
        uri: &str,
        cancelled: bool,
        encode: &E,
    ) -> (r: Exchange)
        requires
            forall|value: &JsonValue| call_requires(*encode, (value,)),
        ensures
            forall|meaning: spec_fn(Json) -> Result<Seq<char>, Seq<char>>| #[trigger]
                encodes(*encode, meaning) ==> (final(self)@, r@) == resource_read_begun(
                    old(self)@,
                    uri@,
                    cancelled,
                    meaning,
                ),
    {
        if uri.is_empty() {
            return Exchange::Done(
                Err(
                    McpError::InvalidArgument {
                        message: String::from_str("resources/read uri must not be empty"),
                    },
                ),
            );
        }
        let mut params = JsonObject::new();
        set_text(&mut params, "uri", uri);
        self.request("resources/read", JsonValue::Object(params), cancelled, encode)
    }
}

// ---------------------------------------------------------------------------------------------
// The handshake
// ---------------------------------------------------------------------------------------------
/// The state of the handshake with the server.
#[derive(Debug, PartialEq, Eq)]
pub enum Handshake {
    /// The host has introduced itself, and the exchange goes on.
    Introducing(Exchange),
    /// The server has answered. Tell whether the run was cancelled.
    Confirming(InitializeResult),
    /// The host tells the server that it is ready.
    Announcing(InitializeResult, Exchange),
    /// The handshake is over.
    Settled(Result<InitializeResult, McpError>),
}

/// The content of a [`Handshake`].
#[verifier::ext_equal]
pub enum Greeting {
    Introducing(Stage),
    Confirming(Introduction),
    Announcing(Introduction, Stage),
    Settled(Result<Introduction, Fault>),
}

impl Handshake {
    /// The content of the handshake.
    pub open spec fn view(&self) -> Greeting {
        match self {
            Handshake::Introducing(exchange) => Greeting::Introducing(exchange@),
            Handshake::Confirming(result) => Greeting::Confirming(result@),
            Handshake::Announcing(result, exchange) => Greeting::Announcing(result@, exchange@),
            Handshake::Settled(r) => Greeting::Settled(introduction_or_fault(*r)),
        }
    }
}

/// How the host introduces itself.
pub open spec fn introduction_params() -> Json {
    Json::Object(
        Map::<Seq<char>, Json>::empty().insert(
            "protocolVersion"@,
            Json::Text("2025-03-26"@),
        ).insert("capabilities"@, Json::Object(Map::empty())).insert(
            "clientInfo"@,
            Json::Object(
                Map::<Seq<char>, Json>::empty().insert(
                    "name"@,
                    Json::Text("pi-agent-core-runebench"@),
                ).insert("version"@, Json::Text("0.1.0"@)),
            ),
        ),
    )
}

/// The handshake after a step of its first exchange: the reply to it has to introduce the
/// server.
pub open spec fn introduced(stage: Stage) -> Greeting {
    match stage {
        Stage::Done(Err(fault)) => Greeting::Settled(Err(fault)),
        Stage::Done(Ok(Some(reply))) => match introduction_of(reply) {
            Ok(introduction) => Greeting::Confirming(introduction),
            Err(fault) => Greeting::Settled(Err(fault)),
        },
        _ => Greeting::Introducing(stage),
    }
}

/// The handshake after a step of its second exchange.
pub open spec fn announced(introduction: Introduction, stage: Stage) -> Greeting {
    match stage {
        Stage::Done(Err(fault)) => Greeting::Settled(Err(fault)),
        Stage::Done(Ok(_)) => Greeting::Settled(Ok(introduction)),
        _ => Greeting::Announcing(introduction, stage),
    }
}

/// A session whose handshake is done.
pub open spec fn opened(client: SessionState) -> SessionState {
    SessionState { stdout_offset: client.stdout_offset, next_id: client.next_id, initialized: true }
}

/// How a handshake goes on. The session is open once the server was told that the host is ready.
pub open spec fn greeted(
    client: SessionState,
    greeting: Greeting,
    event: HostEvent,
    parse: spec_fn(Seq<char>) -> Result<Json, Seq<char>>,
    encode: spec_fn(Json) -> Result<Seq<char>, Seq<char>>,
) -> (SessionState, Greeting) {
    match greeting {
        Greeting::Introducing(stage) => {
            let (next, after) = advanced(client, stage, event, parse);
            (next, introduced(after))
        },
        Greeting::Confirming(introduction) => match event {
            HostEvent::Cancellation(cancelled) => (
                client,
                announced(
                    introduction,
                    notified(
                        "notifications/initialized"@,
                        Json::Object(Map::empty()),
                        cancelled,
                        encode,
                    ),
                ),
            ),
            _ => (client, greeting),
        },
        Greeting::Announcing(introduction, stage) => {
            let (next, after) = advanced(client, stage, event, parse);
            if after matches Stage::Done(Ok(_)) {
                (opened(next), announced(introduction, after))
            } else {
                (next, announced(introduction, after))
            }
        },
        Greeting::Settled(_) => (client, greeting),
    }
}

/// Reads the reply of the server to the introduction of the host, if it is there.
fn introduce(exchange: Exchange) -> (r: Handshake)
    ensures
        r@ == introduced(exchange@),
{
    match exchange {
        Exchange::Done(Err(error)) => Handshake::Settled(Err(error)),
        Exchange::Done(Ok(Some(reply))) => match initialize_result(&reply) {
            Ok(result) => Handshake::Confirming(result),
            Err(error) => Handshake::Settled(Err(error)),
        },
        exchange => Handshake::Introducing(exchange),
    }
}

/// Ends the handshake, if its second exchange is over.
fn announce(result: InitializeResult, exchange: Exchange) -> (r: Handshake)
    ensures
        r@ == announced(result@, exchange@),
{
    match exchange {
        Exchange::Done(Err(error)) => Handshake::Settled(Err(error)),
        Exchange::Done(Ok(_)) => Handshake::Settled(Ok(result)),
        exchange => Handshake::Announcing(result, exchange),
    }
}

impl McpClient {
    /// Begins the handshake. `encode` is the JSON writer.
    pub fn initialize<E: Fn(&JsonValue) -> Result<String, String>>(
        &mut self,
        cancelled: bool,
        encode: &E,
    ) -> (r: Handshake)
        requires
            forall|value: &JsonValue| call_requires(*encode, (value,)),
        ensures
            forall|meaning: spec_fn(Json) -> Result<Seq<char>, Seq<char>>| #[trigger]
                encodes(*encode, meaning) ==> {
                    let (next, stage) = requested(
                        old(self)@,
                        "initialize"@,
                        introduction_params(),
                        cancelled,
                        meaning,
                    );
                    final(self)@ == next && r@ == introduced(stage)
                },
    {
        let mut info = JsonObject::new();
        set_text(&mut info, "name", "pi-agent-core-runebench");
        set_text(&mut info, "version", "0.1.0");
        let mut params = JsonObject::new();
        set_text(&mut params, "protocolVersion", "2025-03-26");
        params.insert("capabilities".to_owned(), empty_object());
        params.insert("clientInfo".to_owned(), JsonValue::Object(info));
        let exchange = self.request("initialize", JsonValue::Object(params), cancelled, encode);
        introduce(exchange)
    }

    /// Goes on with the handshake after the host did what it was asked for. `parse` and `encode`
    /// are the JSON reader and writer.
    pub fn advance_handshake<
        P: Fn(&str) -> Result<JsonValue, String>,
        E: Fn(&JsonValue) -> Result<String, String>,
    >(&mut self, handshake: Handshake, event: HostEvent, parse: &P, encode: &E) -> (r: Handshake)
        requires
            forall|text: &str| call_requires(*parse, (text,)),
            forall|value: &JsonValue| call_requires(*encode, (value,)),
        ensures
            forall|
                reads: spec_fn(Seq<char>) -> Result<Json, Seq<char>>,
                writes: spec_fn(Json) -> Result<Seq<char>, Seq<char>>,
            |
                #[trigger] parses(*parse, reads) && #[trigger] encodes(*encode, writes) ==> (
                    final(self)@,
                    r@,
                ) == greeted(old(self)@, handshake@, event, reads, writes),
    {
        match handshake {
            Handshake::Introducing(exchange) => introduce(self.advance(exchange, event, parse)),
            Handshake::Confirming(result) => match event {
                HostEvent::Cancellation(cancelled) => {
                    let exchange = self.notify(
                        "notifications/initialized",
                        empty_object(),
                        cancelled,
                        encode,
                    );
                    announce(result, exchange)
                },
                _ => Handshake::Confirming(result),
            },
            Handshake::Announcing(result, exchange) => {
                let after = self.advance(exchange, event, parse);
                if matches!(after, Exchange::Done(Ok(_))) {
                    self.state.initialized = true;
                }
                announce(result, after)
            },
            Handshake::Settled(r) => Handshake::Settled(r),
        }
    }
}

// ---------------------------------------------------------------------------------------------
// Laws
// ---------------------------------------------------------------------------------------------
/// Before the handshake every request but the handshake itself is refused, and nothing is sent.
pub proof fn requests_wait_for_the_handshake(
    client: SessionState,
    method: Seq<char>,
    params: Json,
    cancelled: bool,
    encode: spec_fn(Json) -> Result<Seq<char>, Seq<char>>,
)
    requires
        !client.initialized,
        method != "initialize"@,
    ensures
        requested(client, method, params, cancelled, encode) == (
            client,
            Stage::Done(Err(Fault::Protocol("MCP request attempted before initialization"@))),
        ),
{
}

/// A session opens only when the server has introduced itself and was told that the host is
/// ready, and the handshake is then over.
pub proof fn sessions_open_with_the_handshake(
    client: SessionState,
    greeting: Greeting,
    event: HostEvent,
    parse: spec_fn(Seq<char>) -> Result<Json, Seq<char>>,
    encode: spec_fn(Json) -> Result<Seq<char>, Seq<char>>,
)
    requires
        !client.initialized,
        greeted(client, greeting, event, parse, encode).0.initialized,
    ensures
        greeting is Announcing,
        greeted(client, greeting, event, parse, encode).1 == Greeting::Settled(
            Ok(greeting->Announcing_0),
        ),
{
}

/// Going on with an exchange neither opens nor closes the session, nor changes the identifier of
/// the next request, and what was read of the output stays read.
pub proof fn exchanges_keep_the_session(
    client: SessionState,
    stage: Stage,
    event: HostEvent,
    parse: spec_fn(Seq<char>) -> Result<Json, Seq<char>>,
)
    ensures
        advanced(client, stage, event, parse).0.initialized == client.initialized,
        advanced(client, stage, event, parse).0.next_id == client.next_id,
        advanced(client, stage, event, parse).0.stdout_offset >= client.stdout_offset,
{
    if let HostEvent::Output(bytes) = event {
        if let Stage::Scan(id, exited) = stage {
            lemma_reading_offset(bytes@, client.stdout_offset as int, id, parse);
            assert(bytes@.len() == bytes.len());
        }
    }
}

proof fn lemma_reading_offset(
    bytes: Seq<u8>,
    offset: int,
    id: u64,
    parse: spec_fn(Seq<char>) -> Result<Json, Seq<char>>,
)
    ensures
        reading(bytes, offset, id, parse).offset >= offset,
        reading(bytes, offset, id, parse).offset == offset || reading(
            bytes,
            offset,
            id,
            parse,
        ).offset <= bytes.len(),
    decreases bytes.len() - offset,
{
    if let Some(k) = next_line_break(bytes, offset) {
        if offset <= k < bytes.len() {
            lemma_reading_offset(bytes, k + 1, id, parse);
        }
    }
}

/// Two requests of one session never share an identifier: a request that comes after another one
/// has a larger one.
pub proof fn request_ids_never_repeat(
    first: SessionState,
    method_a: Seq<char>,
    params_a: Json,
    second: SessionState,
    method_b: Seq<char>,
    params_b: Json,
    encode: spec_fn(Json) -> Result<Seq<char>, Seq<char>>,
)
    requires
        requested(first, method_a, params_a, false, encode).1 matches Stage::Write(_, Some(_)),
        requested(second, method_b, params_b, false, encode).1 matches Stage::Write(_, Some(_)),
        second.next_id >= requested(first, method_a, params_a, false, encode).0.next_id,
    ensures
        requested(first, method_a, params_a, false, encode).1->Write_1 == Some(first.next_id),
        requested(second, method_b, params_b, false, encode).1->Write_1 == Some(second.next_id),
        first.next_id < second.next_id,
{
}

/// In a cancelled run a request sends nothing and has the server terminated; and once the server
/// is terminated, the exchange ends as cancelled.
pub proof fn cancelled_requests_terminate_the_server(
    client: SessionState,
    method: Seq<char>,
    params: Json,
    parse: spec_fn(Seq<char>) -> Result<Json, Seq<char>>,
    encode: spec_fn(Json) -> Result<Seq<char>, Seq<char>>,
)
    requires
        client.initialized || method == "initialize"@,
    ensures
        requested(client, method, params, true, encode) == (client, Stage::Terminate),
        advanced(client, Stage::Terminate, HostEvent::Terminated, parse) == (
            client,
            Stage::Done(Err(Fault::Cancelled)),
        ),
{
}

/// A cancellation is seen in every round of a wait: the server is terminated, and the wait ends
/// as cancelled.
pub proof fn cancelled_waits_terminate_the_server(
    client: SessionState,
    id: u64,
    parse: spec_fn(Seq<char>) -> Result<Json, Seq<char>>,
)
    ensures
        advanced(client, Stage::Pause(id), HostEvent::Slept, parse) == (client, Stage::Watch(id)),
        advanced(client, Stage::Watch(id), HostEvent::Cancellation(true), parse) == (
            client,
            Stage::Terminate,
        ),
        advanced(client, Stage::Terminate, HostEvent::Terminated, parse) == (
            client,
            Stage::Done(Err(Fault::Cancelled)),
        ),
{
}

/// Whether the bytes from `from` to `to` are a line that holds the response to the request of
/// that identifier, with the given result.
pub open spec fn is_response_line(
    bytes: Seq<u8>,
    from: int,
    to: int,
    id: u64,
    result: Json,
    parse: spec_fn(Seq<char>) -> Result<Json, Seq<char>>,
) -> bool {
    &&& 0 <= from < to <= bytes.len()
    &&& bytes[to - 1] == 10
    &&& valid_utf8(bytes.subrange(from, to))
    &&& parse(trimmed(decode_utf8(bytes.subrange(from, to)))) matches Ok(message)
        && id_of(message) == Ok::<Option<u64>, Fault>(Some(id)) && message.field("error"@) is None
        && message.field("result"@) == Some(result)
}

/// A result is only ever taken from a line that answers the request: it has the identifier of
/// the request, holds that result, and reports no error.
pub proof fn results_answer_the_request(
    bytes: Seq<u8>,
    offset: int,
    id: u64,
    result: Json,
    parse: spec_fn(Seq<char>) -> Result<Json, Seq<char>>,
) -> (from: int)
    requires
        0 <= offset,
        bounded_reading(bytes, offset, id, parse).outcome == Ok::<Option<Json>, Fault>(
            Some(result),
        ),
    ensures
        offset <= from,
        is_response_line(
            bytes,
            from,
            bounded_reading(bytes, offset, id, parse).offset,
            id,
            result,
            parse,
        ),
    decreases bytes.len() - offset,
{
    let k = next_line_break(bytes, offset)->0;
    lemma_break_found(bytes, offset);
    match line_says(decode_utf8(bytes.subrange(offset, k + 1)), id, parse) {
        None => results_answer_the_request(bytes, k + 1, id, result, parse),
        Some(_) => offset,
    }
}

proof fn lemma_break_found(bytes: Seq<u8>, from: int)
    ensures
        next_line_break(bytes, from) matches Some(k) ==> from <= k < bytes.len() && bytes[k] == 10,
    decreases bytes.len() - from,
{
    if 0 <= from < bytes.len() && bytes[from] != 10 {
        lemma_break_found(bytes, from + 1);
    }
}

/// It does not matter how often the output is read, as long as no reading is refused for its
/// size: what an earlier reading found stands, and what it passed over without an answer says
/// nothing to a later reading.
pub proof fn earlier_readings_stand(
    bytes: Seq<u8>,
    more: Seq<u8>,
    offset: int,
    id: u64,
    parse: spec_fn(Seq<char>) -> Result<Json, Seq<char>>,
)
    requires
        0 <= offset,
    ensures
        reading(bytes, offset, id, parse).outcome == Ok::<Option<Json>, Fault>(None) ==> reading(
            bytes + more,
            offset,
            id,
            parse,
        ) == reading(bytes + more, reading(bytes, offset, id, parse).offset, id, parse),
        reading(bytes, offset, id, parse).outcome != Ok::<Option<Json>, Fault>(None) ==> reading(
            bytes + more,
            offset,
            id,
            parse,
        ) == reading(bytes, offset, id, parse),
    decreases bytes.len() - offset,
{
    if next_line_break(bytes, offset) is Some {
        let k = next_line_break(bytes, offset)->0;
        line_breaks_stay(bytes, more, offset);
        assert((bytes + more).subrange(offset, k + 1) =~= bytes.subrange(offset, k + 1));
        earlier_readings_stand(bytes, more, k + 1, id, parse);
    }
}

/// Every line that the server writes is read as a whole, whatever stands before and after it. A
/// blank line or a notification is passed over; any other line ends the reading.
pub proof fn whole_lines_are_read(
    before: Seq<u8>,
    line: Seq<char>,
    rest: Seq<u8>,
    id: u64,
    parse: spec_fn(Seq<char>) -> Result<Json, Seq<char>>,
)
    requires
        !line.contains('\n'),
    ensures
        ({
            let bytes = before + encode_utf8(line.push('\n')) + rest;
            let end = (before + encode_utf8(line.push('\n'))).len() as int;
            let read = reading(bytes, before.len() as int, id, parse);
            match line_says(line.push('\n'), id, parse) {
                None => read == reading(bytes, end, id, parse),
                Some(Ok(result)) => read == (Reading { offset: end, outcome: Ok(Some(result)) }),
                Some(Err(fault)) => read == (Reading { offset: end, outcome: Err(fault) }),
            }
        }),
{
    let wire = encode_utf8(line.push('\n'));
    let bytes = before + wire + rest;
    let from = before.len() as int;
    encoded_line_ends_at_its_break(line);
    let k = from + encode_utf8(line).len();
    assert(bytes[k] == 10);
    assert forall|i: int| from <= i < k implies #[trigger] bytes[i] != 10 by {
        assert(bytes[i] == encode_utf8(line)[i - from]);
    }
    next_line_break_after(bytes, from, k);
    assert(bytes.subrange(from, k + 1) =~= wire);
    encode_utf8_valid_utf8(line.push('\n'));
    encode_utf8_decode_utf8(line.push('\n'));
}

/// A response that the server writes is received: once its line break is there, what it says to
/// the awaited request comes out, and all of it counts as read.
pub proof fn responses_are_received(
    before: Seq<u8>,
    line: Seq<char>,
    id: u64,
    message: Json,
    parse: spec_fn(Seq<char>) -> Result<Json, Seq<char>>,
)
    requires
        !line.contains('\n'),
        trimmed(line.push('\n')).len() > 0,
        parse(trimmed(line.push('\n'))) == Ok::<Json, Seq<char>>(message),
        id_of(message) == Ok::<Option<u64>, Fault>(Some(id)),
        encode_utf8(line).len() < MAX_MESSAGE_BYTES,
    ensures
        ({
            let bytes = before + encode_utf8(line.push('\n'));
            let read = bounded_reading(bytes, before.len() as int, id, parse);
            &&& read.offset == bytes.len()
            &&& match response_of(message) {
                Ok(result) => read.outcome == Ok::<Option<Json>, Fault>(Some(result)),
                Err(fault) => read.outcome == Err::<Option<Json>, Fault>(fault),
            }
        }),
{
    let bytes = before + encode_utf8(line.push('\n'));
    whole_lines_are_read(before, line, Seq::empty(), id, parse);
    encoded_line_ends_at_its_break(line);
    assert(bytes + Seq::<u8>::empty() =~= bytes);
}

/// A response to another request is never taken for the awaited one: it ends the wait with an
/// error that names both identifiers.
pub proof fn foreign_responses_are_refused(
    line: Seq<char>,
    id: u64,
    other: u64,
    message: Json,
    parse: spec_fn(Seq<char>) -> Result<Json, Seq<char>>,
)
    requires
        trimmed(line).len() > 0,
        parse(trimmed(line)) == Ok::<Json, Seq<char>>(message),
        id_of(message) == Ok::<Option<u64>, Fault>(Some(other)),
        other != id,
    ensures
        line_says(line, id, parse) == Some(
            Err::<Json, Fault>(
                Fault::Protocol(
                    "MCP response id "@ + decimal_text(other as nat) + " did not match request "@
                        + decimal_text(id as nat),
                ),
            ),
        ),
{
}

/// A request gets its answer: once the request is written, and the server has written a line
/// with the response to it, the exchange ends with what that response says, and the session is
/// ready for the next request.
pub proof fn requests_are_answered(
    client: SessionState,
    method: Seq<char>,
    params: Json,
    encode: spec_fn(Json) -> Result<Seq<char>, Seq<char>>,
    before: Seq<u8>,
    line: Seq<char>,
    output: Vec<u8>,
    message: Json,
    parse: spec_fn(Seq<char>) -> Result<Json, Seq<char>>,
)
    requires
        requested(client, method, params, false, encode).1 is Write,
        client.stdout_offset == before.len(),
        output@ == before + encode_utf8(line.push('\n')),
        !line.contains('\n'),
        trimmed(line.push('\n')).len() > 0,
        parse(trimmed(line.push('\n'))) == Ok::<Json, Seq<char>>(message),
        id_of(message) == Ok::<Option<u64>, Fault>(Some(client.next_id)),
        encode_utf8(line).len() < MAX_MESSAGE_BYTES,
    ensures
        ({
            let (asked, write) = requested(client, method, params, false, encode);
            let (written, watch) = advanced(asked, write, HostEvent::Written, parse);
            let (watched, scan) = advanced(written, watch, HostEvent::Cancellation(false), parse);
            let (read, done) = advanced(watched, scan, HostEvent::Output(output), parse);
            &&& done == Stage::Done(
                match response_of(message) {
                    Ok(result) => Ok(Some(result)),
                    Err(fault) => Err(fault),
                },
            )
            &&& read == (SessionState {
                stdout_offset: output.len(),
                next_id: (client.next_id + 1) as u64,
                initialized: client.initialized,
            })
        }),
{
    responses_are_received(before, line, client.next_id, message, parse);
    assert(output@.len() == output.len());
}

// ---------------------------------------------------------------------------------------------
// What is asked of the server
// ---------------------------------------------------------------------------------------------
proof fn lemma_message_names()
    ensures
        "jsonrpc"@ != "id"@,
        "jsonrpc"@ != "method"@,
        "jsonrpc"@ != "params"@,
        "id"@ != "method"@,
        "id"@ != "params"@,
        "method"@ != "params"@,
        "name"@ != "arguments"@,
{
    reveal_strlit("jsonrpc");
    reveal_strlit("id");
    reveal_strlit("method");
    reveal_strlit("params");
    reveal_strlit("name");
    reveal_strlit("arguments");
    assert("jsonrpc"@.len() == 7 && "id"@.len() == 2 && "method"@.len() == 6);
    assert("method"@[0] == 'm' && "params"@[0] == 'p');
    assert("name"@.len() == 4 && "arguments"@.len() == 9 && "params"@.len() == 6);
}

/// A request of an open session is handed to the JSON writer as one message, which is a JSON-RPC
/// 2.0 request with the identifier that is awaited, the given method and the given parameters and
/// nothing else. What the writer makes of it is sent as a line of its own.
pub proof fn requests_say_what_is_asked(
    client: SessionState,
    method: Seq<char>,
    params: Json,
    encode: spec_fn(Json) -> Result<Seq<char>, Seq<char>>,
) -> (message: Json)
    requires
        client.initialized || method == "initialize"@,
        client.next_id < u64::MAX,
    ensures
        ({
            let (next, stage) = requested(client, method, params, false, encode);
            &&& match encode(message) {
                Ok(text) => stage == Stage::Write(text.push('\n'), Some(client.next_id)),
                Err(error) => stage == Stage::Done(
                    Err(Fault::Protocol("cannot encode request: "@ + error)),
                ),
            }
            &&& next.next_id == client.next_id + 1
            &&& next.stdout_offset == client.stdout_offset
            &&& next.initialized == client.initialized
        }),
        message.field("jsonrpc"@) == Some(Json::Text("2.0"@)),
        message.field("id"@) == Some(Json::Number(JsonNumber::Unsigned(client.next_id))),
        message.field("method"@) == Some(Json::Text(method)),
        message.field("params"@) == Some(params),
        forall|name: Seq<char>|
            (#[trigger] message.field(name)) is Some ==> name == "jsonrpc"@ || name == "id"@ || name
                == "method"@ || name == "params"@,
{
    lemma_message_names();
    reveal_strlit("\n");
    let message = request_message(client.next_id, method, params);
    if let Ok(text) = encode(message) {
        assert(text + "\n"@ =~= text.push('\n'));
    }
    message
}

/// A notification is handed to the JSON writer as one message, which is a JSON-RPC 2.0 message
/// with the given method and parameters and without an identifier, and no reply is awaited.
pub proof fn notifications_say_what_is_told(
    method: Seq<char>,
    params: Json,
    encode: spec_fn(Json) -> Result<Seq<char>, Seq<char>>,
) -> (message: Json)
    ensures
        match encode(message) {
            Ok(text) => notified(method, params, false, encode) == Stage::Write(
                text.push('\n'),
                None,
            ),
            Err(error) => notified(method, params, false, encode) == Stage::Done(
                Err(Fault::Protocol("cannot encode request: "@ + error)),
            ),
        },
        notified(method, params, true, encode) == Stage::Terminate,
        message.field("jsonrpc"@) == Some(Json::Text("2.0"@)),
        message.field("method"@) == Some(Json::Text(method)),
        message.field("params"@) == Some(params),
        forall|name: Seq<char>|
            (#[trigger] message.field(name)) is Some ==> name == "jsonrpc"@ || name == "method"@
                || name == "params"@,
{
    lemma_message_names();
    reveal_strlit("\n");
    let message = notice_message(method, params);
    if let Ok(text) = encode(message) {
        assert(text + "\n"@ =~= text.push('\n'));
    }
    message
}

/// A call of a tool reaches the server as it was asked for: the message that is handed to the
/// JSON writer asks for `tools/call` with the name of the tool and with exactly the arguments of
/// the call. Arguments that are no object are refused, and the session stays as it was.
pub proof fn tool_calls_reach_the_server(
    client: SessionState,
    name: Seq<char>,
    arguments: Json,
    encode: spec_fn(Json) -> Result<Seq<char>, Seq<char>>,
) -> (message: Json)
    requires
        client.initialized,
        client.next_id < u64::MAX,
    ensures
        ({
            let (next, stage) = tool_call_begun(client, name, arguments, false, encode);
            if arguments is Object {
                &&& match encode(message) {
                    Ok(text) => stage == Stage::Write(text.push('\n'), Some(client.next_id)),
                    Err(error) => stage == Stage::Done(
                        Err(Fault::Protocol("cannot encode request: "@ + error)),
                    ),
                }
                &&& next.next_id == client.next_id + 1
            } else {
                &&& stage == Stage::Done(
                    Err(Fault::InvalidArgument("tools/call arguments must be a JSON object"@)),
                )
                &&& next == client
            }
        }),
        message.field("jsonrpc"@) == Some(Json::Text("2.0"@)),
        message.field("id"@) == Some(Json::Number(JsonNumber::Unsigned(client.next_id))),
        message.field("method"@) == Some(Json::Text("tools/call"@)),
        message.field("params"@) matches Some(params) && params.field("name"@) == Some(
            Json::Text(name),
        ) && params.field("arguments"@) == Some(arguments) && forall|field: Seq<char>|
            (#[trigger] params.field(field)) is Some ==> field == "name"@ || field == "arguments"@,
{
    lemma_message_names();
    let params = Json::Object(
        Map::<Seq<char>, Json>::empty().insert("name"@, Json::Text(name)).insert(
            "arguments"@,
            arguments,
        ),
    );
    requests_say_what_is_asked(client, "tools/call"@, params, encode)
}

/// Reading a resource asks the server for `resources/read` with exactly the address of the
/// resource. An empty address is refused, and the session stays as it was.
pub proof fn resource_readings_name_the_resource(
    client: SessionState,
    uri: Seq<char>,
    encode: spec_fn(Json) -> Result<Seq<char>, Seq<char>>,
) -> (message: Json)
    requires
        client.initialized,
        client.next_id < u64::MAX,
    ensures
        ({
            let (next, stage) = resource_read_begun(client, uri, false, encode);
            if uri.len() > 0 {
                &&& match encode(message) {
                    Ok(text) => stage == Stage::Write(text.push('\n'), Some(client.next_id)),
                    Err(error) => stage == Stage::Done(
                        Err(Fault::Protocol("cannot encode request: "@ + error)),
                    ),
                }
                &&& next.next_id == client.next_id + 1
            } else {
                &&& stage == Stage::Done(
                    Err(Fault::InvalidArgument("resources/read uri must not be empty"@)),
                )
                &&& next == client
            }
        }),
        message.field("jsonrpc"@) == Some(Json::Text("2.0"@)),
        message.field("id"@) == Some(Json::Number(JsonNumber::Unsigned(client.next_id))),
        message.field("method"@) == Some(Json::Text("resources/read"@)),
        message.field("params"@) matches Some(params) && params.field("uri"@) == Some(
            Json::Text(uri),
        ) && forall|field: Seq<char>|
            (#[trigger] params.field(field)) is Some ==> field == "uri"@,
{
    let params = Json::Object(Map::<Seq<char>, Json>::empty().insert("uri"@, Json::Text(uri)));
    requests_say_what_is_asked(client, "resources/read"@, params, encode)
}

/// Operations of a cancelled run send nothing and have the server terminated; arguments of the
/// wrong shape are refused even then.
pub proof fn cancelled_operations_terminate_the_server(
    client: SessionState,
    name: Seq<char>,
    arguments: Json,
    uri: Seq<char>,
    encode: spec_fn(Json) -> Result<Seq<char>, Seq<char>>,
)
    requires
        client.initialized,
    ensures
        arguments is Object ==> tool_call_begun(client, name, arguments, true, encode) == (
            client,
            Stage::Terminate,
        ),
        uri.len() > 0 ==> resource_read_begun(client, uri, true, encode) == (
            client,
            Stage::Terminate,
        ),
{
}

/// The host introduces itself by its name and its version, in the protocol version that it speaks,
/// and claims no capabilities.
pub proof fn introductions_name_the_host()
    ensures
        introduction_params().field("protocolVersion"@) == Some(Json::Text("2025-03-26"@)),
        introduction_params().field("capabilities"@) == Some(Json::Object(Map::empty())),
        introduction_params().field("clientInfo"@) matches Some(info) && info.field("name"@) == Some(
            Json::Text("pi-agent-core-runebench"@),
        ) && info.field("version"@) == Some(Json::Text("0.1.0"@)),
{
    reveal_strlit("protocolVersion");
    reveal_strlit("capabilities");
    reveal_strlit("clientInfo");
    reveal_strlit("name");
    reveal_strlit("version");
    assert("protocolVersion"@.len() == 15 && "capabilities"@.len() == 12 && "clientInfo"@.len()
        == 10);
    assert("name"@.len() == 4 && "version"@.len() == 7);
}

/// A handshake runs its course: a server that answers the introduction is told that the host is
/// ready, and once it was told, the session is open and the handshake yields what the server said
/// of itself. A run that was cancelled in between tells the server nothing.
pub proof fn handshakes_run_their_course(
    client: SessionState,
    reply: Json,
    introduction: Introduction,
    parse: spec_fn(Seq<char>) -> Result<Json, Seq<char>>,
    encode: spec_fn(Json) -> Result<Seq<char>, Seq<char>>,
) -> (message: Json)
    requires
        introduction_of(reply) == Ok::<Introduction, Fault>(introduction),
    ensures
        introduced(Stage::Done(Ok(Some(reply)))) == Greeting::Confirming(introduction),
        message.field("method"@) == Some(Json::Text("notifications/initialized"@)),
        message.field("params"@) == Some(Json::Object(Map::empty())),
        message.field("id"@) is None,
        encode(message) matches Ok(text) ==> ({
            let (asked, announcing) = greeted(
                client,
                Greeting::Confirming(introduction),
                HostEvent::Cancellation(false),
                parse,
                encode,
            );
            let (open, settled) = greeted(asked, announcing, HostEvent::Written, parse, encode);
            &&& announcing == Greeting::Announcing(
                introduction,
                Stage::Write(text.push('\n'), None),
            )
            &&& asked == client
            &&& open.initialized
            &&& open.next_id == client.next_id
            &&& open.stdout_offset == client.stdout_offset
            &&& settled == Greeting::Settled(Ok(introduction))
        }),
        greeted(
            client,
            Greeting::Confirming(introduction),
            HostEvent::Cancellation(true),
            parse,
            encode,
        ) == (client, Greeting::Announcing(introduction, Stage::Terminate)),
{
    lemma_message_names();
    notifications_say_what_is_told(
        "notifications/initialized"@,
        Json::Object(Map::empty()),
        encode,
    )
}

/// A handshake that fails, or a reply that does not introduce the server, settles the handshake
/// with the error, and the session stays closed.
pub proof fn failed_handshakes_stay_closed(
    client: SessionState,
    introduction: Introduction,
    reply: Json,
    fault: Fault,
    error: String,
    parse: spec_fn(Seq<char>) -> Result<Json, Seq<char>>,
    encode: spec_fn(Json) -> Result<Seq<char>, Seq<char>>,
)
    ensures
        introduced(Stage::Done(Err(fault))) == Greeting::Settled(Err(fault)),
        introduction_of(reply) == Err::<Introduction, Fault>(fault) ==> introduced(
            Stage::Done(Ok(Some(reply))),
        ) == Greeting::Settled(Err(fault)),
        greeted(
            client,
            Greeting::Announcing(introduction, Stage::Terminate),
            HostEvent::Terminated,
            parse,
            encode,
        ) == (client, Greeting::Settled(Err(Fault::Cancelled))),
        forall|text: Seq<char>|
            #[trigger] greeted(
                client,
                Greeting::Announcing(introduction, Stage::Write(text, None)),
                HostEvent::WriteFailed(error),
                parse,
                encode,
            ) == (client, Greeting::Settled(Err(Fault::Io("write MCP request"@, error@)))),
{
}

// ---------------------------------------------------------------------------------------------
// What the server answers
// ---------------------------------------------------------------------------------------------
/// A response that reports an error is an error, whatever its result is: with the code, the
/// message and the data that the server gave. A response without an error is its result.
pub proof fn responses_say_what_the_server_said(message: Json, error: Json, result: Json)
    ensures
        message.field("error"@) == Some(error) ==> ({
            let told = response_of(message);
            &&& told matches Err(Fault::Server(code, text, data)) && data == error.field("data"@)
                && (error.field("message"@) matches Some(Json::Text(said)) ==> text == said) && (
            error.field("code"@) matches Some(Json::Number(JsonNumber::Signed(n))) ==> code == n)
                && (error.field("code"@) matches Some(Json::Number(JsonNumber::Unsigned(n)))
                ==> code == (if n <= i64::MAX {
                n as int
            } else {
                i64::MAX as int
            }))
        }),
        message.field("error"@) is None && message.field("result"@) == Some(result) ==> response_of(
            message,
        ) == Ok::<Json, Fault>(result),
        message.field("error"@) is None && message.field("result"@) is None ==> response_of(message)
            == Err::<Json, Fault>(Fault::Protocol("MCP response omitted both result and error"@)),
{
}

/// A response is one to a request exactly if it carries the number of the request as its
/// identifier. A message without an identifier is a notification, and passed over.
pub proof fn responses_are_told_by_their_identifier(
    line: Seq<char>,
    message: Json,
    id: u64,
    parse: spec_fn(Seq<char>) -> Result<Json, Seq<char>>,
)
    requires
        trimmed(line).len() > 0,
        parse(trimmed(line)) == Ok::<Json, Seq<char>>(message),
    ensures
        message.field("id"@) is None || message.field("id"@) == Some(Json::Null) ==> line_says(
            line,
            id,
            parse,
        ) is None,
        message.field("id"@) == Some(Json::Number(JsonNumber::Unsigned(id))) ==> line_says(
            line,
            id,
            parse,
        ) == Some(response_of(message)),
        id <= i64::MAX && message.field("id"@) == Some(
            Json::Number(JsonNumber::Signed(id as i64)),
        ) ==> line_says(line, id, parse) == Some(response_of(message)),
        line_says(line, id, parse) matches Some(Ok(_)) ==> (message.field("id"@) matches Some(
            Json::Number(JsonNumber::Unsigned(n)),
        ) && n == id) || (message.field("id"@) matches Some(Json::Number(JsonNumber::Signed(n)))
            && n == id),
        line_says(line, id, parse) is None ==> message.field("id"@) is None || message.field("id"@)
            == Some(Json::Null),
{
}

/// A blank line says nothing, and a line that is no JSON ends the wait with the reason.
pub proof fn unreadable_lines_end_the_wait(
    line: Seq<char>,
    error: Seq<char>,
    id: u64,
    parse: spec_fn(Seq<char>) -> Result<Json, Seq<char>>,
)
    ensures
        trimmed(line).len() == 0 ==> line_says(line, id, parse) is None,
        trimmed(line).len() > 0 && parse(trimmed(line)) == Err::<Json, Seq<char>>(error)
            ==> line_says(line, id, parse) == Some(
            Err::<Json, Fault>(Fault::Protocol("MCP response was not JSON: "@ + error)),
        ),
{
}

/// Up to 8 MiB of unread output are read; more is refused, and stays unread.
pub proof fn unread_output_is_bounded(
    bytes: Seq<u8>,
    offset: int,
    id: u64,
    parse: spec_fn(Seq<char>) -> Result<Json, Seq<char>>,
)
    ensures
        bytes.len() - offset > 8_388_608 ==> bounded_reading(bytes, offset, id, parse) == (Reading {
            offset,
            outcome: Err(Fault::Protocol("MCP response exceeded 8388608 bytes"@)),
        }),
        bytes.len() - offset <= 8_388_608 ==> bounded_reading(bytes, offset, id, parse) == reading(
            bytes,
            offset,
            id,
            parse,
        ),
{
}

/// While there is no response, the host looks whether the server runs and waits; a server that
/// has exited is read once more, and reported with its exit status and its error output if there
/// is still no response.
pub proof fn exited_servers_are_reported(
    client: SessionState,
    id: u64,
    status: Option<i32>,
    output: Vec<u8>,
    stderr: Vec<u8>,
    parse: spec_fn(Seq<char>) -> Result<Json, Seq<char>>,
)
    requires
        bounded_reading(output@, client.stdout_offset as int, id, parse).outcome == Ok::<
            Option<Json>,
            Fault,
        >(None),
    ensures
        advanced(client, Stage::Scan(id, None), HostEvent::Output(output), parse).1 == Stage::Poll(
            id,
        ),
        advanced(client, Stage::Poll(id), HostEvent::Running, parse) == (client, Stage::Pause(id)),
        advanced(client, Stage::Poll(id), HostEvent::Exited(status), parse) == (
            client,
            Stage::Scan(id, Some(status)),
        ),
        advanced(client, Stage::Scan(id, Some(status)), HostEvent::Output(output), parse).1
            == Stage::Report(status),
        valid_utf8(stderr@) ==> advanced(
            client,
            Stage::Report(status),
            HostEvent::Stderr(Some(stderr)),
            parse,
        ) == (
            client,
            Stage::Done(
                Err(Fault::ProcessExited(status, trimmed(decode_utf8(stderr@)))),
            ),
        ),
        !valid_utf8(stderr@) ==> advanced(
            client,
            Stage::Report(status),
            HostEvent::Stderr(Some(stderr)),
            parse,
        ) == (client, Stage::Done(Err(Fault::ProcessExited(status, Seq::empty())))),
        advanced(client, Stage::Report(status), HostEvent::Stderr(None), parse) == (
            client,
            Stage::Done(Err(Fault::ProcessExited(status, Seq::empty()))),
        ),
{
}

/// What the server said before it exited still counts: a response that is found in the output
/// ends the exchange, whether the server is still running or not.
pub proof fn found_responses_end_the_exchange(
    client: SessionState,
    id: u64,
    exited: Option<Option<i32>>,
    output: Vec<u8>,
    parse: spec_fn(Seq<char>) -> Result<Json, Seq<char>>,
)
    ensures
        ({
            let read = bounded_reading(output@, client.stdout_offset as int, id, parse);
            let (next, stage) = advanced(
                client,
                Stage::Scan(id, exited),
                HostEvent::Output(output),
                parse,
            );
            &&& read.outcome matches Ok(Some(result)) ==> stage == Stage::Done(Ok(Some(result)))
            &&& read.outcome matches Err(fault) ==> stage == Stage::Done(Err(fault))
            &&& next.stdout_offset == read.offset
        }),
{
    lemma_reading_offset(output@, client.stdout_offset as int, id, parse);
    assert(output@.len() == output.len());
}

/// What the host failed to do ends the exchange with an error that says so and why.
pub proof fn failed_actions_end_the_exchange(
    client: SessionState,
    id: u64,
    text: Seq<char>,
    awaited: Option<u64>,
    exited: Option<Option<i32>>,
    error: String,
    parse: spec_fn(Seq<char>) -> Result<Json, Seq<char>>,
)
    ensures
        advanced(client, Stage::Write(text, awaited), HostEvent::WriteFailed(error), parse) == (
            client,
            Stage::Done(Err(Fault::Io("write MCP request"@, error@))),
        ),
        advanced(client, Stage::Scan(id, exited), HostEvent::OutputFailed(error), parse) == (
            client,
            Stage::Done(Err(Fault::Io("read MCP response capture"@, error@))),
        ),
        advanced(client, Stage::Poll(id), HostEvent::PollFailed(error), parse) == (
            client,
            Stage::Done(Err(Fault::Io("poll MCP child"@, error@))),
        ),
{
}

/// What the host tells at the wrong time changes nothing: an exchange takes only the outcomes of the
/// action that it asked for, and one that is over stays as it is.
pub proof fn stray_events_change_nothing(
    client: SessionState,
    stage: Stage,
    event: HostEvent,
    parse: spec_fn(Seq<char>) -> Result<Json, Seq<char>>,
)
    requires
        !(match stage {
            Stage::Write(_, _) => event is Written || event is WriteFailed,
            Stage::Watch(_) => event is Cancellation,
            Stage::Scan(_, _) => event is Output || event is OutputFailed,
            Stage::Poll(_) => event is Running || event is Exited || event is PollFailed,
            Stage::Report(_) => event is Stderr,
            Stage::Pause(_) => event is Slept,
            Stage::Terminate => event is Terminated,
            Stage::Done(_) => false,
        }),
    ensures
        advanced(client, stage, event, parse) == (client, stage),
{
}

}
