//! Connecting to an MCP server: its capture files, its process and the handshake.
use crate::json::{encodes, parses, Json, JsonValue};
use crate::mcp::{
    capture_error, introduction_or_fault, protocol_error, server_launch, start_error, Fault,
    InitializeResult, Introduction, McpClientConfig, McpError,
};
use crate::process::{CaptureFailure, Launch, LaunchText};
use crate::session::{
    greeted, introduced, introduction_params, requested, Greeting, Handshake, HostEvent, McpClient,
    SessionState,
};
use crate::text::{path_debug_text, texts};
use vstd::prelude::*;
use vstd::string::*;

verus! {

/// The state of a connection that is being made, and what the host is to do about it.
#[derive(Debug, PartialEq, Eq)]
pub enum Connection {
    /// Create the capture file of the output.
    CaptureOutput,
    /// Create the capture file of the error output.
    CaptureErrors,
    /// Start the server, with the environment that the launch names and no other.
    Start(Launch),
    /// Tell whether the run was cancelled.
    Watch,
    /// Go on with the handshake.
    Greet(Handshake),
    /// Kill and reap the server, if there is one, and remove the capture files.
    Clean(McpError),
    /// There is a connection, or there is none.
    Done(Result<InitializeResult, McpError>),
}

/// What came of an action of the host.
#[derive(Debug, PartialEq, Eq)]
pub enum ConnectionEvent {
    Captured,
    CaptureFailed(CaptureFailure),
    Started,
    StartFailed(String),
    /// The server was started, but has no input to write to.
    NoInput,
    Cleaned,
    /// What came of an action that the handshake asked for, or whether the run was cancelled.
    Host(HostEvent),
}

/// The content of a [`Connection`].
#[verifier::ext_equal]
pub enum Link {
    CaptureOutput,
    CaptureErrors,
    Start(LaunchText),
    Watch,
    Greet(Greeting),
    Clean(Fault),
    Done(Result<Introduction, Fault>),
}

impl Connection {
    /// The content of the connection.
    pub open spec fn view(&self) -> Link {
        match self {
            Connection::CaptureOutput => Link::CaptureOutput,
            Connection::CaptureErrors => Link::CaptureErrors,
            Connection::Start(launch) => Link::Start(launch@),
            Connection::Watch => Link::Watch,
            Connection::Greet(handshake) => Link::Greet(handshake@),
            Connection::Clean(error) => Link::Clean(error@),
            Connection::Done(r) => Link::Done(introduction_or_fault(*r)),
        }
    }
}

/// What is said of a capture file that could not be had.
pub open spec fn capture_fault(stream: Seq<char>, failure: CaptureFailure) -> Fault {
    Fault::Io(
        "create private MCP "@ + stream + " capture"@,
        match failure {
            CaptureFailure::Refused(message) => message@,
            CaptureFailure::Exhausted => "could not allocate a unique capture path"@,
        },
    )
}

/// The connection after a step of the handshake: a handshake that failed takes the server down.
pub open spec fn met(greeting: Greeting) -> Link {
    match greeting {
        Greeting::Settled(Ok(introduction)) => Link::Done(Ok(introduction)),
        Greeting::Settled(Err(fault)) => Link::Clean(fault),
        _ => Link::Greet(greeting),
    }
}

/// How a connection is made. An event that does not belong to the action that the host was asked
/// for changes nothing.
pub open spec fn linked(
    client: SessionState,
    config: McpClientConfig,
    link: Link,
    event: ConnectionEvent,
    parse: spec_fn(Seq<char>) -> Result<Json, Seq<char>>,
    encode: spec_fn(Json) -> Result<Seq<char>, Seq<char>>,
) -> (SessionState, Link) {
    match (link, event) {
        (Link::CaptureOutput, ConnectionEvent::Captured) => (client, Link::CaptureErrors),
        (Link::CaptureOutput, ConnectionEvent::CaptureFailed(failure)) => (
            client,
            Link::Done(Err(capture_fault("stdout"@, failure))),
        ),
        (Link::CaptureErrors, ConnectionEvent::Captured) => (
            client,
            Link::Start(server_launch(config)),
        ),
        (Link::CaptureErrors, ConnectionEvent::CaptureFailed(failure)) => (
            client,
            Link::Clean(capture_fault("stderr"@, failure)),
        ),
        (Link::Start(_), ConnectionEvent::Started) => (client, Link::Watch),
        (Link::Start(_), ConnectionEvent::StartFailed(error)) => (
            client,
            Link::Clean(Fault::Io("start MCP command "@ + path_debug_text(config.command@), error@)),
        ),
        (Link::Start(_), ConnectionEvent::NoInput) => (
            client,
            Link::Clean(Fault::Protocol("MCP child did not expose stdin"@)),
        ),
        (Link::Watch, ConnectionEvent::Host(HostEvent::Cancellation(cancelled))) => {
            let (next, stage) = requested(
                client,
                "initialize"@,
                introduction_params(),
                cancelled,
                encode,
            );
            (next, met(introduced(stage)))
        },
        (Link::Greet(greeting), ConnectionEvent::Host(event)) => {
            let (next, after) = greeted(client, greeting, event, parse, encode);
            (next, met(after))
        },
        (Link::Clean(fault), ConnectionEvent::Cleaned) => (client, Link::Done(Err(fault))),
        _ => (client, link),
    }
}

/// Takes the connection after a step of the handshake.
fn meet(handshake: Handshake) -> (r: Connection)
    ensures
        r@ == met(handshake@),
{
    match handshake {
        Handshake::Settled(Ok(result)) => Connection::Done(Ok(result)),
        Handshake::Settled(Err(error)) => Connection::Clean(error),
        handshake => Connection::Greet(handshake),
    }
}

impl McpClient {
    /// Goes on with making the connection to a configured server, after the host did what it was
    /// asked for. A connection begins with [`Connection::CaptureOutput`].
    /// `parse` and `encode` are the JSON reader and writer.
    pub fn connect<
        P: Fn(&str) -> Result<JsonValue, String>,
        E: Fn(&JsonValue) -> Result<String, String>,
    >(
        &mut self,
        config: &McpClientConfig,
        connection: Connection,
        event: ConnectionEvent,
        parse: &P,
        encode: &E,
    ) -> (r: Connection)
        requires
            forall|text: &str| call_requires(*parse, (text,)),
            forall|value: &JsonValue| call_requires(*encode, (value,)),
        ensures
            forall|
                reads: spec_fn(Seq<char>) -> Result<Json, Seq<char>>,
                writes: spec_fn(Json) -> Result<Seq<char>, Seq<char>>,
            |
                #[trigger] parses(*parse, reads) && #[trigger] encodes(*encode, writes) ==> (
                    final(self)@,
                    r@,
                ) == linked(old(self)@, *config, connection@, event, reads, writes),
    {
        match (connection, event) {
            (Connection::CaptureOutput, ConnectionEvent::Captured) => Connection::CaptureErrors,
            (Connection::CaptureOutput, ConnectionEvent::CaptureFailed(failure)) => {
                Connection::Done(Err(capture_error("stdout", failure)))
            },
            (Connection::CaptureErrors, ConnectionEvent::Captured) => {
                Connection::Start(config.launch())
            },
            (Connection::CaptureErrors, ConnectionEvent::CaptureFailed(failure)) => {
                Connection::Clean(capture_error("stderr", failure))
            },
            (Connection::Start(_), ConnectionEvent::Started) => Connection::Watch,
            (Connection::Start(_), ConnectionEvent::StartFailed(error)) => Connection::Clean(
                start_error(config.command.as_str(), error),
            ),
            (Connection::Start(_), ConnectionEvent::NoInput) => Connection::Clean(
                protocol_error("MCP child did not expose stdin"),
            ),
            (Connection::Watch, ConnectionEvent::Host(HostEvent::Cancellation(cancelled))) => {
                meet(self.initialize(cancelled, encode))
            },
            (Connection::Greet(handshake), ConnectionEvent::Host(event)) => {
                meet(self.advance_handshake(handshake, event, parse, encode))
            },
            (Connection::Clean(error), ConnectionEvent::Cleaned) => Connection::Done(Err(error)),
            (connection, _) => connection,
        }
    }
}

// ---------------------------------------------------------------------------------------------
// Laws
// ---------------------------------------------------------------------------------------------
/// A connection that fails after its first capture file was created leaves neither a server nor
/// files behind: it does not end before the host has removed them.
pub proof fn failed_connections_are_cleaned_up(
    client: SessionState,
    config: McpClientConfig,
    link: Link,
    event: ConnectionEvent,
    parse: spec_fn(Seq<char>) -> Result<Json, Seq<char>>,
    encode: spec_fn(Json) -> Result<Seq<char>, Seq<char>>,
)
    requires
        !(link is Done),
        linked(client, config, link, event, parse, encode).1 matches Link::Done(Err(_)),
    ensures
        link is CaptureOutput || (link is Clean && event is Cleaned),
{
}

/// There is a connection only once the handshake has opened the session.
pub proof fn connections_are_open_sessions(
    client: SessionState,
    config: McpClientConfig,
    link: Link,
    event: ConnectionEvent,
    parse: spec_fn(Seq<char>) -> Result<Json, Seq<char>>,
    encode: spec_fn(Json) -> Result<Seq<char>, Seq<char>>,
)
    requires
        !(link is Done),
        !(link matches Link::Greet(Greeting::Settled(_))),
        linked(client, config, link, event, parse, encode).1 matches Link::Done(Ok(_)),
    ensures
        linked(client, config, link, event, parse, encode).0.initialized,
{
}

/// How far a connection has come.
pub open spec fn progress(link: Link) -> int {
    match link {
        Link::CaptureOutput => 0,
        Link::CaptureErrors => 1,
        Link::Start(_) => 2,
        Link::Watch => 3,
        Link::Greet(_) => 4,
        Link::Clean(_) => 5,
        Link::Done(_) => 6,
    }
}

/// A connection starts at most one server, and it starts it exactly as it is configured: it never
/// goes back, the only way to the start hands out the configured program, arguments and
/// environment, and once the host has tried to start it, the start is over.
pub proof fn one_server_is_started_as_configured(
    client: SessionState,
    config: McpClientConfig,
    link: Link,
    event: ConnectionEvent,
    parse: spec_fn(Seq<char>) -> Result<Json, Seq<char>>,
    encode: spec_fn(Json) -> Result<Seq<char>, Seq<char>>,
)
    ensures
        ({
            let next = linked(client, config, link, event, parse, encode).1;
            &&& progress(link) <= progress(next)
            &&& !(link is Start) && next is Start ==> next == Link::Start(server_launch(config))
            &&& link is Start && (event is Started || event is StartFailed || event is NoInput)
                ==> progress(link) < progress(next)
        }),
{
}

/// A connection runs its course: both captures are created, the configured server is started, and
/// once the run is known not to be cancelled the handshake begins. The session is untouched until
/// then.
pub proof fn connections_run_their_course(
    client: SessionState,
    config: McpClientConfig,
    launch: LaunchText,
    parse: spec_fn(Seq<char>) -> Result<Json, Seq<char>>,
    encode: spec_fn(Json) -> Result<Seq<char>, Seq<char>>,
)
    ensures
        ({
            let step = |link: Link, event: ConnectionEvent|
                linked(client, config, link, event, parse, encode);
            &&& step(Link::CaptureOutput, ConnectionEvent::Captured) == (client, Link::CaptureErrors)
            &&& step(Link::CaptureErrors, ConnectionEvent::Captured) matches (same, Link::Start(
                started,
            )) && same == client && started.program == config.command@ && started.arguments
                == texts(config.args@) && (config.home matches Some(home) ==> started.environment
                == seq![("PATH"@, config.path@), ("HOME"@, home@)]) && (config.home is None
                ==> started.environment == seq![("PATH"@, config.path@)])
            &&& step(Link::Start(launch), ConnectionEvent::Started) == (client, Link::Watch)
            &&& client.next_id < u64::MAX ==> ({
                let (asked, stage) = requested(
                    client,
                    "initialize"@,
                    introduction_params(),
                    false,
                    encode,
                );
                let (next, link) = step(
                    Link::Watch,
                    ConnectionEvent::Host(HostEvent::Cancellation(false)),
                );
                next == asked && (stage is Write ==> link == Link::Greet(
                    Greeting::Introducing(stage),
                ))
            })
        }),
{
}

/// What went wrong while a connection was made is what the caller is told once everything is
/// cleaned up, and a handshake that succeeded makes the connection with what the server said.
pub proof fn connections_end_with_what_happened(
    client: SessionState,
    config: McpClientConfig,
    launch: LaunchText,
    fault: Fault,
    introduction: Introduction,
    error: String,
    parse: spec_fn(Seq<char>) -> Result<Json, Seq<char>>,
    encode: spec_fn(Json) -> Result<Seq<char>, Seq<char>>,
)
    ensures
        ({
            let step = |link: Link, event: ConnectionEvent|
                linked(client, config, link, event, parse, encode);
            &&& step(Link::Clean(fault), ConnectionEvent::Cleaned) == (
                client,
                Link::Done(Err(fault)),
            )
            &&& step(
                Link::CaptureOutput,
                ConnectionEvent::CaptureFailed(CaptureFailure::Refused(error)),
            ) == (
                client,
                Link::Done(Err(Fault::Io("create private MCP stdout capture"@, error@))),
            )
            &&& step(
                Link::CaptureErrors,
                ConnectionEvent::CaptureFailed(CaptureFailure::Refused(error)),
            ) == (client, Link::Clean(Fault::Io("create private MCP stderr capture"@, error@)))
            &&& step(Link::Start(launch), ConnectionEvent::StartFailed(error)) == (
                client,
                Link::Clean(
                    Fault::Io("start MCP command "@ + path_debug_text(config.command@), error@),
                ),
            )
            &&& step(Link::Start(launch), ConnectionEvent::NoInput) == (
                client,
                Link::Clean(Fault::Protocol("MCP child did not expose stdin"@)),
            )
        }),
        met(Greeting::Settled(Ok(introduction))) == Link::Done(Ok(introduction)),
        met(Greeting::Settled(Err(fault))) == Link::Clean(fault),
{
    reveal_strlit("create private MCP ");
    reveal_strlit("stdout");
    reveal_strlit("stderr");
    reveal_strlit(" capture");
    reveal_strlit("create private MCP stdout capture");
    reveal_strlit("create private MCP stderr capture");
    assert("create private MCP "@ + "stdout"@ + " capture"@ =~= "create private MCP stdout capture"@);
    assert("create private MCP "@ + "stderr"@ + " capture"@ =~= "create private MCP stderr capture"@);
}

/// Every step of a handshake within a connection is a step of the handshake: the connection neither
/// adds to it nor leaves anything of it out.
pub proof fn connections_follow_the_handshake(
    client: SessionState,
    config: McpClientConfig,
    greeting: Greeting,
    event: HostEvent,
    parse: spec_fn(Seq<char>) -> Result<Json, Seq<char>>,
    encode: spec_fn(Json) -> Result<Seq<char>, Seq<char>>,
)
    ensures
        ({
            let (next, after) = greeted(client, greeting, event, parse, encode);
            let (state, link) = linked(
                client,
                config,
                Link::Greet(greeting),
                ConnectionEvent::Host(event),
                parse,
                encode,
            );
            &&& state == next
            &&& match after {
                Greeting::Settled(Ok(introduction)) => link == Link::Done(Ok(introduction)),
                Greeting::Settled(Err(fault)) => link == Link::Clean(fault),
                _ => link == Link::Greet(after),
            }
        }),
{
}

/// What the host tells at the wrong time changes nothing, and a connection that was made or failed
/// stays as it is.
pub proof fn stray_events_change_nothing(
    client: SessionState,
    config: McpClientConfig,
    link: Link,
    event: ConnectionEvent,
    parse: spec_fn(Seq<char>) -> Result<Json, Seq<char>>,
    encode: spec_fn(Json) -> Result<Seq<char>, Seq<char>>,
)
    requires
        !(match link {
            Link::CaptureOutput => event is Captured || event is CaptureFailed,
            Link::CaptureErrors => event is Captured || event is CaptureFailed,
            Link::Start(_) => event is Started || event is StartFailed || event is NoInput,
            Link::Watch => event matches ConnectionEvent::Host(HostEvent::Cancellation(_)),
            Link::Greet(_) => event is Host,
            Link::Clean(_) => event is Cleaned,
            Link::Done(_) => false,
        }),
    ensures
        linked(client, config, link, event, parse, encode) == (client, link),
{
}

}
