//! The course of a transfer and of a connection, event by event.
use runebench_pi_agent::args::Args;
use runebench_pi_agent::completion::ModelStreamEvent;
use runebench_pi_agent::connection::{Connection, ConnectionEvent};
use runebench_pi_agent::host::{audit_record, system_prompt, AgentEnd, Preparation};
use runebench_pi_agent::json::{empty_object, JsonNumber, JsonObject, JsonValue};
use runebench_pi_agent::mcp::{McpClientConfig, McpError};
use runebench_pi_agent::messages::StopReason;
use runebench_pi_agent::process::CaptureFailure;
use runebench_pi_agent::session::{Exchange, Handshake, HostEvent, McpClient};
use runebench_pi_agent::startup::{Startup, StartupEvent, Step, ToolDeclaration};
use runebench_pi_agent::transfer::{
    curl_launch, ConfigFailure, Remains, Transfer, TransferEvent,
};
use runebench_pi_agent::transport::ModelRequest;

fn object(fields: Vec<(&str, JsonValue)>) -> JsonValue {
    let mut object = JsonObject::new();
    for (name, value) in fields {
        object.insert(name.to_owned(), value);
    }
    JsonValue::Object(object)
}

/// A reader that knows two messages.
fn parse(text: &str) -> Result<JsonValue, String> {
    match text {
        "completion" => Ok(object(vec![(
            "choices",
            JsonValue::Array(vec![object(vec![(
                "message",
                object(vec![("content", JsonValue::text("hi"))]),
            )])]),
        )])),
        "introduction" => Ok(object(vec![
            ("id", JsonValue::Number(JsonNumber::Signed(1))),
            (
                "result",
                object(vec![("protocolVersion", JsonValue::text("v"))]),
            ),
        ])),
        other => Err(format!("unknown {other}")),
    }
}

fn encode(value: &JsonValue) -> Result<String, String> {
    match value.get("method") {
        Some(JsonValue::String(method)) => Ok(method.clone()),
        _ => Err("no method".to_owned()),
    }
}

fn accept(id: &str) -> bool {
    !id.is_empty()
}

fn step(transfer: Transfer, event: TransferEvent) -> Transfer {
    transfer.advance(event, &parse, &accept)
}

fn request(context: &str) -> ModelRequest {
    ModelRequest {
        system_prompt: "s".to_owned(),
        context: context.to_owned(),
        tools: Vec::new(),
    }
}

fn failed(message: &str) -> Transfer {
    Transfer::Clean {
        outcome: Err(message.to_owned()),
    }
}

#[test]
fn a_transfer_runs_to_its_completion() {
    let mut transfer = Transfer::begin("key", "m", &request("[]"), &encode);
    match &transfer {
        Transfer::WriteConfig { config, payload } => {
            assert!(config.contains("Bearer key\""));
            assert!(payload.starts_with("{\"model\":\"m\""));
        }
        other => panic!("{other:?}"),
    }
    transfer = step(
        transfer,
        TransferEvent::ConfigWritten {
            path: "/tmp/c.curl".to_owned(),
        },
    );
    assert!(matches!(transfer, Transfer::CaptureOutput { .. }));
    transfer = step(transfer, TransferEvent::Captured);
    assert!(matches!(transfer, Transfer::CaptureErrors { .. }));
    transfer = step(transfer, TransferEvent::Captured);
    match &transfer {
        Transfer::Start { launch, .. } => {
            assert_eq!(*launch, curl_launch("/tmp/c.curl"));
            assert_eq!(launch.program, "/usr/bin/curl");
            assert_eq!(
                launch.arguments,
                vec![
                    "--silent",
                    "--show-error",
                    "--config",
                    "/tmp/c.curl",
                    "--write-out",
                    "\n%{http_code}"
                ]
            );
            assert_eq!(
                launch.environment,
                vec![(
                    "PATH".to_owned(),
                    "/root/.bun/bin:/usr/local/bin:/usr/bin:/bin".to_owned()
                )]
            );
        }
        other => panic!("{other:?}"),
    }
    transfer = step(transfer, TransferEvent::Started);
    assert!(matches!(&transfer, Transfer::Send { payload } if payload.contains("\"s\"")));
    transfer = step(transfer, TransferEvent::Sent);
    assert_eq!(transfer, Transfer::Wait);
    transfer = step(
        transfer,
        TransferEvent::Ended {
            success: true,
            cancelled: false,
        },
    );
    assert_eq!(transfer, Transfer::ReadOutput { success: true });
    transfer = step(transfer, TransferEvent::Read(b"completion\n200".to_vec()));
    transfer = step(transfer, TransferEvent::Read(b"warning".to_vec()));
    let remains = Remains {
        success: true,
        stdout: b"completion\n200".to_vec(),
        stderr: b"warning".to_vec(),
    };
    assert_eq!(
        transfer,
        Transfer::Clean {
            outcome: Ok(remains.clone())
        }
    );
    transfer = step(transfer, TransferEvent::Cleaned);
    assert_eq!(
        transfer,
        Transfer::Check {
            remains: remains.clone()
        }
    );
    match step(transfer, TransferEvent::Cancellation(false)) {
        Transfer::Done(Ok((events, _))) => assert_eq!(
            events,
            vec![
                ModelStreamEvent::TextDelta("hi".to_owned()),
                ModelStreamEvent::End(StopReason::EndTurn)
            ]
        ),
        other => panic!("{other:?}"),
    }
    assert_eq!(
        step(Transfer::Check { remains }, TransferEvent::Cancellation(true)),
        Transfer::Done(Err("OpenRouter transport cancelled".to_owned()))
    );
}

#[test]
fn a_transfer_that_cannot_begin_does_nothing() {
    assert_eq!(
        Transfer::begin("key", "m", &request("{}"), &encode),
        Transfer::Done(Err(
            "OpenAI conversion did not produce a JSON message array".to_owned()
        ))
    );
    assert_eq!(
        Transfer::begin("k\ney", "m", &request("[]"), &encode),
        Transfer::Done(Err(
            "OPENROUTER_API_KEY must not contain line breaks".to_owned()
        ))
    );
}

#[test]
fn failures_of_a_transfer_are_reported_after_the_files_are_removed() {
    let payload = || "p".to_owned();
    let text = || "e".to_owned();
    let config = || Transfer::WriteConfig {
        config: "c".to_owned(),
        payload: payload(),
    };
    for (failure, message) in [
        (
            ConfigFailure::Clock(text()),
            "cannot create OpenRouter transport config: e",
        ),
        (
            ConfigFailure::Create(text()),
            "cannot create private OpenRouter transport config: e",
        ),
    ] {
        assert_eq!(
            step(config(), TransferEvent::ConfigFailed(failure)),
            Transfer::Done(Err(message.to_owned()))
        );
    }
    let cases = [
        (
            config(),
            TransferEvent::ConfigFailed(ConfigFailure::Write(text())),
            "cannot write OpenRouter transport config: e",
        ),
        (
            Transfer::CaptureOutput {
                config_path: text(),
                payload: payload(),
            },
            TransferEvent::CaptureFailed(CaptureFailure::Exhausted),
            "cannot allocate a unique private openrouter capture after 16 attempts",
        ),
        (
            Transfer::CaptureErrors {
                config_path: text(),
                payload: payload(),
            },
            TransferEvent::CaptureFailed(CaptureFailure::Refused(text())),
            "cannot create private openrouter capture: e",
        ),
        (
            Transfer::Start {
                launch: curl_launch("c"),
                payload: payload(),
            },
            TransferEvent::StartFailed(text()),
            "could not start OpenRouter transport: e",
        ),
        (
            Transfer::Send { payload: payload() },
            TransferEvent::NoInput,
            "OpenRouter transport did not expose request stdin",
        ),
        (
            Transfer::Send { payload: payload() },
            TransferEvent::SendFailed(text()),
            "could not write OpenRouter request: e",
        ),
        (
            Transfer::Wait,
            TransferEvent::WaitFailed("child status could not be read: e".to_owned()),
            "child status could not be read: e",
        ),
        (
            Transfer::Wait,
            TransferEvent::Ended {
                success: false,
                cancelled: true,
            },
            "OpenRouter transport cancelled",
        ),
        (
            Transfer::ReadOutput { success: true },
            TransferEvent::ReadFailed(text()),
            "cannot read OpenRouter response capture: e",
        ),
        (
            Transfer::ReadErrors {
                success: true,
                stdout: Vec::new(),
            },
            TransferEvent::ReadFailed(text()),
            "cannot read OpenRouter error capture: e",
        ),
    ];
    for (transfer, event, message) in cases {
        let clean = step(transfer, event);
        assert_eq!(clean, failed(message));
        assert_eq!(
            step(clean, TransferEvent::Cleaned),
            Transfer::Done(Err(message.to_owned()))
        );
    }
    assert_eq!(step(Transfer::Wait, TransferEvent::Cleaned), Transfer::Wait);
}

fn link(client: &mut McpClient, connection: Connection, event: ConnectionEvent) -> Connection {
    client.connect(&McpClientConfig::runebench(), connection, event, &parse, &encode)
}

#[test]
fn a_connection_is_made() {
    let mut client = McpClient::new();
    let mut connection = Connection::CaptureOutput;
    connection = link(&mut client, connection, ConnectionEvent::Captured);
    assert_eq!(connection, Connection::CaptureErrors);
    connection = link(&mut client, connection, ConnectionEvent::Captured);
    assert_eq!(
        connection,
        Connection::Start(McpClientConfig::runebench().launch())
    );
    connection = link(&mut client, connection, ConnectionEvent::Started);
    assert_eq!(connection, Connection::Watch);
    let events = [
        HostEvent::Cancellation(false),
        HostEvent::Written,
        HostEvent::Cancellation(false),
        HostEvent::Output(b"introduction\n".to_vec()),
        HostEvent::Cancellation(false),
    ];
    for event in events {
        connection = link(&mut client, connection, ConnectionEvent::Host(event));
    }
    assert!(!client.state().initialized);
    match &connection {
        Connection::Greet(Handshake::Announcing(_, Exchange::Write { text, awaited })) => {
            assert_eq!(text, "notifications/initialized\n");
            assert_eq!(*awaited, None);
        }
        other => panic!("{other:?}"),
    }
    connection = link(
        &mut client,
        connection,
        ConnectionEvent::Host(HostEvent::Written),
    );
    match connection {
        Connection::Done(Ok(introduction)) => {
            assert_eq!(introduction.protocol_version, "v");
            assert_eq!(introduction.capabilities, empty_object());
        }
        other => panic!("{other:?}"),
    }
    assert!(client.state().initialized);
    assert_eq!(client.state().next_id, 2);
}

#[test]
fn a_connection_that_fails_is_cleaned_up() {
    let mut client = McpClient::new();
    assert_eq!(
        link(
            &mut client,
            Connection::CaptureOutput,
            ConnectionEvent::CaptureFailed(CaptureFailure::Exhausted)
        ),
        Connection::Done(Err(McpError::Io {
            operation: "create private MCP stdout capture".to_owned(),
            message: "could not allocate a unique capture path".to_owned()
        }))
    );
    let cases = [
        (
            Connection::CaptureErrors,
            ConnectionEvent::CaptureFailed(CaptureFailure::Refused("e".to_owned())),
            McpError::Io {
                operation: "create private MCP stderr capture".to_owned(),
                message: "e".to_owned(),
            },
        ),
        (
            Connection::Start(McpClientConfig::runebench().launch()),
            ConnectionEvent::StartFailed("e".to_owned()),
            McpError::Io {
                operation: "start MCP command \"bun\"".to_owned(),
                message: "e".to_owned(),
            },
        ),
        (
            Connection::Start(McpClientConfig::runebench().launch()),
            ConnectionEvent::NoInput,
            McpError::Protocol {
                message: "MCP child did not expose stdin".to_owned(),
            },
        ),
        (
            Connection::Greet(Handshake::Introducing(Exchange::Terminate)),
            ConnectionEvent::Host(HostEvent::Terminated),
            McpError::Cancelled,
        ),
    ];
    for (connection, event, error) in cases {
        let clean = link(&mut client, connection, event);
        assert_eq!(clean, Connection::Clean(error.clone()));
        assert_eq!(
            link(&mut client, clean, ConnectionEvent::Cleaned),
            Connection::Done(Err(error))
        );
    }
    assert_eq!(
        link(&mut client, Connection::Watch, ConnectionEvent::Cleaned),
        Connection::Watch
    );
    assert!(!client.state().initialized);
}

fn args(model: &str) -> Args {
    Args {
        model: model.to_owned(),
        instruction: "do".to_owned(),
        workspace: "/app".to_owned(),
        policy: "/p.luau".to_owned(),
        log_jsonl: "/logs/a.jsonl".to_owned(),
        run_deadline: None,
        commandcode_date: Some("d".to_owned()),
        commandcode_environment: Some("e".to_owned()),
        commandcode_thread_id: Some("t".to_owned()),
        commandcode_project_slug: Some("s".to_owned()),
    }
}

fn declare(name: &str, handler: Option<&str>) -> ToolDeclaration {
    ToolDeclaration {
        name: name.to_owned(),
        handler_source: handler.map(str::to_owned),
    }
}

fn policy(declarations: Vec<ToolDeclaration>) -> StartupEvent {
    StartupEvent::Policy {
        declarations,
        prompt: "policy".to_owned(),
    }
}

/// Does every step of a run up to the one where its handlers are made.
fn prepare(
    model: &str,
    declarations: Vec<ToolDeclaration>,
    docs: Result<String, String>,
) -> Startup {
    let mut startup = Startup::begin(&args(model)).expect("plan");
    let events = vec![
        (Step::ReadKey, StartupEvent::Key(Some("key".to_owned()))),
        (Step::Prepare(Preparation::ReadPolicy), StartupEvent::Done),
        (Step::Prepare(Preparation::LoadPolicy), policy(declarations)),
        (Step::Prepare(Preparation::Connect), StartupEvent::Done),
        (Step::LoadDocuments, StartupEvent::Documents(docs)),
        (Step::Prepare(Preparation::MakeCapability), StartupEvent::Done),
        (Step::Prepare(Preparation::BindCapability), StartupEvent::Done),
        (Step::Prepare(Preparation::MakeTools), StartupEvent::Done),
        (
            Step::Prepare(Preparation::LoadProfile),
            StartupEvent::Profile {
                prompt: "profile".to_owned(),
            },
        ),
        (Step::Prepare(Preparation::BindProfile), StartupEvent::Done),
    ];
    for (step, event) in events {
        assert_eq!(*startup.step(), step);
        startup = startup.advance(event);
    }
    startup
}

fn finish(mut startup: Startup, steps: &[Preparation]) -> Startup {
    for preparation in steps {
        assert_eq!(*startup.step(), Step::Prepare(*preparation));
        startup = startup.advance(StartupEvent::Done);
    }
    startup
}

#[test]
fn a_run_takes_its_steps_in_order() {
    let declarations = vec![
        declare("execute_code", Some("one")),
        declare("list_bots", Some("two")),
    ];
    let mut startup = prepare("openrouter/m", declarations, Ok("docs".to_owned()));
    assert_eq!(startup.api_key(), "key");
    assert_eq!(startup.plan().model, "m");
    for (index, source) in ["one", "two"].iter().enumerate() {
        assert_eq!(*startup.step(), Step::Prepare(Preparation::MakeHandler));
        let (found, declaration) = startup.declaration().expect("declaration");
        assert_eq!(found, index);
        assert_eq!(declaration.handler_source.as_deref(), Some(*source));
        startup = startup.advance(StartupEvent::Done);
    }
    assert_eq!(startup.declaration(), None);
    assert_eq!(
        startup.briefing().system_prompt,
        system_prompt("profile", "policy", "docs")
    );
    assert_eq!(startup.briefing().audit, audit_record(true));
    startup = finish(
        startup,
        &[
            Preparation::WriteAudit,
            Preparation::MakeLogDirectory,
            Preparation::CreateLog,
            Preparation::StartAgent,
        ],
    );
    assert_eq!(*startup.step(), Step::Drive);
    startup = startup.advance(StartupEvent::Ended {
        end: AgentEnd::Cancelled("cancelled".to_owned()),
        deadline_expired: true,
    });
    assert_eq!(*startup.step(), Step::Over(Ok(())));
}

#[test]
fn a_run_without_documents_or_tools_goes_on() {
    let startup = prepare("commandcode/m", Vec::new(), Err("no".to_owned()));
    assert_eq!(
        startup.briefing().system_prompt,
        system_prompt("profile", "policy", "")
    );
    assert_eq!(startup.briefing().audit, audit_record(false));
    let startup = finish(
        startup,
        &[
            Preparation::WriteAudit,
            Preparation::DescribeHost,
            Preparation::ConfigureProvider,
            Preparation::MakeLogDirectory,
            Preparation::CreateLog,
            Preparation::StartAgent,
        ],
    );
    assert_eq!(*startup.step(), Step::Drive);
}

#[test]
fn a_bad_declaration_ends_a_run_before_its_audit() {
    let over = |message: &str| Step::Over(Err(message.to_owned()));
    let startup = prepare(
        "openrouter/m",
        vec![declare("shell", Some("x"))],
        Ok(String::new()),
    );
    assert_eq!(
        *startup.step(),
        over("Runebench policy declared unsupported tool \"shell\"")
    );
    let startup = prepare(
        "openrouter/m",
        vec![declare("execute_code", Some("x")), declare("list_bots", None)],
        Ok(String::new()),
    );
    let startup = startup.advance(StartupEvent::Done);
    assert_eq!(
        *startup.step(),
        over("Runebench policy tool \"list_bots\" must declare a coroutine handler_source")
    );
    let startup = prepare(
        "openrouter/m",
        vec![declare("execute_code", Some("x"))],
        Ok(String::new()),
    );
    let startup = startup.advance(StartupEvent::Failed("e".to_owned()));
    assert_eq!(
        *startup.step(),
        over("cannot construct Luau handler for Runebench tool \"execute_code\": e")
    );
}

#[test]
fn a_run_that_cannot_start_says_why() {
    let mut incomplete = args("commandcode/m");
    incomplete.commandcode_date = None;
    assert_eq!(
        Startup::begin(&incomplete),
        Err("commandcode models require --commandcode-date".to_owned())
    );
    let startup = Startup::begin(&args("openrouter/m")).expect("plan");
    let startup = startup.advance(StartupEvent::Done);
    assert_eq!(*startup.step(), Step::ReadKey);
    let startup = startup.advance(StartupEvent::Key(None));
    assert_eq!(
        *startup.step(),
        Step::Over(Err(
            "OPENROUTER_API_KEY must be supplied by the caller's secret injector".to_owned()
        ))
    );
    let startup = Startup::begin(&args("openrouter/m")).expect("plan");
    let startup = startup
        .advance(StartupEvent::Key(Some("k".to_owned())))
        .advance(StartupEvent::Failed("e".to_owned()));
    assert_eq!(
        *startup.step(),
        Step::Over(Err("cannot read Luau policy /p.luau: e".to_owned()))
    );
    let startup = prepare("openrouter/m", Vec::new(), Ok(String::new()))
        .advance(StartupEvent::NoDirectory);
    assert_eq!(
        *startup.step(),
        Step::Over(Err("event-log path has no parent".to_owned()))
    );
}
