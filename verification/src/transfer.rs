//! The course of one transfer to OpenRouter, from the request to the completion.
//!
//! As in a session, the transfer decides and the host acts: a [`Transfer`] tells the host what
//! to do next, and the host hands back what came of it as a [`TransferEvent`].
use crate::completion::{completion_result, decides, ModelStreamEvent, StreamEvent};
use crate::json::{encodes, parses, Json, JsonValue};
use crate::process::{
    add_argument, capture_message, describe_capture_failure, set_variable, CaptureFailure, Launch,
    LaunchText,
};
use crate::text::{text_pairs, texts};
use crate::transport::{
    complete, config_text, config_value, curl_config, has_line_break, keys_reach_the_provider,
    openrouter_payload, payload_json, transfer_outcome, ModelRequest,
};
use crate::usage::Usage;
use vstd::prelude::*;
use vstd::string::*;

verus! {

/// Why the configuration of a transfer is not in its file.
#[derive(Clone, Debug, PartialEq, Eq)]
pub enum ConfigFailure {
    /// There is no time of day to name the file after.
    Clock(String),
    /// The file could not be created.
    Create(String),
    /// The file could not be written.
    Write(String),
}

/// What an ended child process left behind.
#[derive(Clone, Debug, PartialEq, Eq)]
pub struct Remains {
    /// Whether the process ended with success.
    pub success: bool,
    pub stdout: Vec<u8>,
    pub stderr: Vec<u8>,
}

/// The state of a transfer, and what the host is to do about it.
#[derive(Debug, PartialEq, Eq)]
pub enum Transfer {
    /// Write the configuration to a new private file.
    WriteConfig { config: String, payload: String },
    /// Create the capture file of the output.
    CaptureOutput { config_path: String, payload: String },
    /// Create the capture file of the error output.
    CaptureErrors { config_path: String, payload: String },
    /// Start the child process, with the environment that the launch names and no other.
    Start { launch: Launch, payload: String },
    /// Write the request to the child, and close its input.
    Send { payload: String },
    /// Wait until the child has ended or the run is cancelled.
    Wait,
    /// Read the captured output.
    ReadOutput { success: bool },
    /// Read the captured error output.
    ReadErrors { success: bool, stdout: Vec<u8> },
    /// Remove the configuration and the captures.
    Clean { outcome: Result<Remains, String> },
    /// Tell whether the run was cancelled.
    Check { remains: Remains },
    /// The transfer is over.
    Done(Result<(Vec<ModelStreamEvent>, Usage), String>),
}

/// What came of an action of the host.
#[derive(Debug, PartialEq, Eq)]
pub enum TransferEvent {
    /// The configuration is in the file of that path.
    ConfigWritten { path: String },
    ConfigFailed(ConfigFailure),
    Captured,
    CaptureFailed(CaptureFailure),
    Started,
    StartFailed(String),
    Sent,
    /// The child has no input to write to.
    NoInput,
    SendFailed(String),
    /// The child has ended; `cancelled` tells whether that is the host's doing.
    Ended { success: bool, cancelled: bool },
    WaitFailed(String),
    Read(Vec<u8>),
    ReadFailed(String),
    Cleaned,
    Cancellation(bool),
}

/// The content of a [`Transfer`].
#[verifier::ext_equal]
pub enum Phase {
    WriteConfig(Seq<char>, Seq<char>),
    CaptureOutput(Seq<char>, Seq<char>),
    CaptureErrors(Seq<char>, Seq<char>),
    Start(LaunchText, Seq<char>),
    Send(Seq<char>),
    Wait,
    ReadOutput(bool),
    ReadErrors(bool, Seq<u8>),
    Clean(Result<(bool, Seq<u8>, Seq<u8>), Seq<char>>),
    Check(bool, Seq<u8>, Seq<u8>),
    Done(Result<(Seq<StreamEvent>, Usage), Seq<char>>),
}

/// The content of what a child left behind, or the message about it.
pub open spec fn remains_result(r: Result<Remains, String>) -> Result<
    (bool, Seq<u8>, Seq<u8>),
    Seq<char>,
> {
    match r {
        Ok(remains) => Ok((remains.success, remains.stdout@, remains.stderr@)),
        Err(message) => Err(message@),
    }
}

impl Transfer {
    /// The content of the transfer.
    pub open spec fn view(&self) -> Phase {
        match self {
            Transfer::WriteConfig { config, payload } => Phase::WriteConfig(config@, payload@),
            Transfer::CaptureOutput { config_path, payload } => Phase::CaptureOutput(
                config_path@,
                payload@,
            ),
            Transfer::CaptureErrors { config_path, payload } => Phase::CaptureErrors(
                config_path@,
                payload@,
            ),
            Transfer::Start { launch, payload } => Phase::Start(launch@, payload@),
            Transfer::Send { payload } => Phase::Send(payload@),
            Transfer::Wait => Phase::Wait,
            Transfer::ReadOutput { success } => Phase::ReadOutput(*success),
            Transfer::ReadErrors { success, stdout } => Phase::ReadErrors(*success, stdout@),
            Transfer::Clean { outcome } => Phase::Clean(remains_result(*outcome)),
            Transfer::Check { remains } => Phase::Check(
                remains.success,
                remains.stdout@,
                remains.stderr@,
            ),
            Transfer::Done(r) => Phase::Done(completion_result(*r)),
        }
    }
}

/// What is said of a configuration that could not be written.
pub open spec fn config_message(failure: ConfigFailure) -> Seq<char> {
    match failure {
        ConfigFailure::Clock(error) => "cannot create OpenRouter transport config: "@ + error@,
        ConfigFailure::Create(error) => "cannot create private OpenRouter transport config: "@
            + error@,
        ConfigFailure::Write(error) => "cannot write OpenRouter transport config: "@ + error@,
    }
}

/// The arguments of the child process of a transfer.
pub open spec fn curl_command_line(config_path: Seq<char>) -> Seq<Seq<char>> {
    seq![
        "--silent"@,
        "--show-error"@,
        "--config"@,
        config_path,
        "--write-out"@,
        "\n%{http_code}"@,
    ]
}

/// The child process of a transfer. Its environment is a fixed `PATH`: the key of the provider
/// stands in the configuration alone, and no descendant of the child inherits it.
pub open spec fn curl_process(config_path: Seq<char>) -> LaunchText {
    LaunchText {
        program: "/usr/bin/curl"@,
        arguments: curl_command_line(config_path),
        environment: seq![("PATH"@, "/root/.bun/bin:/usr/local/bin:/usr/bin:/bin"@)],
    }
}

/// Makes the arguments of the child process of a transfer.
pub fn curl_arguments(config_path: &str) -> (r: Vec<String>)
    ensures
        texts(r@) == curl_command_line(config_path@),
{
    let mut arguments: Vec<String> = Vec::new();
    assert(texts(arguments@) =~= Seq::<Seq<char>>::empty());
    add_argument(&mut arguments, "--silent");
    add_argument(&mut arguments, "--show-error");
    add_argument(&mut arguments, "--config");
    add_argument(&mut arguments, config_path);
    add_argument(&mut arguments, "--write-out");
    add_argument(&mut arguments, "\n%{http_code}");
    assert(texts(arguments@) =~= curl_command_line(config_path@));
    arguments
}

/// Describes the child process of a transfer.
pub fn curl_launch(config_path: &str) -> (r: Launch)
    ensures
        r@ == curl_process(config_path@),
{
    let mut environment: Vec<(String, String)> = Vec::new();
    assert(text_pairs(environment@) =~= Seq::<(Seq<char>, Seq<char>)>::empty());
    set_variable(&mut environment, "PATH", "/root/.bun/bin:/usr/local/bin:/usr/bin:/bin");
    assert(text_pairs(environment@) =~= curl_process(config_path@).environment);
    Launch {
        program: String::from_str("/usr/bin/curl"),
        arguments: curl_arguments(config_path),
        environment,
    }
}

/// How a transfer is begun: a request that cannot be written and a key that cannot be passed on
/// end it before anything is done.
pub open spec fn transfer_begun(
    api_key: Seq<char>,
    model: Seq<char>,
    request: ModelRequest,
    encode: spec_fn(Json) -> Result<Seq<char>, Seq<char>>,
) -> Phase {
    match payload_json(model, request, encode) {
        Err(message) => Phase::Done(Err(message)),
        Ok(payload) => if has_line_break(api_key) {
            Phase::Done(Err("OPENROUTER_API_KEY must not contain line breaks"@))
        } else {
            Phase::WriteConfig(config_text(api_key), payload)
        },
    }
}

/// A transfer that failed with files to remove.
pub open spec fn failed(message: Seq<char>) -> Phase {
    Phase::Clean(Err(message))
}

/// How a transfer goes on. An event that does not belong to the action that the host was asked
/// for changes nothing.
pub open spec fn moved(
    phase: Phase,
    event: TransferEvent,
    parse: spec_fn(Seq<char>) -> Result<Json, Seq<char>>,
    accepts: spec_fn(Seq<char>) -> bool,
) -> Phase {
    match (phase, event) {
        (Phase::WriteConfig(_, payload), TransferEvent::ConfigWritten { path }) => {
            Phase::CaptureOutput(path@, payload)
        },
        (Phase::WriteConfig(_, _), TransferEvent::ConfigFailed(failure)) => if failure is Write {
            failed(config_message(failure))
        } else {
            Phase::Done(Err(config_message(failure)))
        },
        (Phase::CaptureOutput(path, payload), TransferEvent::Captured) => Phase::CaptureErrors(
            path,
            payload,
        ),
        (Phase::CaptureOutput(_, _), TransferEvent::CaptureFailed(failure)) => failed(
            capture_message("openrouter"@, failure),
        ),
        (Phase::CaptureErrors(path, payload), TransferEvent::Captured) => Phase::Start(
            curl_process(path),
            payload,
        ),
        (Phase::CaptureErrors(_, _), TransferEvent::CaptureFailed(failure)) => failed(
            capture_message("openrouter"@, failure),
        ),
        (Phase::Start(_, payload), TransferEvent::Started) => Phase::Send(payload),
        (Phase::Start(_, _), TransferEvent::StartFailed(error)) => failed(
            "could not start OpenRouter transport: "@ + error@,
        ),
        (Phase::Send(_), TransferEvent::Sent) => Phase::Wait,
        (Phase::Send(_), TransferEvent::NoInput) => failed(
            "OpenRouter transport did not expose request stdin"@,
        ),
        (Phase::Send(_), TransferEvent::SendFailed(error)) => failed(
            "could not write OpenRouter request: "@ + error@,
        ),
        (Phase::Wait, TransferEvent::Ended { success, cancelled }) => if cancelled {
            failed("OpenRouter transport cancelled"@)
        } else {
            Phase::ReadOutput(success)
        },
        (Phase::Wait, TransferEvent::WaitFailed(error)) => failed(error@),
        (Phase::ReadOutput(success), TransferEvent::Read(bytes)) => Phase::ReadErrors(
            success,
            bytes@,
        ),
        (Phase::ReadOutput(_), TransferEvent::ReadFailed(error)) => failed(
            "cannot read OpenRouter response capture: "@ + error@,
        ),
        (Phase::ReadErrors(success, stdout), TransferEvent::Read(bytes)) => Phase::Clean(
            Ok((success, stdout, bytes@)),
        ),
        (Phase::ReadErrors(_, _), TransferEvent::ReadFailed(error)) => failed(
            "cannot read OpenRouter error capture: "@ + error@,
        ),
        (Phase::Clean(Err(message)), TransferEvent::Cleaned) => Phase::Done(Err(message)),
        (Phase::Clean(Ok((success, stdout, stderr))), TransferEvent::Cleaned) => Phase::Check(
            success,
            stdout,
            stderr,
        ),
        (Phase::Check(success, stdout, stderr), TransferEvent::Cancellation(cancelled)) => {
            Phase::Done(transfer_outcome(cancelled, success, stdout, stderr, parse, accepts))
        },
        _ => phase,
    }
}

/// Describes why the configuration is not in its file.
fn describe_config_failure(failure: &ConfigFailure) -> (r: String)
    ensures
        r@ == config_message(*failure),
{
    match failure {
        ConfigFailure::Clock(error) => {
            let mut message = String::from_str("cannot create OpenRouter transport config: ");
            message.append(error.as_str());
            message
        },
        ConfigFailure::Create(error) => {
            let mut message = String::from_str(
                "cannot create private OpenRouter transport config: ",
            );
            message.append(error.as_str());
            message
        },
        ConfigFailure::Write(error) => {
            let mut message = String::from_str("cannot write OpenRouter transport config: ");
            message.append(error.as_str());
            message
        },
    }
}

/// Ends a transfer that failed with files to remove.
fn fail(what: &str, error: &str) -> (r: Transfer)
    ensures
        r@ == failed(what@ + error@),
{
    let mut message = what.to_owned();
    message.append(error);
    Transfer::Clean { outcome: Err(message) }
}

impl Transfer {
    /// Begins a transfer. `encode` is the JSON writer.
    pub fn begin<E: Fn(&JsonValue) -> Result<String, String>>(
        api_key: &str,
        model: &str,
        request: &ModelRequest,
        encode: &E,
    ) -> (r: Transfer)
        requires
            forall|value: &JsonValue| call_requires(*encode, (value,)),
        ensures
            forall|meaning: spec_fn(Json) -> Result<Seq<char>, Seq<char>>| #[trigger]
                encodes(*encode, meaning) ==> r@ == transfer_begun(
                    api_key@,
                    model@,
                    *request,
                    meaning,
                ),
    {
        let payload = match openrouter_payload(model, request, encode) {
            Ok(payload) => payload,
            Err(message) => return Transfer::Done(Err(message)),
        };
        match curl_config(api_key) {
            Ok(config) => Transfer::WriteConfig { config, payload },
            Err(message) => Transfer::Done(Err(message)),
        }
    }

    /// Goes on with a transfer after the host did what it was asked for. `parse` is the JSON
    /// reader; `accept_id` says which tool call identifiers the agent takes.
    pub fn advance<P: Fn(&str) -> Result<JsonValue, String>, A: Fn(&str) -> bool>(
        self,
        event: TransferEvent,
        parse: &P,
        accept_id: &A,
    ) -> (r: Transfer)
        requires
            forall|text: &str| call_requires(*parse, (text,)),
            forall|text: &str| call_requires(*accept_id, (text,)),
        ensures
            forall|
                meaning: spec_fn(Seq<char>) -> Result<Json, Seq<char>>,
                accepts: spec_fn(Seq<char>) -> bool,
            |
                #[trigger] parses(*parse, meaning) && #[trigger] decides(*accept_id, accepts)
                    ==> r@ == moved(self@, event, meaning, accepts),
            !(self is Done) ==> (r matches Transfer::Done(Ok((events, _))) ==> events@.len() > 0),
    {
        match (self, event) {
            (
                Transfer::WriteConfig { config: _, payload },
                TransferEvent::ConfigWritten { path },
            ) => Transfer::CaptureOutput { config_path: path, payload },
            (
                Transfer::WriteConfig { config: _, payload: _ },
                TransferEvent::ConfigFailed(failure),
            ) => {
                let message = describe_config_failure(&failure);
                if matches!(failure, ConfigFailure::Write(_)) {
                    Transfer::Clean { outcome: Err(message) }
                } else {
                    Transfer::Done(Err(message))
                }
            },
            (Transfer::CaptureOutput { config_path, payload }, TransferEvent::Captured) => {
                Transfer::CaptureErrors { config_path, payload }
            },
            (
                Transfer::CaptureOutput { config_path: _, payload: _ },
                TransferEvent::CaptureFailed(failure),
            ) => {
                Transfer::Clean { outcome: Err(describe_capture_failure("openrouter", &failure)) }
            },
            (Transfer::CaptureErrors { config_path, payload }, TransferEvent::Captured) => {
                Transfer::Start { launch: curl_launch(config_path.as_str()), payload }
            },
            (
                Transfer::CaptureErrors { config_path: _, payload: _ },
                TransferEvent::CaptureFailed(failure),
            ) => {
                Transfer::Clean { outcome: Err(describe_capture_failure("openrouter", &failure)) }
            },
            (Transfer::Start { launch: _, payload }, TransferEvent::Started) => {
                Transfer::Send { payload }
            },
            (Transfer::Start { launch: _, payload: _ }, TransferEvent::StartFailed(error)) => fail(
                "could not start OpenRouter transport: ",
                error.as_str(),
            ),
            (Transfer::Send { payload: _ }, TransferEvent::Sent) => Transfer::Wait,
            (Transfer::Send { payload: _ }, TransferEvent::NoInput) => Transfer::Clean {
                outcome: Err(
                    String::from_str("OpenRouter transport did not expose request stdin"),
                ),
            },
            (Transfer::Send { payload: _ }, TransferEvent::SendFailed(error)) => fail(
                "could not write OpenRouter request: ",
                error.as_str(),
            ),
            (Transfer::Wait, TransferEvent::Ended { success, cancelled }) => if cancelled {
                Transfer::Clean { outcome: Err(String::from_str("OpenRouter transport cancelled")) }
            } else {
                Transfer::ReadOutput { success }
            },
            (Transfer::Wait, TransferEvent::WaitFailed(error)) => Transfer::Clean {
                outcome: Err(error),
            },
            (Transfer::ReadOutput { success }, TransferEvent::Read(bytes)) => {
                Transfer::ReadErrors { success, stdout: bytes }
            },
            (Transfer::ReadOutput { success: _ }, TransferEvent::ReadFailed(error)) => fail(
                "cannot read OpenRouter response capture: ",
                error.as_str(),
            ),
            (Transfer::ReadErrors { success, stdout }, TransferEvent::Read(bytes)) => {
                Transfer::Clean { outcome: Ok(Remains { success, stdout, stderr: bytes }) }
            },
            (
                Transfer::ReadErrors { success: _, stdout: _ },
                TransferEvent::ReadFailed(error),
            ) => fail("cannot read OpenRouter error capture: ", error.as_str()),
            (Transfer::Clean { outcome: Err(message) }, TransferEvent::Cleaned) => {
                Transfer::Done(Err(message))
            },
            (Transfer::Clean { outcome: Ok(remains) }, TransferEvent::Cleaned) => {
                Transfer::Check { remains }
            },
            (Transfer::Check { remains }, TransferEvent::Cancellation(cancelled)) => {
                Transfer::Done(
                    complete(
                        cancelled,
                        remains.success,
                        remains.stdout.as_slice(),
                        remains.stderr.as_slice(),
                        parse,
                        accept_id,
                    ),
                )
            },
            (transfer, _) => transfer,
        }
    }
}

// ---------------------------------------------------------------------------------------------
// Laws
// ---------------------------------------------------------------------------------------------
/// Once the file of the configuration is there, the transfer does not end before its files are
/// removed: the configuration, which holds the key, is gone before anything that the provider
/// said, or that went wrong, is passed on.
pub proof fn files_are_removed_before_the_end(
    phase: Phase,
    event: TransferEvent,
    parse: spec_fn(Seq<char>) -> Result<Json, Seq<char>>,
    accepts: spec_fn(Seq<char>) -> bool,
)
    requires
        !(phase is Done),
        moved(phase, event, parse, accepts) is Done,
    ensures
        (phase is WriteConfig && (event matches TransferEvent::ConfigFailed(failure) && !(
        failure is Write))) || (phase is Clean && event is Cleaned) || phase is Check,
{
}

/// The way to the check on the result leads through the removal of the files.
pub proof fn checks_follow_the_removal(
    phase: Phase,
    event: TransferEvent,
    parse: spec_fn(Seq<char>) -> Result<Json, Seq<char>>,
    accepts: spec_fn(Seq<char>) -> bool,
)
    requires
        !(phase is Check),
        moved(phase, event, parse, accepts) is Check,
    ensures
        phase is Clean,
        event is Cleaned,
{
}

/// A transfer completes only if its child ended with success and the run was not cancelled, and
/// then with what the response says.
pub proof fn completions_need_a_successful_transfer(
    phase: Phase,
    event: TransferEvent,
    parse: spec_fn(Seq<char>) -> Result<Json, Seq<char>>,
    accepts: spec_fn(Seq<char>) -> bool,
)
    requires
        !(phase is Done),
        moved(phase, event, parse, accepts) matches Phase::Done(Ok(_)),
    ensures
        phase is Check,
        phase->Check_0,
        event == TransferEvent::Cancellation(false),
{
}

/// A transfer begins with the configuration that holds the key, and with the request that is to be
/// sent. A request that cannot be written ends it, and so does a key with a line break.
pub proof fn transfers_begin_with_the_key_and_the_request(
    api_key: Seq<char>,
    model: Seq<char>,
    request: ModelRequest,
    encode: spec_fn(Json) -> Result<Seq<char>, Seq<char>>,
) -> (parts: (Seq<char>, Seq<char>, Seq<char>))
    ensures
        ({
            let begun = transfer_begun(api_key, model, request, encode);
            match payload_json(model, request, encode) {
                Ok(payload) => if api_key.contains('\n') || api_key.contains('\r') {
                    begun == Phase::Done(Err("OPENROUTER_API_KEY must not contain line breaks"@))
                } else {
                    begun == Phase::WriteConfig(parts.0 + "header = \""@ + parts.1, payload)
                },
                Err(message) => begun == Phase::Done(Err(message)),
            }
        }),
        config_value(parts.1) == Some(("Authorization: Bearer "@ + api_key, parts.2)),
{
    let header = keys_reach_the_provider(api_key);
    let before = "connect-timeout = 10\n"@ + "max-time = 90\n"@ + "request = \"POST\"\n"@
        + "url = \"https://openrouter.ai/api/v1/chat/completions\"\n"@
        + "header = \"Content-Type: application/json\"\n"@;
    assert(config_text(api_key) =~= before + "header = \""@ + header);
    (before, header, "\ndata-binary = \"@-\"\n"@)
}

/// What is sent to the child process is the request that the transfer began with: it comes through
/// all the preparations unchanged. The child is `curl`, and it is pointed to the file of the
/// configuration, told to write the status after the response, and given no environment but `PATH`.
pub proof fn requests_are_sent_as_begun(
    config: Seq<char>,
    payload: Seq<char>,
    path: String,
    parse: spec_fn(Seq<char>) -> Result<Json, Seq<char>>,
    accepts: spec_fn(Seq<char>) -> bool,
)
    ensures
        ({
            let step = |phase: Phase, event: TransferEvent| moved(phase, event, parse, accepts);
            let written = step(
                Phase::WriteConfig(config, payload),
                TransferEvent::ConfigWritten { path },
            );
            let captured = step(step(written, TransferEvent::Captured), TransferEvent::Captured);
            let started = step(captured, TransferEvent::Started);
            &&& written is CaptureOutput
            &&& step(written, TransferEvent::Captured) is CaptureErrors
            &&& captured matches Phase::Start(launch, _) && launch.program == "/usr/bin/curl"@
                && launch.arguments.len() == 6 && launch.arguments[0] == "--silent"@
                && launch.arguments[1] == "--show-error"@ && launch.arguments[2] == "--config"@
                && launch.arguments[3] == path@ && launch.arguments[4] == "--write-out"@
                && launch.arguments[5] == "\n%{http_code}"@ && launch.environment.len() == 1
                && launch.environment[0] == (
                "PATH"@,
                "/root/.bun/bin:/usr/local/bin:/usr/bin:/bin"@,
            )
            &&& started == Phase::Send(payload)
            &&& step(started, TransferEvent::Sent) is Wait
        }),
{
}

/// What a transfer comes to is what the child left behind: whether it succeeded, its output and its
/// error output come through the removal of the files unchanged.
pub proof fn outputs_are_read_as_left_behind(
    success: bool,
    cancelled: bool,
    stdout: Vec<u8>,
    stderr: Vec<u8>,
    parse: spec_fn(Seq<char>) -> Result<Json, Seq<char>>,
    accepts: spec_fn(Seq<char>) -> bool,
)
    ensures
        ({
            let step = |phase: Phase, event: TransferEvent| moved(phase, event, parse, accepts);
            let ended = step(Phase::Wait, TransferEvent::Ended { success, cancelled: false });
            let read = step(
                step(ended, TransferEvent::Read(stdout)),
                TransferEvent::Read(stderr),
            );
            let cleaned = step(read, TransferEvent::Cleaned);
            &&& ended is ReadOutput
            &&& read is Clean
            &&& cleaned is Check
            &&& step(cleaned, TransferEvent::Cancellation(cancelled)) == Phase::Done(
                transfer_outcome(cancelled, success, stdout@, stderr@, parse, accepts),
            )
            &&& step(Phase::Wait, TransferEvent::Ended { success, cancelled: true }) == Phase::Clean(
                Err("OpenRouter transport cancelled"@),
            )
        }),
{
}

/// A transfer that fails on the way says what failed and why, and says it after its files are
/// removed.
pub proof fn failed_transfers_say_why(
    config: Seq<char>,
    path: Seq<char>,
    payload: Seq<char>,
    launch: LaunchText,
    success: bool,
    stdout: Seq<u8>,
    error: String,
    message: Seq<char>,
    parse: spec_fn(Seq<char>) -> Result<Json, Seq<char>>,
    accepts: spec_fn(Seq<char>) -> bool,
)
    ensures
        ({
            let step = |phase: Phase, event: TransferEvent| moved(phase, event, parse, accepts);
            &&& step(Phase::Clean(Err(message)), TransferEvent::Cleaned) == Phase::Done(
                Err(message),
            )
            &&& step(
                Phase::WriteConfig(config, payload),
                TransferEvent::ConfigFailed(ConfigFailure::Clock(error)),
            ) == Phase::Done(Err("cannot create OpenRouter transport config: "@ + error@))
            &&& step(
                Phase::WriteConfig(config, payload),
                TransferEvent::ConfigFailed(ConfigFailure::Create(error)),
            ) == Phase::Done(Err("cannot create private OpenRouter transport config: "@ + error@))
            &&& step(
                Phase::WriteConfig(config, payload),
                TransferEvent::ConfigFailed(ConfigFailure::Write(error)),
            ) == Phase::Clean(Err("cannot write OpenRouter transport config: "@ + error@))
            &&& step(
                Phase::CaptureOutput(path, payload),
                TransferEvent::CaptureFailed(CaptureFailure::Refused(error)),
            ) == Phase::Clean(Err("cannot create private openrouter capture: "@ + error@))
            &&& step(
                Phase::CaptureErrors(path, payload),
                TransferEvent::CaptureFailed(CaptureFailure::Refused(error)),
            ) == Phase::Clean(Err("cannot create private openrouter capture: "@ + error@))
            &&& step(Phase::Start(launch, payload), TransferEvent::StartFailed(error))
                == Phase::Clean(Err("could not start OpenRouter transport: "@ + error@))
            &&& step(Phase::Send(payload), TransferEvent::SendFailed(error)) == Phase::Clean(
                Err("could not write OpenRouter request: "@ + error@),
            )
            &&& step(Phase::Send(payload), TransferEvent::NoInput) == Phase::Clean(
                Err("OpenRouter transport did not expose request stdin"@),
            )
            &&& step(Phase::Wait, TransferEvent::WaitFailed(error)) == Phase::Clean(Err(error@))
            &&& step(Phase::ReadOutput(success), TransferEvent::ReadFailed(error)) == Phase::Clean(
                Err("cannot read OpenRouter response capture: "@ + error@),
            )
            &&& step(Phase::ReadErrors(success, stdout), TransferEvent::ReadFailed(error))
                == Phase::Clean(Err("cannot read OpenRouter error capture: "@ + error@))
        }),
{
    reveal_strlit("cannot create private ");
    reveal_strlit("openrouter");
    reveal_strlit(" capture: ");
    reveal_strlit("cannot create private openrouter capture: ");
    assert("cannot create private "@ + "openrouter"@ + " capture: "@
        =~= "cannot create private openrouter capture: "@);
}

/// What the host tells at the wrong time changes nothing: a transfer takes only the outcomes of the
/// action that it asked for, and one that is over stays as it is.
pub proof fn stray_events_change_nothing(
    phase: Phase,
    event: TransferEvent,
    parse: spec_fn(Seq<char>) -> Result<Json, Seq<char>>,
    accepts: spec_fn(Seq<char>) -> bool,
)
    requires
        !(match phase {
            Phase::WriteConfig(_, _) => event is ConfigWritten || event is ConfigFailed,
            Phase::CaptureOutput(_, _) => event is Captured || event is CaptureFailed,
            Phase::CaptureErrors(_, _) => event is Captured || event is CaptureFailed,
            Phase::Start(_, _) => event is Started || event is StartFailed,
            Phase::Send(_) => event is Sent || event is NoInput || event is SendFailed,
            Phase::Wait => event is Ended || event is WaitFailed,
            Phase::ReadOutput(_) => event is Read || event is ReadFailed,
            Phase::ReadErrors(_, _) => event is Read || event is ReadFailed,
            Phase::Clean(_) => event is Cleaned,
            Phase::Check(_, _, _) => event is Cancellation,
            Phase::Done(_) => false,
        }),
    ensures
        moved(phase, event, parse, accepts) == phase,
{
}

}
