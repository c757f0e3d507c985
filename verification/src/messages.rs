//! Conversation messages and lifecycle events, and the JSON that they are written as.
use crate::quote::{control_free, json_string, quoted, quoted_is_control_free};
use crate::reader::{
    lemma_array, lemma_literal, lemma_names, lemma_object_of_four, lemma_object_of_one,
    lemma_object_of_three, lemma_object_of_two, lemma_read_alone, lemma_text, literal, member_text,
    plain, read_json, stands_for, Tree,
};
use crate::results::{curate_tool_result, projection, SerializedJson};
use crate::text::{join, joined, opt_text, texts};
use vstd::prelude::*;
use vstd::string::*;

verus! {

/// Why a model turn ended.
#[derive(Clone, Copy, Debug, PartialEq, Eq, Structural)]
pub enum StopReason {
    EndTurn,
    ToolUse,
    Length,
    Aborted,
    Error,
    Cancelled,
}

/// A tool call that the model asked for.
#[derive(Clone, Debug, PartialEq, Eq)]
pub struct AssistantToolCall {
    pub id: String,
    pub name: String,
    pub arguments: SerializedJson,
}

/// One message of the conversation.
#[derive(Clone, Debug, PartialEq, Eq)]
pub enum Message {
    User { content: String },
    Assistant {
        content: String,
        tool_calls: Vec<AssistantToolCall>,
        stop_reason: Option<StopReason>,
        error_message: Option<String>,
    },
    ToolResult {
        tool_call_id: String,
        tool_name: String,
        content: String,
        details: Option<SerializedJson>,
        is_error: bool,
    },
}

/// A tool call that the host is about to run or has run.
#[derive(Clone, Debug, PartialEq, Eq)]
pub struct ToolCall {
    pub id: String,
    pub name: String,
    pub arguments: SerializedJson,
}

/// What a tool call came to.
#[derive(Clone, Debug, PartialEq, Eq)]
pub struct ToolResult {
    pub tool_call_id: String,
    pub content: String,
    pub is_error: bool,
}

/// What happened in the life of an agent.
#[derive(Clone, Debug, PartialEq, Eq)]
pub enum AgentEventKind {
    AgentStart,
    AgentEnd,
    TurnStart,
    TurnEnd { reason: StopReason },
    MessageStart { message: Message },
    MessageUpdate,
    MessageEnd { message: Message },
    ToolExecutionStart { tool_name: String },
    ToolExecutionUpdate { tool_name: String },
    ToolExecutionEnd { tool_name: String, result: ToolResult },
    ModelTurnUsage,
    CompactionStart,
    CompactionResult,
    CompactionEnd,
}

/// A lifecycle event.
#[derive(Clone, Debug, PartialEq, Eq)]
pub struct AgentEvent {
    pub kind: AgentEventKind,
}

// ---------------------------------------------------------------------------------------------
// Messages for the provider
// ---------------------------------------------------------------------------------------------
/// The JSON literal of a truth value.
pub open spec fn bool_text(b: bool) -> Seq<char> {
    if b {
        "true"@
    } else {
        "false"@
    }
}

/// The JSON literal of a truth value.
pub fn bool_literal(b: bool) -> (r: &'static str)
    ensures
        r@ == bool_text(b),
{
    if b {
        "true"
    } else {
        "false"
    }
}

/// A tool call as the chat completions format writes it.
pub open spec fn call_json(call: AssistantToolCall) -> Seq<char> {
    "{\"id\":"@ + quoted(call.id@) + ",\"type\":\"function\",\"function\":{\"name\":"@ + quoted(
        call.name@,
    ) + ",\"arguments\":"@ + quoted(call.arguments.text@) + "}}"@
}

/// The tool calls of a message, each as the chat completions format writes it.
pub open spec fn calls_json(calls: Seq<AssistantToolCall>) -> Seq<Seq<char>> {
    calls.map_values(|call: AssistantToolCall| call_json(call))
}

/// The text of details that a message may carry.
pub open spec fn message_details(details: Option<SerializedJson>) -> Option<Seq<char>> {
    match details {
        Some(details) => Some(details.text@),
        None => None,
    }
}

/// A message as the chat completions format writes it.
pub open spec fn openai_json(message: Message, include_error_metadata: bool) -> Seq<char> {
    match message {
        Message::User { content } => "{\"role\":\"user\",\"content\":"@ + quoted(content@) + "}"@,
        Message::Assistant { content, tool_calls, .. } => "{\"role\":\"assistant\",\"content\":"@
            + (if content@.len() == 0 {
            "null"@
        } else {
            quoted(content@)
        }) + ",\"tool_calls\":["@ + joined(calls_json(tool_calls@), ","@) + "]}"@,
        Message::ToolResult { tool_call_id, tool_name, content, details, is_error } =>
        "{\"role\":\"tool\",\"tool_call_id\":"@ + quoted(tool_call_id@) + ",\"content\":"@ + quoted(
            projection(tool_name@, content@, message_details(details), is_error),
        ) + (if include_error_metadata {
            ",\"is_error\":"@ + bool_text(is_error)
        } else {
            Seq::empty()
        }) + "}"@,
    }
}

/// Writes the tool calls of a message for the provider.
fn openai_calls(calls: &Vec<AssistantToolCall>) -> (r: Vec<String>)
    ensures
        texts(r@) == calls_json(calls@),
{
    let mut out: Vec<String> = Vec::new();
    let mut i: usize = 0;
    while i < calls.len()
        invariant
            i <= calls@.len(),
            out@.len() == i,
            forall|j: int| 0 <= j < i ==> (#[trigger] out@[j])@ == call_json(calls@[j]),
        decreases calls@.len() - i,
    {
        let call = &calls[i];
        let mut text = String::from_str("{\"id\":");
        text.append(json_string(call.id.as_str()).as_str());
        text.append(",\"type\":\"function\",\"function\":{\"name\":");
        text.append(json_string(call.name.as_str()).as_str());
        text.append(",\"arguments\":");
        text.append(json_string(call.arguments.as_str()).as_str());
        text.append("}}");
        out.push(text);
        i = i + 1;
    }
    assert(texts(out@) =~= calls_json(calls@));
    out
}

/// Writes a message for the provider. A tool result is projected for the model, and carries its
/// error flag where the provider reads one.
pub fn openai_message(message: &Message, include_error_metadata: bool) -> (r: String)
    ensures
        r@ == openai_json(*message, include_error_metadata),
{
    match message {
        Message::User { content } => {
            let mut out = String::from_str("{\"role\":\"user\",\"content\":");
            out.append(json_string(content.as_str()).as_str());
            out.append("}");
            out
        },
        Message::Assistant { content, tool_calls, .. } => {
            let calls = openai_calls(tool_calls);
            let mut out = String::from_str("{\"role\":\"assistant\",\"content\":");
            if content.as_str().is_empty() {
                out.append("null");
            } else {
                out.append(json_string(content.as_str()).as_str());
            }
            out.append(",\"tool_calls\":[");
            out.append(join(&calls, ",").as_str());
            out.append("]}");
            out
        },
        Message::ToolResult { tool_call_id, tool_name, content, details, is_error } => {
            let shown = curate_tool_result(
                tool_name.as_str(),
                content.as_str(),
                details.as_ref(),
                *is_error,
            );
            let mut out = String::from_str("{\"role\":\"tool\",\"tool_call_id\":");
            out.append(json_string(tool_call_id.as_str()).as_str());
            out.append(",\"content\":");
            out.append(json_string(shown.as_str()).as_str());
            let ghost so_far = out@;
            if include_error_metadata {
                out.append(",\"is_error\":");
                out.append(bool_literal(*is_error));
                assert(out@ =~= so_far + (",\"is_error\":"@ + bool_text(*is_error)));
            } else {
                assert(out@ =~= so_far + Seq::<char>::empty());
            }
            out.append("}");
            out
        },
    }
}

/// The messages of a conversation, each as the chat completions format writes it.
pub open spec fn conversation_parts(
    messages: Seq<Message>,
    include_error_metadata: bool,
) -> Seq<Seq<char>> {
    messages.map_values(|message: Message| openai_json(message, include_error_metadata))
}

/// The JSON array of the messages of a conversation.
pub open spec fn conversation_json(
    messages: Seq<Message>,
    include_error_metadata: bool,
) -> Seq<char> {
    "["@ + joined(conversation_parts(messages, include_error_metadata), ","@) + "]"@
}

/// Writes the messages of a conversation for the provider.
pub fn conversation(messages: &Vec<Message>, include_error_metadata: bool) -> (r: String)
    ensures
        r@ == conversation_json(messages@, include_error_metadata),
{
    let mut parts: Vec<String> = Vec::new();
    let mut i: usize = 0;
    while i < messages.len()
        invariant
            i <= messages@.len(),
            parts@.len() == i,
            forall|j: int|
                0 <= j < i ==> (#[trigger] parts@[j])@ == openai_json(
                    messages@[j],
                    include_error_metadata,
                ),
        decreases messages@.len() - i,
    {
        parts.push(openai_message(&messages[i], include_error_metadata));
        i = i + 1;
    }
    assert(texts(parts@) =~= conversation_parts(messages@, include_error_metadata));
    let mut out = String::from_str("[");
    out.append(join(&parts, ",").as_str());
    out.append("]");
    out
}

// ---------------------------------------------------------------------------------------------
// Events for the log
// ---------------------------------------------------------------------------------------------
/// The name of a stop reason in the event log.
pub open spec fn stop_reason_text(reason: StopReason) -> Seq<char> {
    match reason {
        StopReason::EndTurn => "end_turn"@,
        StopReason::ToolUse => "tool_use"@,
        StopReason::Length => "length"@,
        StopReason::Aborted => "aborted"@,
        StopReason::Error => "error"@,
        StopReason::Cancelled => "cancelled"@,
    }
}

/// The name of a stop reason in the event log.
pub fn stop_reason_name(reason: StopReason) -> (r: &'static str)
    ensures
        r@ == stop_reason_text(reason),
{
    match reason {
        StopReason::EndTurn => "end_turn",
        StopReason::ToolUse => "tool_use",
        StopReason::Length => "length",
        StopReason::Aborted => "aborted",
        StopReason::Error => "error",
        StopReason::Cancelled => "cancelled",
    }
}

/// The JSON literal of a text that may be absent.
pub open spec fn quoted_or_null(text: Option<Seq<char>>) -> Seq<char> {
    match text {
        Some(text) => quoted(text),
        None => "null"@,
    }
}

/// The name of a stop reason that may be absent.
pub open spec fn opt_reason_text(reason: Option<StopReason>) -> Option<Seq<char>> {
    match reason {
        Some(reason) => Some(stop_reason_text(reason)),
        None => None,
    }
}

/// The log line of an event about a message.
pub open spec fn message_line(event_type: Seq<char>, message: Message) -> Seq<char> {
    match message {
        Message::User { content } => "{\"type\":"@ + quoted(event_type)
            + ",\"message\":{\"role\":\"user\",\"content\":"@ + quoted(content@) + "}}"@,
        Message::Assistant { content, stop_reason, error_message, .. } => "{\"type\":"@ + quoted(
            event_type,
        ) + ",\"message\":{\"role\":\"assistant\",\"content\":"@ + quoted(content@)
            + ",\"stopReason\":"@ + quoted_or_null(opt_reason_text(stop_reason))
            + ",\"errorMessage\":"@ + quoted_or_null(opt_text(error_message)) + "}}"@,
        Message::ToolResult { tool_name, content, is_error, .. } => "{\"type\":"@ + quoted(
            event_type,
        ) + ",\"message\":{\"role\":\"tool\",\"toolName\":"@ + quoted(tool_name@)
            + ",\"content\":"@ + quoted(content@) + ",\"isError\":"@ + bool_text(is_error)
            + "}}"@,
    }
}

/// Writes the log line of an event about a message.
pub fn message_json(event_type: &str, message: &Message) -> (r: String)
    ensures
        r@ == message_line(event_type@, *message),
{
    let mut out = String::from_str("{\"type\":");
    out.append(json_string(event_type).as_str());
    match message {
        Message::User { content } => {
            out.append(",\"message\":{\"role\":\"user\",\"content\":");
            out.append(json_string(content.as_str()).as_str());
            out.append("}}");
        },
        Message::Assistant { content, stop_reason, error_message, .. } => {
            out.append(",\"message\":{\"role\":\"assistant\",\"content\":");
            out.append(json_string(content.as_str()).as_str());
            out.append(",\"stopReason\":");
            match stop_reason {
                Some(reason) => out.append(json_string(stop_reason_name(*reason)).as_str()),
                None => out.append("null"),
            }
            out.append(",\"errorMessage\":");
            match error_message {
                Some(error) => out.append(json_string(error.as_str()).as_str()),
                None => out.append("null"),
            }
            out.append("}}");
        },
        Message::ToolResult { tool_name, content, is_error, .. } => {
            out.append(",\"message\":{\"role\":\"tool\",\"toolName\":");
            out.append(json_string(tool_name.as_str()).as_str());
            out.append(",\"content\":");
            out.append(json_string(content.as_str()).as_str());
            out.append(",\"isError\":");
            out.append(bool_literal(*is_error));
            out.append("}}");
        },
    }
    out
}

/// The log line of an event.
pub open spec fn event_line(kind: AgentEventKind) -> Seq<char> {
    match kind {
        AgentEventKind::MessageStart { message } => message_line("message_start"@, message),
        AgentEventKind::MessageEnd { message } => message_line("message_end"@, message),
        AgentEventKind::ToolExecutionStart { tool_name } =>
        "{\"type\":\"tool_execution_start\",\"toolName\":"@ + quoted(tool_name@) + "}"@,
        AgentEventKind::ToolExecutionEnd { tool_name, result } =>
        "{\"type\":\"tool_execution_end\",\"toolName\":"@ + quoted(tool_name@) + ",\"isError\":"@
            + bool_text(result.is_error) + "}"@,
        AgentEventKind::ToolExecutionUpdate { tool_name } =>
        "{\"type\":\"tool_execution_update\",\"toolName\":"@ + quoted(tool_name@) + "}"@,
        AgentEventKind::AgentStart => "{\"type\":\"agent_start\"}"@,
        AgentEventKind::AgentEnd => "{\"type\":\"agent_end\"}"@,
        AgentEventKind::TurnStart => "{\"type\":\"turn_start\"}"@,
        AgentEventKind::TurnEnd { reason } => "{\"type\":\"turn_end\",\"stopReason\":"@ + quoted(
            stop_reason_text(reason),
        ) + "}"@,
        AgentEventKind::CompactionStart => "{\"type\":\"compaction\"}"@,
        AgentEventKind::CompactionResult => "{\"type\":\"compaction\"}"@,
        AgentEventKind::CompactionEnd => "{\"type\":\"compaction\"}"@,
        AgentEventKind::ModelTurnUsage => "{\"type\":\"model_turn_usage\"}"@,
        AgentEventKind::MessageUpdate => "{\"type\":\"message_update\"}"@,
    }
}

/// Writes the log line of an event.
pub fn event_json(event: &AgentEvent) -> (r: String)
    ensures
        r@ == event_line(event.kind),
{
    match &event.kind {
        AgentEventKind::MessageStart { message } => message_json("message_start", message),
        AgentEventKind::MessageEnd { message } => message_json("message_end", message),
        AgentEventKind::ToolExecutionStart { tool_name } => {
            let mut out = String::from_str("{\"type\":\"tool_execution_start\",\"toolName\":");
            out.append(json_string(tool_name.as_str()).as_str());
            out.append("}");
            out
        },
        AgentEventKind::ToolExecutionEnd { tool_name, result } => {
            let mut out = String::from_str("{\"type\":\"tool_execution_end\",\"toolName\":");
            out.append(json_string(tool_name.as_str()).as_str());
            out.append(",\"isError\":");
            out.append(bool_literal(result.is_error));
            out.append("}");
            out
        },
        AgentEventKind::ToolExecutionUpdate { tool_name } => {
            let mut out = String::from_str("{\"type\":\"tool_execution_update\",\"toolName\":");
            out.append(json_string(tool_name.as_str()).as_str());
            out.append("}");
            out
        },
        AgentEventKind::AgentStart => String::from_str("{\"type\":\"agent_start\"}"),
        AgentEventKind::AgentEnd => String::from_str("{\"type\":\"agent_end\"}"),
        AgentEventKind::TurnStart => String::from_str("{\"type\":\"turn_start\"}"),
        AgentEventKind::TurnEnd { reason } => {
            let mut out = String::from_str("{\"type\":\"turn_end\",\"stopReason\":");
            out.append(json_string(stop_reason_name(*reason)).as_str());
            out.append("}");
            out
        },
        AgentEventKind::CompactionStart => String::from_str("{\"type\":\"compaction\"}"),
        AgentEventKind::CompactionResult => String::from_str("{\"type\":\"compaction\"}"),
        AgentEventKind::CompactionEnd => String::from_str("{\"type\":\"compaction\"}"),
        AgentEventKind::ModelTurnUsage => String::from_str("{\"type\":\"model_turn_usage\"}"),
        AgentEventKind::MessageUpdate => String::from_str("{\"type\":\"message_update\"}"),
    }
}

/// Every event of the log is one line: no event, whatever the texts that it carries, holds a
/// line break or another control character.
pub proof fn log_events_are_single_lines(kind: AgentEventKind)
    ensures
        control_free(event_line(kind)),
{
    reveal_strlit("{\"type\":\"tool_execution_start\",\"toolName\":");
    reveal_strlit("{\"type\":\"tool_execution_end\",\"toolName\":");
    reveal_strlit("{\"type\":\"tool_execution_update\",\"toolName\":");
    reveal_strlit("{\"type\":\"agent_start\"}");
    reveal_strlit("{\"type\":\"agent_end\"}");
    reveal_strlit("{\"type\":\"turn_start\"}");
    reveal_strlit("{\"type\":\"turn_end\",\"stopReason\":");
    reveal_strlit("{\"type\":\"compaction\"}");
    reveal_strlit("{\"type\":\"model_turn_usage\"}");
    reveal_strlit("{\"type\":\"message_update\"}");
    reveal_strlit(",\"isError\":");
    reveal_strlit("}");
    reveal_strlit("true");
    reveal_strlit("false");
    match kind {
        AgentEventKind::MessageStart { message } => {
            lemma_message_line_control_free("message_start"@, message);
        },
        AgentEventKind::MessageEnd { message } => {
            lemma_message_line_control_free("message_end"@, message);
        },
        AgentEventKind::ToolExecutionStart { tool_name } => {
            quoted_is_control_free(tool_name@);
        },
        AgentEventKind::ToolExecutionEnd { tool_name, result } => {
            quoted_is_control_free(tool_name@);
        },
        AgentEventKind::ToolExecutionUpdate { tool_name } => {
            quoted_is_control_free(tool_name@);
        },
        AgentEventKind::TurnEnd { reason } => {
            quoted_is_control_free(stop_reason_text(reason));
        },
        _ => {},
    }
}

proof fn lemma_quoted_or_null_control_free(text: Option<Seq<char>>)
    ensures
        control_free(quoted_or_null(text)),
{
    match text {
        Some(text) => quoted_is_control_free(text),
        None => reveal_strlit("null"),
    }
}

proof fn lemma_message_line_control_free(event_type: Seq<char>, message: Message)
    ensures
        control_free(message_line(event_type, message)),
{
    reveal_strlit("{\"type\":");
    reveal_strlit("}}");
    quoted_is_control_free(event_type);
    match message {
        Message::User { content } => {
            reveal_strlit(",\"message\":{\"role\":\"user\",\"content\":");
            quoted_is_control_free(content@);
        },
        Message::Assistant { content, stop_reason, error_message, .. } => {
            reveal_strlit(",\"message\":{\"role\":\"assistant\",\"content\":");
            reveal_strlit(",\"stopReason\":");
            reveal_strlit(",\"errorMessage\":");
            quoted_is_control_free(content@);
            lemma_quoted_or_null_control_free(opt_reason_text(stop_reason));
            lemma_quoted_or_null_control_free(opt_text(error_message));
        },
        Message::ToolResult { tool_name, content, is_error, .. } => {
            reveal_strlit(",\"message\":{\"role\":\"tool\",\"toolName\":");
            reveal_strlit(",\"content\":");
            reveal_strlit(",\"isError\":");
            reveal_strlit("true");
            reveal_strlit("false");
            quoted_is_control_free(tool_name@);
            quoted_is_control_free(content@);
        },
    }
}

// ---------------------------------------------------------------------------------------------
// What a reader finds
// ---------------------------------------------------------------------------------------------
#[verifier::spinoff_prover]
#[verifier::rlimit(40)]
proof fn lemma_user_message(content: String, include_error_metadata: bool)
    ensures
        stands_for(
            openai_json(Message::User { content }, include_error_metadata),
            Tree::Object(
                seq![("role"@, Tree::Text("user"@)), ("content"@, Tree::Text(content@))],
            ),
        ),
{
    reveal_strlit("{\"role\":\"user\",\"content\":");
    reveal_strlit("role");
    reveal_strlit("content");
    reveal_strlit("user");
    reveal_strlit("{");
    reveal_strlit("}");
    reveal_strlit(",");
    reveal_strlit(":");
    lemma_literal("user"@);
    lemma_text(content@);
    lemma_object_of_two(
        ("role"@, literal("user"@), Tree::Text("user"@)),
        ("content"@, quoted(content@), Tree::Text(content@)),
    );
    assert("{\"role\":\"user\",\"content\":"@ =~= "{"@ + member_text("role"@, literal("user"@))
        + ","@ + literal("content"@) + ":"@);
    assert(openai_json(Message::User { content }, include_error_metadata) =~= "{"@ + member_text(
        "role"@,
        literal("user"@),
    ) + ","@ + member_text("content"@, quoted(content@)) + "}"@);
}

/// A message of the user is read as one of the user, with its content.
pub proof fn user_messages_read_back(content: String, include_error_metadata: bool)
    ensures
        read_json(openai_json(Message::User { content }, include_error_metadata)) == Some(
            Tree::Object(
                seq![("role"@, Tree::Text("user"@)), ("content"@, Tree::Text(content@))],
            ),
        ),
{
    lemma_user_message(content, include_error_metadata);
    lemma_read_alone(
        openai_json(Message::User { content }, include_error_metadata),
        Tree::Object(seq![("role"@, Tree::Text("user"@)), ("content"@, Tree::Text(content@))]),
    );
}

/// What a reader of the chat completions format finds in a tool call.
pub open spec fn call_tree(call: AssistantToolCall) -> Tree {
    Tree::Object(
        seq![
            ("id"@, Tree::Text(call.id@)),
            ("type"@, Tree::Text("function"@)),
            (
                "function"@,
                Tree::Object(
                    seq![
                        ("name"@, Tree::Text(call.name@)),
                        ("arguments"@, Tree::Text(call.arguments.text@)),
                    ],
                ),
            ),
        ],
    )
}

#[verifier::spinoff_prover]
#[verifier::rlimit(40)]
proof fn lemma_call(call: AssistantToolCall)
    ensures
        stands_for(call_json(call), call_tree(call)),
{
    reveal_strlit("{\"id\":");
    reveal_strlit(",\"type\":\"function\",\"function\":{\"name\":");
    reveal_strlit(",\"arguments\":");
    reveal_strlit("}}");
    reveal_strlit("id");
    reveal_strlit("type");
    reveal_strlit("function");
    reveal_strlit("name");
    reveal_strlit("arguments");
    reveal_strlit("{");
    reveal_strlit("}");
    reveal_strlit(",");
    reveal_strlit(":");
    let (id, name, arguments) = (call.id@, call.name@, call.arguments.text@);
    lemma_text(id);
    lemma_text(name);
    lemma_text(arguments);
    lemma_literal("function"@);
    let inner_tree = Tree::Object(
        seq![("name"@, Tree::Text(name)), ("arguments"@, Tree::Text(arguments))],
    );
    lemma_object_of_two(
        ("name"@, quoted(name), Tree::Text(name)),
        ("arguments"@, quoted(arguments), Tree::Text(arguments)),
    );
    let inner = "{"@ + member_text("name"@, quoted(name)) + ","@ + member_text(
        "arguments"@,
        quoted(arguments),
    ) + "}"@;
    lemma_object_of_three(
        ("id"@, quoted(id), Tree::Text(id)),
        ("type"@, literal("function"@), Tree::Text("function"@)),
        ("function"@, inner, inner_tree),
    );
    assert("{\"id\":"@ =~= "{"@ + literal("id"@) + ":"@);
    assert(",\"type\":\"function\",\"function\":{\"name\":"@ =~= ","@ + member_text(
        "type"@,
        literal("function"@),
    ) + ","@ + literal("function"@) + ":"@ + "{"@ + literal("name"@) + ":"@);
    assert(",\"arguments\":"@ =~= ","@ + literal("arguments"@) + ":"@);
    assert("}}"@ =~= "}"@ + "}"@);
    assert(call_json(call) =~= "{"@ + member_text("id"@, quoted(id)) + ","@ + member_text(
        "type"@,
        literal("function"@),
    ) + ","@ + member_text("function"@, inner) + "}"@);
}

#[verifier::spinoff_prover]
#[verifier::rlimit(40)]
proof fn lemma_assistant_message(
    content: String,
    tool_calls: Vec<AssistantToolCall>,
    stop_reason: Option<StopReason>,
    error_message: Option<String>,
    include_error_metadata: bool,
) -> (calls: Seq<Tree>)
    ensures
        calls.len() == tool_calls@.len(),
        forall|i: int| 0 <= i < calls.len() ==> #[trigger] calls[i] == call_tree(tool_calls@[i]),
        stands_for(
            openai_json(
                Message::Assistant { content, tool_calls, stop_reason, error_message },
                include_error_metadata,
            ),
            Tree::Object(
                seq![
                    ("role"@, Tree::Text("assistant"@)),
                    (
                        "content"@,
                        if content@.len() > 0 {
                            Tree::Text(content@)
                        } else {
                            Tree::Null
                        },
                    ),
                    ("tool_calls"@, Tree::Array(calls)),
                ],
            ),
        ),
{
    reveal_strlit("{\"role\":\"assistant\",\"content\":");
    reveal_strlit(",\"tool_calls\":[");
    reveal_strlit("]}");
    reveal_strlit("role");
    reveal_strlit("assistant");
    reveal_strlit("content");
    reveal_strlit("tool_calls");
    reveal_strlit("[");
    reveal_strlit("]");
    reveal_strlit("{");
    reveal_strlit("}");
    reveal_strlit(",");
    reveal_strlit(":");
    let parts = calls_json(tool_calls@);
    let calls = tool_calls@.map_values(|call: AssistantToolCall| call_tree(call));
    assert forall|i: int| 0 <= i < parts.len() implies stands_for(#[trigger] parts[i], calls[i]) by {
        lemma_call(tool_calls@[i]);
    }
    lemma_array(parts, calls);
    lemma_names();
    lemma_text(content@);
    lemma_literal("assistant"@);
    let shown = if content@.len() == 0 {
        "null"@
    } else {
        quoted(content@)
    };
    let content_tree = if content@.len() > 0 {
        Tree::Text(content@)
    } else {
        Tree::Null
    };
    let list = "["@ + joined(parts, ","@) + "]"@;
    lemma_object_of_three(
        ("role"@, literal("assistant"@), Tree::Text("assistant"@)),
        ("content"@, shown, content_tree),
        ("tool_calls"@, list, Tree::Array(calls)),
    );
    assert("{\"role\":\"assistant\",\"content\":"@ =~= "{"@ + member_text(
        "role"@,
        literal("assistant"@),
    ) + ","@ + literal("content"@) + ":"@);
    assert(",\"tool_calls\":["@ =~= ","@ + literal("tool_calls"@) + ":"@ + "["@);
    assert("]}"@ =~= "]"@ + "}"@);
    assert(openai_json(
        Message::Assistant { content, tool_calls, stop_reason, error_message },
        include_error_metadata,
    ) =~= "{"@ + member_text("role"@, literal("assistant"@)) + ","@ + member_text(
        "content"@,
        shown,
    ) + ","@ + member_text("tool_calls"@, list) + "}"@);
    calls
}

/// A message of the assistant is read as one of the assistant. Its content is there exactly if it
/// is not empty, whatever the tool calls are, and every tool call is there with its identifier,
/// its name and its arguments, in order.
#[verifier::spinoff_prover]
#[verifier::rlimit(40)]
pub proof fn assistant_messages_read_back(
    content: String,
    tool_calls: Vec<AssistantToolCall>,
    stop_reason: Option<StopReason>,
    error_message: Option<String>,
    include_error_metadata: bool,
) -> (calls: Seq<Tree>)
    ensures
        read_json(
            openai_json(
                Message::Assistant { content, tool_calls, stop_reason, error_message },
                include_error_metadata,
            ),
        ) == Some(
            Tree::Object(
                seq![
                    ("role"@, Tree::Text("assistant"@)),
                    (
                        "content"@,
                        if content@.len() > 0 {
                            Tree::Text(content@)
                        } else {
                            Tree::Null
                        },
                    ),
                    ("tool_calls"@, Tree::Array(calls)),
                ],
            ),
        ),
        calls.len() == tool_calls@.len(),
        forall|i: int|
            0 <= i < calls.len() ==> #[trigger] calls[i] == Tree::Object(
                seq![
                    ("id"@, Tree::Text(tool_calls@[i].id@)),
                    ("type"@, Tree::Text("function"@)),
                    (
                        "function"@,
                        Tree::Object(
                            seq![
                                ("name"@, Tree::Text(tool_calls@[i].name@)),
                                ("arguments"@, Tree::Text(tool_calls@[i].arguments.text@)),
                            ],
                        ),
                    ),
                ],
            ),
{
    let calls = lemma_assistant_message(
        content,
        tool_calls,
        stop_reason,
        error_message,
        include_error_metadata,
    );
    let message = Message::Assistant { content, tool_calls, stop_reason, error_message };
    let content_tree = if content@.len() > 0 {
        Tree::Text(content@)
    } else {
        Tree::Null
    };
    lemma_read_alone(
        openai_json(message, include_error_metadata),
        Tree::Object(
            seq![
                ("role"@, Tree::Text("assistant"@)),
                ("content"@, content_tree),
                ("tool_calls"@, Tree::Array(calls)),
            ],
        ),
    );
    calls
}

proof fn lemma_bool(b: bool)
    ensures
        stands_for(bool_text(b), Tree::Bool(b)),
{
    lemma_names();
}

#[verifier::spinoff_prover]
#[verifier::rlimit(40)]
proof fn lemma_tool_message(
    tool_call_id: String,
    tool_name: String,
    content: String,
    details: Option<SerializedJson>,
    is_error: bool,
    include_error_metadata: bool,
)
    ensures
        ({
            let told = seq![
                ("role"@, Tree::Text("tool"@)),
                ("tool_call_id"@, Tree::Text(tool_call_id@)),
                (
                    "content"@,
                    Tree::Text(
                        projection(tool_name@, content@, message_details(details), is_error),
                    ),
                ),
            ];
            stands_for(
                openai_json(
                    Message::ToolResult { tool_call_id, tool_name, content, details, is_error },
                    include_error_metadata,
                ),
                Tree::Object(
                    if include_error_metadata {
                        told.push(("is_error"@, Tree::Bool(is_error)))
                    } else {
                        told
                    },
                ),
            )
        }),
{
    reveal_strlit("{\"role\":\"tool\",\"tool_call_id\":");
    reveal_strlit(",\"content\":");
    reveal_strlit(",\"is_error\":");
    reveal_strlit("role");
    reveal_strlit("tool");
    reveal_strlit("tool_call_id");
    reveal_strlit("content");
    reveal_strlit("is_error");
    reveal_strlit("{");
    reveal_strlit("}");
    reveal_strlit(",");
    reveal_strlit(":");
    let shown = projection(tool_name@, content@, message_details(details), is_error);
    let message = Message::ToolResult { tool_call_id, tool_name, content, details, is_error };
    let id = tool_call_id@;
    let told = seq![
        ("role"@, Tree::Text("tool"@)),
        ("tool_call_id"@, Tree::Text(id)),
        ("content"@, Tree::Text(shown)),
    ];
    lemma_text(id);
    lemma_text(shown);
    lemma_literal("tool"@);
    lemma_bool(is_error);
    assert("{\"role\":\"tool\",\"tool_call_id\":"@ =~= "{"@ + member_text("role"@, literal("tool"@))
        + ","@ + literal("tool_call_id"@) + ":"@);
    assert(",\"content\":"@ =~= ","@ + literal("content"@) + ":"@);
    assert(",\"is_error\":"@ =~= ","@ + literal("is_error"@) + ":"@);
    if include_error_metadata {
        lemma_object_of_four(
            ("role"@, literal("tool"@), Tree::Text("tool"@)),
            ("tool_call_id"@, quoted(id), Tree::Text(id)),
            ("content"@, quoted(shown), Tree::Text(shown)),
            ("is_error"@, bool_text(is_error), Tree::Bool(is_error)),
        );
        assert(told.push(("is_error"@, Tree::Bool(is_error))) =~= seq![
            ("role"@, Tree::Text("tool"@)),
            ("tool_call_id"@, Tree::Text(id)),
            ("content"@, Tree::Text(shown)),
            ("is_error"@, Tree::Bool(is_error)),
        ]);
        assert(openai_json(message, true) =~= "{"@ + member_text("role"@, literal("tool"@)) + ","@
            + member_text("tool_call_id"@, quoted(id)) + ","@ + member_text(
            "content"@,
            quoted(shown),
        ) + ","@ + member_text("is_error"@, bool_text(is_error)) + "}"@);
    } else {
        lemma_object_of_three(
            ("role"@, literal("tool"@), Tree::Text("tool"@)),
            ("tool_call_id"@, quoted(id), Tree::Text(id)),
            ("content"@, quoted(shown), Tree::Text(shown)),
        );
        assert(openai_json(message, false) =~= "{"@ + member_text("role"@, literal("tool"@)) + ","@
            + member_text("tool_call_id"@, quoted(id)) + ","@ + member_text(
            "content"@,
            quoted(shown),
        ) + "}"@);
    }
}

/// A tool result is read as one: with the identifier of its call and with what the model sees of
/// it, and with its error flag exactly where the provider reads one.
#[verifier::spinoff_prover]
#[verifier::rlimit(40)]
pub proof fn tool_messages_read_back(
    tool_call_id: String,
    tool_name: String,
    content: String,
    details: Option<SerializedJson>,
    is_error: bool,
    include_error_metadata: bool,
)
    ensures
        ({
            let written = match details {
                Some(details) => Some(details.text@),
                None => None,
            };
            let shown = projection(tool_name@, content@, written, is_error);
            let told = seq![
                ("role"@, Tree::Text("tool"@)),
                ("tool_call_id"@, Tree::Text(tool_call_id@)),
                ("content"@, Tree::Text(shown)),
            ];
            read_json(
                openai_json(
                    Message::ToolResult { tool_call_id, tool_name, content, details, is_error },
                    include_error_metadata,
                ),
            ) == Some(
                Tree::Object(
                    if include_error_metadata {
                        told.push(("is_error"@, Tree::Bool(is_error)))
                    } else {
                        told
                    },
                ),
            )
        }),
{
    lemma_tool_message(tool_call_id, tool_name, content, details, is_error, include_error_metadata);
    let written = match details {
        Some(details) => Some(details.text@),
        None => None,
    };
    assert(message_details(details) == written);
    let shown = projection(tool_name@, content@, written, is_error);
    let told = seq![
        ("role"@, Tree::Text("tool"@)),
        ("tool_call_id"@, Tree::Text(tool_call_id@)),
        ("content"@, Tree::Text(shown)),
    ];
    let members = if include_error_metadata {
        told.push(("is_error"@, Tree::Bool(is_error)))
    } else {
        told
    };
    let message = Message::ToolResult { tool_call_id, tool_name, content, details, is_error };
    assert(stands_for(openai_json(message, include_error_metadata), Tree::Object(members)));
    lemma_read_alone(openai_json(message, include_error_metadata), Tree::Object(members));
}

/// Every message stands for a value wherever it is written.
pub(crate) proof fn lemma_messages_stand(message: Message, include_error_metadata: bool) -> (value:
    Tree)
    ensures
        stands_for(openai_json(message, include_error_metadata), value),
        read_json(openai_json(message, include_error_metadata)) == Some(value),
{
    let value = match message {
        Message::User { content } => {
            lemma_user_message(content, include_error_metadata);
            Tree::Object(seq![("role"@, Tree::Text("user"@)), ("content"@, Tree::Text(content@))])
        },
        Message::Assistant { content, tool_calls, stop_reason, error_message } => {
            let calls = lemma_assistant_message(
                content,
                tool_calls,
                stop_reason,
                error_message,
                include_error_metadata,
            );
            let content_tree = if content@.len() > 0 {
                Tree::Text(content@)
            } else {
                Tree::Null
            };
            Tree::Object(
                seq![
                    ("role"@, Tree::Text("assistant"@)),
                    ("content"@, content_tree),
                    ("tool_calls"@, Tree::Array(calls)),
                ],
            )
        },
        Message::ToolResult { tool_call_id, tool_name, content, details, is_error } => {
            lemma_tool_message(
                tool_call_id,
                tool_name,
                content,
                details,
                is_error,
                include_error_metadata,
            );
            let told = seq![
                ("role"@, Tree::Text("tool"@)),
                ("tool_call_id"@, Tree::Text(tool_call_id@)),
                (
                    "content"@,
                    Tree::Text(projection(tool_name@, content@, message_details(details), is_error)),
                ),
            ];
            Tree::Object(
                if include_error_metadata {
                    told.push(("is_error"@, Tree::Bool(is_error)))
                } else {
                    told
                },
            )
        },
    };
    lemma_read_alone(openai_json(message, include_error_metadata), value);
    value
}

/// A conversation is read as the array of its messages: none is lost, none is added, and each is
/// read as it is by itself.
pub proof fn conversations_read_back(messages: Seq<Message>, include_error_metadata: bool) -> (items:
    Seq<Tree>)
    ensures
        read_json(conversation_json(messages, include_error_metadata)) == Some(Tree::Array(items)),
        stands_for(conversation_json(messages, include_error_metadata), Tree::Array(items)),
        items.len() == messages.len(),
        forall|i: int|
            0 <= i < items.len() ==> read_json(openai_json(messages[i], include_error_metadata))
                == Some(#[trigger] items[i]),
{
    let parts = conversation_parts(messages, include_error_metadata);
    let items = messages.map_values(
        |message: Message| read_json(openai_json(message, include_error_metadata))->0,
    );
    assert forall|i: int| 0 <= i < parts.len() implies stands_for(#[trigger] parts[i], items[i]) by {
        let value = lemma_messages_stand(messages[i], include_error_metadata);
    }
    assert forall|i: int| 0 <= i < items.len() implies read_json(
        openai_json(messages[i], include_error_metadata),
    ) == Some(#[trigger] items[i]) by {
        let value = lemma_messages_stand(messages[i], include_error_metadata);
    }
    lemma_array(parts, items);
    lemma_read_alone(conversation_json(messages, include_error_metadata), Tree::Array(items));
    items
}

#[verifier::spinoff_prover]
#[verifier::rlimit(40)]
proof fn lemma_logged_user(
    event_type: Seq<char>,
    content: String,
)
    ensures
        stands_for(
            message_line(event_type, Message::User { content }),
            Tree::Object(
                seq![
                    ("type"@, Tree::Text(event_type)),
                    (
                        "message"@,
                        Tree::Object(
                            seq![("role"@, Tree::Text("user"@)), ("content"@, Tree::Text(content@))],
                        ),
                    ),
                ],
            ),
        ),
{
    let message = Message::User { content };
    reveal_strlit("{\"type\":");
    reveal_strlit("}}");
    reveal_strlit("type");
    reveal_strlit("message");
    reveal_strlit("role");
    reveal_strlit("content");
    reveal_strlit("{");
    reveal_strlit("}");
    reveal_strlit(",");
    reveal_strlit(":");
    lemma_text(event_type);
    assert("{\"type\":"@ =~= "{"@ + literal("type"@) + ":"@);
    assert("}}"@ =~= "}"@ + "}"@);
    reveal_strlit(",\"message\":{\"role\":\"user\",\"content\":");
    reveal_strlit("user");
    lemma_literal("user"@);
    lemma_text(content@);
    lemma_object_of_two(
        ("role"@, literal("user"@), Tree::Text("user"@)),
        ("content"@, quoted(content@), Tree::Text(content@)),
    );
    let inner = "{"@ + member_text("role"@, literal("user"@)) + ","@ + member_text(
        "content"@,
        quoted(content@),
    ) + "}"@;
    assert(",\"message\":{\"role\":\"user\",\"content\":"@ =~= ","@ + literal("message"@)
        + ":"@ + "{"@ + member_text("role"@, literal("user"@)) + ","@ + literal("content"@)
        + ":"@);
    assert(message_line(event_type, message) =~= "{"@ + member_text(
        "type"@,
        quoted(event_type),
    ) + ","@ + member_text("message"@, inner) + "}"@);
    let told = Tree::Object(
        seq![("role"@, Tree::Text("user"@)), ("content"@, Tree::Text(content@))],
    );
    lemma_object_of_two(
        ("type"@, quoted(event_type), Tree::Text(event_type)),
        ("message"@, inner, told),
    );
}

#[verifier::spinoff_prover]
#[verifier::rlimit(40)]
proof fn lemma_logged_assistant(
    event_type: Seq<char>,
    content: String,
    tool_calls: Vec<AssistantToolCall>,
    stop_reason: Option<StopReason>,
    error_message: Option<String>,
)
    ensures
        stands_for(
            message_line(event_type, Message::Assistant { content, tool_calls, stop_reason, error_message }),
            Tree::Object(
                seq![
                    ("type"@, Tree::Text(event_type)),
                    (
                        "message"@,
                        Tree::Object(
                            seq![
                                ("role"@, Tree::Text("assistant"@)),
                                ("content"@, Tree::Text(content@)),
                                ("stopReason"@, text_tree(opt_reason_text(stop_reason))),
                                ("errorMessage"@, text_tree(opt_text(error_message))),
                            ],
                        ),
                    ),
                ],
            ),
        ),
{
    let message = Message::Assistant { content, tool_calls, stop_reason, error_message };
    reveal_strlit("{\"type\":");
    reveal_strlit("}}");
    reveal_strlit("type");
    reveal_strlit("message");
    reveal_strlit("role");
    reveal_strlit("content");
    reveal_strlit("{");
    reveal_strlit("}");
    reveal_strlit(",");
    reveal_strlit(":");
    lemma_text(event_type);
    assert("{\"type\":"@ =~= "{"@ + literal("type"@) + ":"@);
    assert("}}"@ =~= "}"@ + "}"@);
    reveal_strlit(",\"message\":{\"role\":\"assistant\",\"content\":");
    reveal_strlit("assistant");
    reveal_strlit("stopReason");
    reveal_strlit("errorMessage");
    reveal_strlit(",\"stopReason\":");
    reveal_strlit(",\"errorMessage\":");
    let reason = opt_reason_text(stop_reason);
    let error = opt_text(error_message);
    lemma_literal("assistant"@);
    lemma_text(content@);
    lemma_text_or_null(reason);
    lemma_text_or_null(error);
    lemma_object_of_four(
        ("role"@, literal("assistant"@), Tree::Text("assistant"@)),
        ("content"@, quoted(content@), Tree::Text(content@)),
        ("stopReason"@, quoted_or_null(reason), text_tree(reason)),
        ("errorMessage"@, quoted_or_null(error), text_tree(error)),
    );
    let inner = "{"@ + member_text("role"@, literal("assistant"@)) + ","@ + member_text(
        "content"@,
        quoted(content@),
    ) + ","@ + member_text("stopReason"@, quoted_or_null(reason)) + ","@ + member_text(
        "errorMessage"@,
        quoted_or_null(error),
    ) + "}"@;
    assert(",\"message\":{\"role\":\"assistant\",\"content\":"@ =~= ","@ + literal(
        "message"@,
    ) + ":"@ + "{"@ + member_text("role"@, literal("assistant"@)) + ","@ + literal(
        "content"@,
    ) + ":"@);
    assert(",\"stopReason\":"@ =~= ","@ + literal("stopReason"@) + ":"@);
    assert(",\"errorMessage\":"@ =~= ","@ + literal("errorMessage"@) + ":"@);
    assert(message_line(event_type, message) =~= "{"@ + member_text(
        "type"@,
        quoted(event_type),
    ) + ","@ + member_text("message"@, inner) + "}"@);
    let told = Tree::Object(
        seq![
            ("role"@, Tree::Text("assistant"@)),
            ("content"@, Tree::Text(content@)),
            ("stopReason"@, text_tree(opt_reason_text(stop_reason))),
            ("errorMessage"@, text_tree(opt_text(error_message))),
        ],
    );
    lemma_object_of_two(
        ("type"@, quoted(event_type), Tree::Text(event_type)),
        ("message"@, inner, told),
    );
}

#[verifier::spinoff_prover]
#[verifier::rlimit(40)]
proof fn lemma_logged_tool(
    event_type: Seq<char>,
    tool_call_id: String,
    tool_name: String,
    content: String,
    details: Option<SerializedJson>,
    is_error: bool,
)
    ensures
        stands_for(
            message_line(event_type, Message::ToolResult { tool_call_id, tool_name, content, details, is_error }),
            Tree::Object(
                seq![
                    ("type"@, Tree::Text(event_type)),
                    (
                        "message"@,
                        Tree::Object(
                            seq![
                                ("role"@, Tree::Text("tool"@)),
                                ("toolName"@, Tree::Text(tool_name@)),
                                ("content"@, Tree::Text(content@)),
                                ("isError"@, Tree::Bool(is_error)),
                            ],
                        ),
                    ),
                ],
            ),
        ),
{
    let message = Message::ToolResult { tool_call_id, tool_name, content, details, is_error };
    reveal_strlit("{\"type\":");
    reveal_strlit("}}");
    reveal_strlit("type");
    reveal_strlit("message");
    reveal_strlit("role");
    reveal_strlit("content");
    reveal_strlit("{");
    reveal_strlit("}");
    reveal_strlit(",");
    reveal_strlit(":");
    lemma_text(event_type);
    assert("{\"type\":"@ =~= "{"@ + literal("type"@) + ":"@);
    assert("}}"@ =~= "}"@ + "}"@);
    reveal_strlit(",\"message\":{\"role\":\"tool\",\"toolName\":");
    reveal_strlit("tool");
    reveal_strlit("toolName");
    reveal_strlit("isError");
    reveal_strlit(",\"content\":");
    reveal_strlit(",\"isError\":");
    lemma_literal("tool"@);
    lemma_text(tool_name@);
    lemma_text(content@);
    lemma_bool(is_error);
    lemma_object_of_four(
        ("role"@, literal("tool"@), Tree::Text("tool"@)),
        ("toolName"@, quoted(tool_name@), Tree::Text(tool_name@)),
        ("content"@, quoted(content@), Tree::Text(content@)),
        ("isError"@, bool_text(is_error), Tree::Bool(is_error)),
    );
    let inner = "{"@ + member_text("role"@, literal("tool"@)) + ","@ + member_text(
        "toolName"@,
        quoted(tool_name@),
    ) + ","@ + member_text("content"@, quoted(content@)) + ","@ + member_text(
        "isError"@,
        bool_text(is_error),
    ) + "}"@;
    assert(",\"message\":{\"role\":\"tool\",\"toolName\":"@ =~= ","@ + literal("message"@)
        + ":"@ + "{"@ + member_text("role"@, literal("tool"@)) + ","@ + literal("toolName"@)
        + ":"@);
    assert(",\"content\":"@ =~= ","@ + literal("content"@) + ":"@);
    assert(",\"isError\":"@ =~= ","@ + literal("isError"@) + ":"@);
    assert(message_line(event_type, message) =~= "{"@ + member_text(
        "type"@,
        quoted(event_type),
    ) + ","@ + member_text("message"@, inner) + "}"@);
    let told = Tree::Object(
        seq![
            ("role"@, Tree::Text("tool"@)),
            ("toolName"@, Tree::Text(tool_name@)),
            ("content"@, Tree::Text(content@)),
            ("isError"@, Tree::Bool(is_error)),
        ],
    );
    lemma_object_of_two(
        ("type"@, quoted(event_type), Tree::Text(event_type)),
        ("message"@, inner, told),
    );
}

/// What a reader finds in the log about a message.
proof fn lemma_logged_message(event_type: Seq<char>, message: Message) -> (told: Tree)
    ensures
        stands_for(
            message_line(event_type, message),
            Tree::Object(seq![("type"@, Tree::Text(event_type)), ("message"@, told)]),
        ),
        match message {
            Message::User { content } => told == Tree::Object(
                seq![("role"@, Tree::Text("user"@)), ("content"@, Tree::Text(content@))],
            ),
            Message::Assistant { content, stop_reason, error_message, .. } => told == Tree::Object(
                seq![
                    ("role"@, Tree::Text("assistant"@)),
                    ("content"@, Tree::Text(content@)),
                    ("stopReason"@, text_tree(opt_reason_text(stop_reason))),
                    ("errorMessage"@, text_tree(opt_text(error_message))),
                ],
            ),
            Message::ToolResult { tool_name, content, is_error, .. } => told == Tree::Object(
                seq![
                    ("role"@, Tree::Text("tool"@)),
                    ("toolName"@, Tree::Text(tool_name@)),
                    ("content"@, Tree::Text(content@)),
                    ("isError"@, Tree::Bool(is_error)),
                ],
            ),
        },
{
    match message {
        Message::User { content } => {
            lemma_logged_user(event_type, content);
            Tree::Object(seq![("role"@, Tree::Text("user"@)), ("content"@, Tree::Text(content@))])
        },
        Message::Assistant { content, tool_calls, stop_reason, error_message } => {
            lemma_logged_assistant(event_type, content, tool_calls, stop_reason, error_message);
            Tree::Object(
                seq![
                    ("role"@, Tree::Text("assistant"@)),
                    ("content"@, Tree::Text(content@)),
                    ("stopReason"@, text_tree(opt_reason_text(stop_reason))),
                    ("errorMessage"@, text_tree(opt_text(error_message))),
                ],
            )
        },
        Message::ToolResult { tool_call_id, tool_name, content, details, is_error } => {
            lemma_logged_tool(event_type, tool_call_id, tool_name, content, details, is_error);
            Tree::Object(
                seq![
                    ("role"@, Tree::Text("tool"@)),
                    ("toolName"@, Tree::Text(tool_name@)),
                    ("content"@, Tree::Text(content@)),
                    ("isError"@, Tree::Bool(is_error)),
                ],
            )
        },
    }
}

/// A text that may be absent, as a reader finds it.
pub open spec fn text_tree(text: Option<Seq<char>>) -> Tree {
    match text {
        Some(text) => Tree::Text(text),
        None => Tree::Null,
    }
}

proof fn lemma_text_or_null(text: Option<Seq<char>>)
    ensures
        stands_for(quoted_or_null(text), text_tree(text)),
{
    lemma_names();
    if let Some(text) = text {
        lemma_text(text);
    }
}

/// The log tells of a message what it is: who said it and what, how the turn of an assistant ended
/// and with which error, and which tool a result is of and whether it is an error.
pub proof fn logged_messages_read_back(event_type: Seq<char>, message: Message) -> (told: Tree)
    ensures
        read_json(message_line(event_type, message)) == Some(
            Tree::Object(seq![("type"@, Tree::Text(event_type)), ("message"@, told)]),
        ),
        message matches Message::User { content } ==> told == Tree::Object(
            seq![("role"@, Tree::Text("user"@)), ("content"@, Tree::Text(content@))],
        ),
        message matches Message::Assistant { content, stop_reason, error_message, .. } ==> ({
            let reason = match stop_reason {
                Some(StopReason::EndTurn) => Tree::Text("end_turn"@),
                Some(StopReason::ToolUse) => Tree::Text("tool_use"@),
                Some(StopReason::Length) => Tree::Text("length"@),
                Some(StopReason::Aborted) => Tree::Text("aborted"@),
                Some(StopReason::Error) => Tree::Text("error"@),
                Some(StopReason::Cancelled) => Tree::Text("cancelled"@),
                None => Tree::Null,
            };
            let error = match error_message {
                Some(error) => Tree::Text(error@),
                None => Tree::Null,
            };
            told == Tree::Object(
                seq![
                    ("role"@, Tree::Text("assistant"@)),
                    ("content"@, Tree::Text(content@)),
                    ("stopReason"@, reason),
                    ("errorMessage"@, error),
                ],
            )
        }),
        message matches Message::ToolResult { tool_name, content, is_error, .. } ==> told
            == Tree::Object(
            seq![
                ("role"@, Tree::Text("tool"@)),
                ("toolName"@, Tree::Text(tool_name@)),
                ("content"@, Tree::Text(content@)),
                ("isError"@, Tree::Bool(is_error)),
            ],
        ),
{
    let told = lemma_logged_message(event_type, message);
    lemma_read_alone(
        message_line(event_type, message),
        Tree::Object(seq![("type"@, Tree::Text(event_type)), ("message"@, told)]),
    );
    told
}

#[verifier::spinoff_prover]
#[verifier::rlimit(40)]
proof fn lemma_bare_event(name: Seq<char>)
    requires
        plain(name),
    ensures
        read_json("{\"type\":"@ + literal(name) + "}"@) == Some(
            Tree::Object(seq![("type"@, Tree::Text(name))]),
        ),
{
    reveal_strlit("{\"type\":");
    reveal_strlit("type");
    reveal_strlit("{");
    reveal_strlit("}");
    reveal_strlit(",");
    reveal_strlit(":");
    lemma_literal(name);
    lemma_object_of_one(("type"@, literal(name), Tree::Text(name)));
    let text = "{\"type\":"@ + literal(name) + "}"@;
    assert("{\"type\":"@ =~= "{"@ + literal("type"@) + ":"@);
    assert(text =~= "{"@ + member_text("type"@, literal(name)) + "}"@);
    lemma_read_alone(text, Tree::Object(seq![("type"@, Tree::Text(name))]));
}

proof fn lemma_agent_start_event()
    ensures
        read_json("{\"type\":\"agent_start\"}"@) == Some(Tree::Object(seq![("type"@, Tree::Text("agent_start"@))])),
{
    reveal_strlit("{\"type\":\"agent_start\"}");
    reveal_strlit("agent_start");
    reveal_strlit("{\"type\":");
    reveal_strlit("}");
    lemma_bare_event("agent_start"@);
    assert("{\"type\":\"agent_start\"}"@ =~= "{\"type\":"@ + literal("agent_start"@) + "}"@);
}

proof fn lemma_agent_end_event()
    ensures
        read_json("{\"type\":\"agent_end\"}"@) == Some(Tree::Object(seq![("type"@, Tree::Text("agent_end"@))])),
{
    reveal_strlit("{\"type\":\"agent_end\"}");
    reveal_strlit("agent_end");
    reveal_strlit("{\"type\":");
    reveal_strlit("}");
    lemma_bare_event("agent_end"@);
    assert("{\"type\":\"agent_end\"}"@ =~= "{\"type\":"@ + literal("agent_end"@) + "}"@);
}

proof fn lemma_turn_start_event()
    ensures
        read_json("{\"type\":\"turn_start\"}"@) == Some(Tree::Object(seq![("type"@, Tree::Text("turn_start"@))])),
{
    reveal_strlit("{\"type\":\"turn_start\"}");
    reveal_strlit("turn_start");
    reveal_strlit("{\"type\":");
    reveal_strlit("}");
    lemma_bare_event("turn_start"@);
    assert("{\"type\":\"turn_start\"}"@ =~= "{\"type\":"@ + literal("turn_start"@) + "}"@);
}

proof fn lemma_message_update_event()
    ensures
        read_json("{\"type\":\"message_update\"}"@) == Some(Tree::Object(seq![("type"@, Tree::Text("message_update"@))])),
{
    reveal_strlit("{\"type\":\"message_update\"}");
    reveal_strlit("message_update");
    reveal_strlit("{\"type\":");
    reveal_strlit("}");
    lemma_bare_event("message_update"@);
    assert("{\"type\":\"message_update\"}"@ =~= "{\"type\":"@ + literal("message_update"@) + "}"@);
}

proof fn lemma_model_turn_usage_event()
    ensures
        read_json("{\"type\":\"model_turn_usage\"}"@) == Some(Tree::Object(seq![("type"@, Tree::Text("model_turn_usage"@))])),
{
    reveal_strlit("{\"type\":\"model_turn_usage\"}");
    reveal_strlit("model_turn_usage");
    reveal_strlit("{\"type\":");
    reveal_strlit("}");
    lemma_bare_event("model_turn_usage"@);
    assert("{\"type\":\"model_turn_usage\"}"@ =~= "{\"type\":"@ + literal("model_turn_usage"@) + "}"@);
}

proof fn lemma_compaction_event()
    ensures
        read_json("{\"type\":\"compaction\"}"@) == Some(Tree::Object(seq![("type"@, Tree::Text("compaction"@))])),
{
    reveal_strlit("{\"type\":\"compaction\"}");
    reveal_strlit("compaction");
    reveal_strlit("{\"type\":");
    reveal_strlit("}");
    lemma_bare_event("compaction"@);
    assert("{\"type\":\"compaction\"}"@ =~= "{\"type\":"@ + literal("compaction"@) + "}"@);
}

#[verifier::spinoff_prover]
#[verifier::rlimit(40)]
proof fn lemma_turn_end_event(value: Seq<char>)
    ensures
        read_json("{\"type\":\"turn_end\",\"stopReason\":"@ + quoted(value) + "}"@) == Some(
            Tree::Object(seq![("type"@, Tree::Text("turn_end"@)), ("stopReason"@, Tree::Text(value))]),
        ),
{
    reveal_strlit("{\"type\":\"turn_end\",\"stopReason\":");
    reveal_strlit("turn_end");
    reveal_strlit("stopReason");
    reveal_strlit("type");
    reveal_strlit("{");
    reveal_strlit("}");
    reveal_strlit(",");
    reveal_strlit(":");
    let text = "{\"type\":\"turn_end\",\"stopReason\":"@ + quoted(value) + "}"@;
    lemma_literal("turn_end"@);
    lemma_text(value);
    lemma_object_of_two(
        ("type"@, literal("turn_end"@), Tree::Text("turn_end"@)),
        ("stopReason"@, quoted(value), Tree::Text(value)),
    );
    assert("{\"type\":\"turn_end\",\"stopReason\":"@ =~= "{"@ + member_text("type"@, literal("turn_end"@)) + ","@ + literal("stopReason"@) + ":"@);
    assert(text =~= "{"@ + member_text("type"@, literal("turn_end"@)) + ","@ + member_text(
        "stopReason"@,
        quoted(value),
    ) + "}"@);
    lemma_read_alone(
        text,
        Tree::Object(seq![("type"@, Tree::Text("turn_end"@)), ("stopReason"@, Tree::Text(value))]),
    );
}

#[verifier::spinoff_prover]
#[verifier::rlimit(40)]
proof fn lemma_tool_execution_start_event(value: Seq<char>)
    ensures
        read_json("{\"type\":\"tool_execution_start\",\"toolName\":"@ + quoted(value) + "}"@) == Some(
            Tree::Object(seq![("type"@, Tree::Text("tool_execution_start"@)), ("toolName"@, Tree::Text(value))]),
        ),
{
    reveal_strlit("{\"type\":\"tool_execution_start\",\"toolName\":");
    reveal_strlit("tool_execution_start");
    reveal_strlit("toolName");
    reveal_strlit("type");
    reveal_strlit("{");
    reveal_strlit("}");
    reveal_strlit(",");
    reveal_strlit(":");
    let text = "{\"type\":\"tool_execution_start\",\"toolName\":"@ + quoted(value) + "}"@;
    lemma_literal("tool_execution_start"@);
    lemma_text(value);
    lemma_object_of_two(
        ("type"@, literal("tool_execution_start"@), Tree::Text("tool_execution_start"@)),
        ("toolName"@, quoted(value), Tree::Text(value)),
    );
    assert("{\"type\":\"tool_execution_start\",\"toolName\":"@ =~= "{"@ + member_text("type"@, literal("tool_execution_start"@)) + ","@ + literal("toolName"@) + ":"@);
    assert(text =~= "{"@ + member_text("type"@, literal("tool_execution_start"@)) + ","@ + member_text(
        "toolName"@,
        quoted(value),
    ) + "}"@);
    lemma_read_alone(
        text,
        Tree::Object(seq![("type"@, Tree::Text("tool_execution_start"@)), ("toolName"@, Tree::Text(value))]),
    );
}

#[verifier::spinoff_prover]
#[verifier::rlimit(40)]
proof fn lemma_tool_execution_update_event(value: Seq<char>)
    ensures
        read_json("{\"type\":\"tool_execution_update\",\"toolName\":"@ + quoted(value) + "}"@) == Some(
            Tree::Object(seq![("type"@, Tree::Text("tool_execution_update"@)), ("toolName"@, Tree::Text(value))]),
        ),
{
    reveal_strlit("{\"type\":\"tool_execution_update\",\"toolName\":");
    reveal_strlit("tool_execution_update");
    reveal_strlit("toolName");
    reveal_strlit("type");
    reveal_strlit("{");
    reveal_strlit("}");
    reveal_strlit(",");
    reveal_strlit(":");
    let text = "{\"type\":\"tool_execution_update\",\"toolName\":"@ + quoted(value) + "}"@;
    lemma_literal("tool_execution_update"@);
    lemma_text(value);
    lemma_object_of_two(
        ("type"@, literal("tool_execution_update"@), Tree::Text("tool_execution_update"@)),
        ("toolName"@, quoted(value), Tree::Text(value)),
    );
    assert("{\"type\":\"tool_execution_update\",\"toolName\":"@ =~= "{"@ + member_text("type"@, literal("tool_execution_update"@)) + ","@ + literal("toolName"@) + ":"@);
    assert(text =~= "{"@ + member_text("type"@, literal("tool_execution_update"@)) + ","@ + member_text(
        "toolName"@,
        quoted(value),
    ) + "}"@);
    lemma_read_alone(
        text,
        Tree::Object(seq![("type"@, Tree::Text("tool_execution_update"@)), ("toolName"@, Tree::Text(value))]),
    );
}

#[verifier::spinoff_prover]
#[verifier::rlimit(40)]
proof fn lemma_tool_execution_end_event(tool_name: Seq<char>, flag: bool)
    ensures
        read_json(
            "{\"type\":\"tool_execution_end\",\"toolName\":"@ + quoted(tool_name) + ",\"isError\":"@ + bool_text(flag) + "}"@,
        ) == Some(
            Tree::Object(
                seq![
                    ("type"@, Tree::Text("tool_execution_end"@)),
                    ("toolName"@, Tree::Text(tool_name)),
                    ("isError"@, Tree::Bool(flag)),
                ],
            ),
        ),
{
    reveal_strlit("{\"type\":\"tool_execution_end\",\"toolName\":");
    reveal_strlit("tool_execution_end");
    reveal_strlit("toolName");
    reveal_strlit("isError");
    reveal_strlit(",\"isError\":");
    reveal_strlit("type");
    reveal_strlit("{");
    reveal_strlit("}");
    reveal_strlit(",");
    reveal_strlit(":");
    let text = "{\"type\":\"tool_execution_end\",\"toolName\":"@ + quoted(tool_name) + ",\"isError\":"@ + bool_text(flag) + "}"@;
    lemma_literal("tool_execution_end"@);
    lemma_text(tool_name);
    lemma_bool(flag);
    lemma_object_of_three(
        ("type"@, literal("tool_execution_end"@), Tree::Text("tool_execution_end"@)),
        ("toolName"@, quoted(tool_name), Tree::Text(tool_name)),
        ("isError"@, bool_text(flag), Tree::Bool(flag)),
    );
    assert("{\"type\":\"tool_execution_end\",\"toolName\":"@ =~= "{"@ + member_text("type"@, literal("tool_execution_end"@)) + ","@
        + literal("toolName"@) + ":"@);
    assert(",\"isError\":"@ =~= ","@ + literal("isError"@) + ":"@);
    assert(text =~= "{"@ + member_text("type"@, literal("tool_execution_end"@))
        + ","@ + member_text("toolName"@, quoted(tool_name)) + ","@ + member_text(
        "isError"@,
        bool_text(flag),
    ) + "}"@);
    lemma_read_alone(
        text,
        Tree::Object(
            seq![
                ("type"@, Tree::Text("tool_execution_end"@)),
                ("toolName"@, Tree::Text(tool_name)),
                ("isError"@, Tree::Bool(flag)),
            ],
        ),
    );
}

/// The log tells of an event what happened: its type, and the tool or the message or the reason
/// that it is about.
pub proof fn logged_events_read_back(kind: AgentEventKind)
    ensures
        ({
            let read = read_json(event_line(kind));
            match kind {
                AgentEventKind::AgentStart => read == Some(
                    Tree::Object(seq![("type"@, Tree::Text("agent_start"@))]),
                ),
                AgentEventKind::AgentEnd => read == Some(
                    Tree::Object(seq![("type"@, Tree::Text("agent_end"@))]),
                ),
                AgentEventKind::TurnStart => read == Some(
                    Tree::Object(seq![("type"@, Tree::Text("turn_start"@))]),
                ),
                AgentEventKind::TurnEnd { reason } => read == Some(
                    Tree::Object(
                        seq![
                            ("type"@, Tree::Text("turn_end"@)),
                            ("stopReason"@, Tree::Text(stop_reason_text(reason))),
                        ],
                    ),
                ),
                AgentEventKind::MessageStart { message } => event_line(kind) == message_line(
                    "message_start"@,
                    message,
                ),
                AgentEventKind::MessageUpdate => read == Some(
                    Tree::Object(seq![("type"@, Tree::Text("message_update"@))]),
                ),
                AgentEventKind::MessageEnd { message } => event_line(kind) == message_line(
                    "message_end"@,
                    message,
                ),
                AgentEventKind::ToolExecutionStart { tool_name } => read == Some(
                    Tree::Object(
                        seq![
                            ("type"@, Tree::Text("tool_execution_start"@)),
                            ("toolName"@, Tree::Text(tool_name@)),
                        ],
                    ),
                ),
                AgentEventKind::ToolExecutionUpdate { tool_name } => read == Some(
                    Tree::Object(
                        seq![
                            ("type"@, Tree::Text("tool_execution_update"@)),
                            ("toolName"@, Tree::Text(tool_name@)),
                        ],
                    ),
                ),
                AgentEventKind::ToolExecutionEnd { tool_name, result } => read == Some(
                    Tree::Object(
                        seq![
                            ("type"@, Tree::Text("tool_execution_end"@)),
                            ("toolName"@, Tree::Text(tool_name@)),
                            ("isError"@, Tree::Bool(result.is_error)),
                        ],
                    ),
                ),
                AgentEventKind::ModelTurnUsage => read == Some(
                    Tree::Object(seq![("type"@, Tree::Text("model_turn_usage"@))]),
                ),
                AgentEventKind::CompactionStart => read == Some(
                    Tree::Object(seq![("type"@, Tree::Text("compaction"@))]),
                ),
                AgentEventKind::CompactionResult => read == Some(
                    Tree::Object(seq![("type"@, Tree::Text("compaction"@))]),
                ),
                AgentEventKind::CompactionEnd => read == Some(
                    Tree::Object(seq![("type"@, Tree::Text("compaction"@))]),
                ),
            }
        }),
{
    match kind {
        AgentEventKind::AgentStart => lemma_agent_start_event(),
        AgentEventKind::AgentEnd => lemma_agent_end_event(),
        AgentEventKind::TurnStart => lemma_turn_start_event(),
        AgentEventKind::MessageUpdate => lemma_message_update_event(),
        AgentEventKind::ModelTurnUsage => lemma_model_turn_usage_event(),
        AgentEventKind::CompactionStart => lemma_compaction_event(),
        AgentEventKind::CompactionResult => lemma_compaction_event(),
        AgentEventKind::CompactionEnd => lemma_compaction_event(),
        AgentEventKind::TurnEnd { reason } => lemma_turn_end_event(stop_reason_text(reason)),
        AgentEventKind::ToolExecutionStart { tool_name } => lemma_tool_execution_start_event(tool_name@),
        AgentEventKind::ToolExecutionUpdate { tool_name } => lemma_tool_execution_update_event(tool_name@),
        AgentEventKind::ToolExecutionEnd { tool_name, result } => {
            lemma_tool_execution_end_event(tool_name@, result.is_error)
        },
        _ => {},
    }
}

}
