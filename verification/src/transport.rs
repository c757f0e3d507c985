//! The HTTP transport to OpenRouter: the request that is sent, the configuration of the
//! transfer, and what its output comes to.
use crate::completion::{
    completion_result, decides, events_view, missing_models_are_explained, openrouter_error,
    parse_openrouter_response, rejection, response_outcome, retention_hint, ModelStreamEvent,
    StreamEvent,
};
use crate::json::{encodes, parses, Json, JsonValue};
use crate::lines::{find_last_line_break, last_line_break, line_break_splits_text};
use crate::messages::{
    conversation_json, conversation_parts, conversations_read_back, openai_json, Message, StopReason,
};
use crate::quote::{json_string, quoted};
use crate::reader::{
    in_numeral, lemma_another_item, lemma_array, lemma_empty_value, lemma_literal, lemma_names,
    lemma_number, lemma_object_of_five, lemma_object_of_six, lemma_object_of_three,
    lemma_object_of_two, lemma_read_alone, lemma_read_before, lemma_text, lemma_value_begins,
    lemma_value_of_items, literal, member_text, read_items, read_json, read_value, stands_for, Tree,
};
use crate::text::{
    all_digits, chars_of, decode_lossy, decode_strict, digits_value, has_text, is_blank,
    is_white_space, join, joined, lossy_text, parse_unsigned, text_of, text_result, texts, trim,
    trim_start, trimmed, trimmed_is_unchanged, unsigned_value,
};
use crate::usage::{usage_sum, Usage, UsageTotals};
use vstd::prelude::*;
use vstd::slice::slice_subrange;
use vstd::string::*;
use vstd::utf8::*;

verus! {

// ---------------------------------------------------------------------------------------------
// The request
// ---------------------------------------------------------------------------------------------
/// A tool that the model may call.
#[derive(Clone, Debug, PartialEq, Eq)]
pub struct ToolDefinition {
    pub name: String,
    pub description: String,
    pub schema: JsonValue,
}

/// What a model is asked.
#[derive(Clone, Debug, PartialEq, Eq)]
pub struct ModelRequest {
    pub system_prompt: String,
    /// The converted conversation: a JSON array of messages.
    pub context: String,
    pub tools: Vec<ToolDefinition>,
}

/// A tool as the chat completions format writes it, given the JSON text of its schema.
pub open spec fn tool_json(tool: ToolDefinition, schema: Seq<char>) -> Seq<char> {
    "{\"type\":\"function\",\"function\":{\"name\":"@ + quoted(tool.name@) + ",\"description\":"@
        + quoted(tool.description@) + ",\"parameters\":"@ + schema + "}}"@
}

/// The tools of a request, each as the chat completions format writes it; the first schema that
/// cannot be written makes the request impossible.
pub open spec fn tools_json(
    tools: Seq<ToolDefinition>,
    encode: spec_fn(Json) -> Result<Seq<char>, Seq<char>>,
) -> Result<Seq<Seq<char>>, Seq<char>>
    decreases tools.len(),
{
    if tools.len() == 0 {
        Ok(Seq::empty())
    } else {
        match tools_json(tools.drop_last(), encode) {
            Err(message) => Err(message),
            Ok(parts) => match encode(tools.last().schema@) {
                Err(error) => Err("cannot serialize tool schema: "@ + error),
                Ok(schema) => Ok(parts.push(tool_json(tools.last(), schema))),
            },
        }
    }
}

/// The inside of a JSON array that is written in brackets, with white space around it or not.
pub open spec fn array_inside(context: Seq<char>) -> Option<Seq<char>> {
    let text = trimmed(context);
    if text.len() >= 2 && text[0] == '[' && text.last() == ']' {
        Some(text.subrange(1, text.len() - 1))
    } else {
        None
    }
}

/// The messages of a request: the system prompt, followed by the conversation.
pub open spec fn messages_json(system_prompt: Seq<char>, inside: Seq<char>) -> Seq<char> {
    let system = "{\"role\":\"system\",\"content\":"@ + quoted(system_prompt) + "}"@;
    if trimmed(inside).len() == 0 {
        "["@ + system + "]"@
    } else {
        "["@ + system + ","@ + inside + "]"@
    }
}

/// The tools field of a request; there is none where there are no tools.
pub open spec fn tools_field(parts: Seq<Seq<char>>) -> Seq<char> {
    if parts.len() == 0 {
        Seq::empty()
    } else {
        ",\"tools\":["@ + joined(parts, ","@) + "]"@
    }
}

/// The body of a request.
pub open spec fn payload_json(
    model: Seq<char>,
    request: ModelRequest,
    encode: spec_fn(Json) -> Result<Seq<char>, Seq<char>>,
) -> Result<Seq<char>, Seq<char>> {
    match array_inside(request.context@) {
        None => Err("OpenAI conversion did not produce a JSON message array"@),
        Some(inside) => match tools_json(request.tools@, encode) {
            Err(message) => Err(message),
            Ok(parts) => Ok(
                "{\"model\":"@ + quoted(model) + ",\"messages\":"@ + messages_json(
                    request.system_prompt@,
                    inside,
                ) + ",\"temperature\":0,\"max_tokens\":4096,\"stream\":false"@ + tools_field(parts)
                    + "}"@,
            ),
        },
    }
}

/// Takes the inside of a JSON array.
fn inside_of(context: &str) -> (r: Option<String>)
    ensures
        match r {
            Some(inside) => array_inside(context@) == Some(inside@),
            None => array_inside(context@) is None,
        },
{
    let text = trim(context);
    let chars = chars_of(text.as_str());
    let n: usize = chars.len();
    if n >= 2 && chars[0] == '[' && chars[n - 1] == ']' {
        Some(text_of(&chars, 1, n - 1))
    } else {
        None
    }
}

proof fn lemma_tool_error(
    tools: Seq<ToolDefinition>,
    n: int,
    encode: spec_fn(Json) -> Result<Seq<char>, Seq<char>>,
)
    requires
        0 <= n <= tools.len(),
        tools_json(tools.take(n), encode) is Err,
    ensures
        tools_json(tools, encode) == tools_json(tools.take(n), encode),
    decreases tools.len(),
{
    if n < tools.len() {
        assert(tools.drop_last().take(n) =~= tools.take(n));
        lemma_tool_error(tools.drop_last(), n, encode);
    } else {
        assert(tools.take(n) =~= tools);
    }
}

/// The texts of a list of strings, or the message about it.
pub open spec fn texts_result(r: Result<Vec<String>, String>) -> Result<Seq<Seq<char>>, Seq<char>> {
    match r {
        Ok(parts) => Ok(texts(parts@)),
        Err(message) => Err(message@),
    }
}

/// Writes the tools of a request.
fn write_tools<E: Fn(&JsonValue) -> Result<String, String>>(
    tools: &Vec<ToolDefinition>,
    encode: &E,
) -> (r: Result<Vec<String>, String>)
    requires
        forall|value: &JsonValue| call_requires(*encode, (value,)),
    ensures
        forall|meaning: spec_fn(Json) -> Result<Seq<char>, Seq<char>>| #[trigger]
            encodes(*encode, meaning) ==> texts_result(r) == tools_json(tools@, meaning),
{
    let mut parts: Vec<String> = Vec::new();
    let mut i: usize = 0;
    assert(tools@.take(0) =~= Seq::<ToolDefinition>::empty());
    assert(texts(parts@) =~= Seq::<Seq<char>>::empty());
    while i < tools.len()
        invariant
            forall|value: &JsonValue| call_requires(*encode, (value,)),
            i <= tools@.len(),
            forall|meaning: spec_fn(Json) -> Result<Seq<char>, Seq<char>>| #[trigger]
                encodes(*encode, meaning) ==> tools_json(tools@.take(i as int), meaning) == Ok::<
                    Seq<Seq<char>>,
                    Seq<char>,
                >(texts(parts@)),
        decreases tools@.len() - i,
    {
        let tool = &tools[i];
        proof {
            assert(tools@.take(i + 1).drop_last() =~= tools@.take(i as int));
            assert(tools@.take(i + 1).last() == *tool);
        }
        match encode(&tool.schema) {
            Ok(schema) => {
                let mut text = String::from_str(
                    "{\"type\":\"function\",\"function\":{\"name\":",
                );
                text.append(json_string(tool.name.as_str()).as_str());
                text.append(",\"description\":");
                text.append(json_string(tool.description.as_str()).as_str());
                text.append(",\"parameters\":");
                text.append(schema.as_str());
                text.append("}}");
                let ghost before = parts@;
                parts.push(text);
                assert(texts(parts@) =~= texts(before).push(tool_json(*tool, schema@)));
            },
            Err(error) => {
                let mut message = String::from_str("cannot serialize tool schema: ");
                message.append(error.as_str());
                proof {
                    assert forall|meaning: spec_fn(Json) -> Result<Seq<char>, Seq<char>>| #[trigger]
                        encodes(*encode, meaning) implies tools_json(tools@, meaning) == Err::<
                        Seq<Seq<char>>,
                        Seq<char>,
                    >(message@) by {
                        lemma_tool_error(tools@, i + 1, meaning);
                    }
                }
                return Err(message);
            },
        }
        i = i + 1;
    }
    assert(tools@.take(tools@.len() as int) =~= tools@);
    Ok(parts)
}

/// Writes the body of a request. `encode` is the JSON writer.
pub fn openrouter_payload<E: Fn(&JsonValue) -> Result<String, String>>(
    model: &str,
    request: &ModelRequest,
    encode: &E,
) -> (r: Result<String, String>)
    requires
        forall|value: &JsonValue| call_requires(*encode, (value,)),
    ensures
        forall|meaning: spec_fn(Json) -> Result<Seq<char>, Seq<char>>| #[trigger]
            encodes(*encode, meaning) ==> text_result(r) == payload_json(
                model@,
                *request,
                meaning,
            ),
{
    let inside = match inside_of(request.context.as_str()) {
        Some(inside) => inside,
        None => return Err(
            String::from_str("OpenAI conversion did not produce a JSON message array"),
        ),
    };
    let mut system = String::from_str("{\"role\":\"system\",\"content\":");
    system.append(json_string(request.system_prompt.as_str()).as_str());
    system.append("}");
    let mut messages = String::from_str("[");
    messages.append(system.as_str());
    if !is_blank(inside.as_str()) {
        messages.append(",");
        messages.append(inside.as_str());
    }
    messages.append("]");
    let tools = match write_tools(&request.tools, encode) {
        Ok(tools) => tools,
        Err(message) => return Err(message),
    };
    let mut payload = String::from_str("{\"model\":");
    payload.append(json_string(model).as_str());
    payload.append(",\"messages\":");
    payload.append(messages.as_str());
    payload.append(",\"temperature\":0,\"max_tokens\":4096,\"stream\":false");
    let ghost so_far = payload@;
    if tools.len() > 0 {
        payload.append(",\"tools\":[");
        payload.append(join(&tools, ",").as_str());
        payload.append("]");
    }
    assert(payload@ =~= so_far + tools_field(texts(tools@)));
    payload.append("}");
    Ok(payload)
}

// ---------------------------------------------------------------------------------------------
// The configuration of the transfer
// ---------------------------------------------------------------------------------------------
/// How a character is written inside a quoted value of the configuration.
pub open spec fn config_char(c: char) -> Seq<char> {
    if c == '\\' {
        seq!['\\', '\\']
    } else if c == '"' {
        seq!['\\', '"']
    } else {
        seq![c]
    }
}

/// How a text is written inside a quoted value of the configuration.
pub open spec fn config_quoted(s: Seq<char>) -> Seq<char>
    decreases s.len(),
{
    if s.len() == 0 {
        Seq::empty()
    } else {
        config_quoted(s.drop_last()) + config_char(s.last())
    }
}

/// Whether a text holds a line break.
pub open spec fn has_line_break(s: Seq<char>) -> bool {
    s.contains('\n') || s.contains('\r')
}

/// The configuration of the transfer for a provider key.
pub open spec fn config_text(api_key: Seq<char>) -> Seq<char> {
    "connect-timeout = 10\nmax-time = 90\nrequest = \"POST\"\nurl = \"https://openrouter.ai/api/v1/chat/completions\"\nheader = \"Content-Type: application/json\"\nheader = \"Authorization: Bearer "@
        + config_quoted(api_key) + "\"\ndata-binary = \"@-\"\n"@
}

/// Writes the configuration of the transfer. A key with a line break is refused: it would not
/// stay within its line.
pub fn curl_config(api_key: &str) -> (r: Result<String, String>)
    ensures
        text_result(r) == (if has_line_break(api_key@) {
            Err("OPENROUTER_API_KEY must not contain line breaks"@)
        } else {
            Ok(config_text(api_key@))
        }),
        r is Ok <==> !api_key@.contains('\n') && !api_key@.contains('\r'),
{
    let chars = chars_of(api_key);
    let mut out = String::from_str(
        "connect-timeout = 10\nmax-time = 90\nrequest = \"POST\"\nurl = \"https://openrouter.ai/api/v1/chat/completions\"\nheader = \"Content-Type: application/json\"\nheader = \"Authorization: Bearer ",
    );
    let ghost start = out@;
    let mut i: usize = 0;
    assert(out@ =~= start + config_quoted(api_key@.take(0)));
    while i < chars.len()
        invariant
            chars@ == api_key@,
            i <= chars@.len(),
            out@ == start + config_quoted(api_key@.take(i as int)),
            forall|j: int| 0 <= j < i ==> #[trigger] api_key@[j] != '\n' && api_key@[j] != '\r',
        decreases chars@.len() - i,
    {
        let c = chars[i];
        if c == '\n' || c == '\r' {
            assert(api_key@[i as int] == c);
            assert(has_line_break(api_key@));
            return Err(String::from_str("OPENROUTER_API_KEY must not contain line breaks"));
        }
        let ghost before = out@;
        if c == '\\' {
            out.push('\\');
            out.push('\\');
        } else if c == '"' {
            out.push('\\');
            out.push('"');
        } else {
            out.push(c);
        }
        proof {
            assert(out@ =~= before + config_char(c));
            assert(api_key@.take(i + 1).drop_last() =~= api_key@.take(i as int));
            assert(out@ =~= start + (config_quoted(api_key@.take(i as int)) + config_char(c)));
        }
        i = i + 1;
    }
    assert(api_key@.take(api_key@.len() as int) =~= api_key@);
    out.append("\"\ndata-binary = \"@-\"\n");
    Ok(out)
}

/// The text that the inside of a quoted value stands for, and what follows the closing quote.
pub open spec fn config_value(t: Seq<char>) -> Option<(Seq<char>, Seq<char>)>
    decreases t.len(),
{
    if t.len() == 0 {
        None
    } else if t[0] == '"' {
        Some((Seq::empty(), t.drop_first()))
    } else if t[0] == '\\' {
        if t.len() < 2 {
            None
        } else {
            match config_value(t.skip(2)) {
                Some((value, rest)) => Some((seq![t[1]] + value, rest)),
                None => None,
            }
        }
    } else {
        match config_value(t.drop_first()) {
            Some((value, rest)) => Some((seq![t[0]] + value, rest)),
            None => None,
        }
    }
}

proof fn lemma_config_first(s: Seq<char>)
    requires
        s.len() > 0,
    ensures
        config_quoted(s) == config_char(s[0]) + config_quoted(s.drop_first()),
    decreases s.len(),
{
    if s.len() == 1 {
        assert(s.drop_last() =~= Seq::<char>::empty());
        assert(s.drop_first() =~= Seq::<char>::empty());
        assert(config_quoted(s) =~= config_char(s[0]) + config_quoted(s.drop_first()));
    } else {
        lemma_config_first(s.drop_last());
        assert(s.drop_last().drop_first() =~= s.drop_first().drop_last());
        assert(config_quoted(s) =~= config_char(s[0]) + (config_quoted(s.drop_first().drop_last())
            + config_char(s.last())));
    }
}

/// A quoted value stands for the text that it was written for, and ends where it was closed:
/// no provider key reaches beyond its header.
pub proof fn config_values_read_back(s: Seq<char>, rest: Seq<char>)
    ensures
        config_value(config_quoted(s) + seq!['"'] + rest) == Some((s, rest)),
    decreases s.len(),
{
    let t = config_quoted(s) + seq!['"'] + rest;
    if s.len() == 0 {
        assert(t.drop_first() =~= rest);
        assert(s =~= Seq::<char>::empty());
    } else {
        lemma_config_first(s);
        config_values_read_back(s.drop_first(), rest);
        let later = config_quoted(s.drop_first()) + seq!['"'] + rest;
        assert(t =~= config_char(s[0]) + later);
        if s[0] == '\\' || s[0] == '"' {
            assert(t.skip(2) =~= later);
        } else {
            assert(t.drop_first() =~= later);
        }
        assert(seq![s[0]] + s.drop_first() =~= s);
    }
}

// ---------------------------------------------------------------------------------------------
// The output of the transfer
// ---------------------------------------------------------------------------------------------
/// The status that the output of a transfer reports after its last line break, whatever stands
/// before it.
pub open spec fn reported_status(bytes: Seq<u8>) -> Option<u16> {
    match last_line_break(bytes) {
        None => None,
        Some(k) => if valid_utf8(bytes.skip(k + 1)) {
            match unsigned_value(trimmed(decode_utf8(bytes.skip(k + 1))), u16::MAX as nat) {
                None => None,
                Some(status) => Some(status as u16),
            }
        } else {
            None
        },
    }
}

/// The body and the status in the output of a transfer: the status stands after the last line
/// break.
pub open spec fn transfer_output(bytes: Seq<u8>) -> Result<(Seq<u8>, u16), Seq<char>> {
    if !valid_utf8(bytes) {
        Err("OpenRouter transport returned non-UTF-8 output"@)
    } else {
        match last_line_break(bytes) {
            None => Err("OpenRouter transport did not report an HTTP status"@),
            Some(k) => match unsigned_value(
                trimmed(decode_utf8(bytes.skip(k + 1))),
                u16::MAX as nat,
            ) {
                None => Err("OpenRouter transport reported an invalid HTTP status"@),
                Some(status) => Ok((bytes.take(k), status as u16)),
            },
        }
    }
}

/// The content of a split output, or the message about it.
pub open spec fn split_result(r: Result<(&[u8], u16), String>) -> Result<
    (Seq<u8>, u16),
    Seq<char>,
> {
    match r {
        Ok((body, status)) => Ok((body@, status)),
        Err(message) => Err(message@),
    }
}

/// Reads the status that the output of a transfer reports.
fn read_status(bytes: &[u8], at: usize) -> (r: Option<u16>)
    requires
        last_line_break(bytes@) == Some(at as int),
        at < bytes@.len(),
    ensures
        r == reported_status(bytes@),
{
    let total: usize = bytes.len();
    assert(bytes@.subrange(at + 1, total as int) =~= bytes@.skip(at + 1));
    if let Some(text) = decode_strict(slice_subrange(bytes, at + 1, total)) {
        if let Some(status) = parse_unsigned(trim(text).as_str(), 65535) {
            return Some(status as u16);
        }
    }
    None
}

/// Splits the output of a transfer into the body and the status.
pub fn split_curl_status(bytes: &[u8]) -> (r: Result<(&[u8], u16), String>)
    ensures
        split_result(r) == transfer_output(bytes@),
{
    match decode_strict(bytes) {
        Some(_) => {},
        None => return Err(
            String::from_str("OpenRouter transport returned non-UTF-8 output"),
        ),
    }
    let at = match find_last_line_break(bytes) {
        Some(at) => at,
        None => return Err(
            String::from_str("OpenRouter transport did not report an HTTP status"),
        ),
    };
    proof {
        line_break_splits_text(bytes@, at as int);
        assert(bytes@.subrange(0, at as int) =~= bytes@.take(at as int));
    }
    match read_status(bytes, at) {
        Some(status) => Ok((slice_subrange(bytes, 0, at), status)),
        None => Err(String::from_str("OpenRouter transport reported an invalid HTTP status")),
    }
}

/// Whether the output of a transfer reports that the model was not found.
fn reports_missing_model(bytes: &[u8]) -> (r: bool)
    ensures
        r == (reported_status(bytes@) == Some(404u16)),
{
    match find_last_line_break(bytes) {
        Some(at) => match read_status(bytes, at) {
            Some(status) => status == 404,
            None => false,
        },
        None => false,
    }
}

/// What a transfer that ran to its end comes to. A model that is not found is explained even
/// where the output cannot be read.
pub open spec fn transfer_outcome(
    cancelled: bool,
    success: bool,
    stdout: Seq<u8>,
    stderr: Seq<u8>,
    parse: spec_fn(Seq<char>) -> Result<Json, Seq<char>>,
    accepts: spec_fn(Seq<char>) -> bool,
) -> Result<(Seq<StreamEvent>, Usage), Seq<char>> {
    if cancelled {
        Err("OpenRouter transport cancelled"@)
    } else if !success {
        Err("OpenRouter transport failed before a provider response: "@ + trimmed(lossy_text(stderr)))
    } else {
        match transfer_output(stdout) {
            Err(message) => Err(
                if reported_status(stdout) == Some(404u16) {
                    rejection(Json::Null, 404)
                } else {
                    message
                },
            ),
            Ok((body, status)) => response_outcome(body, status, parse, accepts),
        }
    }
}

/// Reads what a transfer that ran to its end comes to: nothing where the run was cancelled
/// meanwhile, a failure where the transfer failed, else what the response says.
pub fn complete<P: Fn(&str) -> Result<JsonValue, String>, A: Fn(&str) -> bool>(
    cancelled: bool,
    success: bool,
    stdout: &[u8],
    stderr: &[u8],
    parse: &P,
    accept_id: &A,
) -> (r: Result<(Vec<ModelStreamEvent>, Usage), String>)
    requires
        forall|text: &str| call_requires(*parse, (text,)),
        forall|text: &str| call_requires(*accept_id, (text,)),
    ensures
        forall|
            meaning: spec_fn(Seq<char>) -> Result<Json, Seq<char>>,
            accepts: spec_fn(Seq<char>) -> bool,
        |
            #[trigger] parses(*parse, meaning) && #[trigger] decides(*accept_id, accepts)
                ==> completion_result(r) == transfer_outcome(
                cancelled,
                success,
                stdout@,
                stderr@,
                meaning,
                accepts,
            ),
        r matches Ok((events, _)) ==> events@.len() > 0,
        !cancelled && success && reported_status(stdout@) == Some(404u16) ==> (r matches Err(
            message,
        ) && has_text(message@, retention_hint())),
{
    if cancelled {
        return Err(String::from_str("OpenRouter transport cancelled"));
    }
    if !success {
        let mut message = String::from_str(
            "OpenRouter transport failed before a provider response: ",
        );
        message.append(trim(decode_lossy(stderr).as_str()).as_str());
        return Err(message);
    }
    match split_curl_status(stdout) {
        Ok((body, status)) => parse_openrouter_response(body, status, parse, accept_id),
        Err(message) => {
            proof {
                missing_models_are_explained(Json::Null);
            }
            if reports_missing_model(stdout) {
                Err(openrouter_error(&JsonValue::Null, 404))
            } else {
                Err(message)
            }
        },
    }
}

// ---------------------------------------------------------------------------------------------
// The stream of a turn
// ---------------------------------------------------------------------------------------------
/// The stream of a cancelled turn.
pub open spec fn cancelled_events() -> Seq<StreamEvent> {
    seq![StreamEvent::End(StopReason::Cancelled)]
}

/// The stream of a turn: the events of the completion with its usage before the end event, the
/// error where there is no completion, and nothing of either where the run was cancelled.
pub open spec fn turn_events(
    completion: Result<(Seq<StreamEvent>, Usage), Seq<char>>,
    cancelled: bool,
) -> Seq<StreamEvent> {
    if cancelled {
        cancelled_events()
    } else {
        match completion {
            Ok((events, usage)) => events.drop_last().push(StreamEvent::Usage(usage)).push(
                events.last(),
            ),
            Err(message) => seq![StreamEvent::Error(message)],
        }
    }
}

/// Makes the stream of a cancelled turn.
pub fn cancelled_stream() -> (r: Vec<ModelStreamEvent>)
    ensures
        events_view(r@) == cancelled_events(),
{
    let mut events: Vec<ModelStreamEvent> = Vec::new();
    events.push(ModelStreamEvent::End(StopReason::Cancelled));
    assert(events_view(events@) =~= cancelled_events());
    events
}

/// The totals after a turn: the usage of a completion counts, unless the run was cancelled.
pub open spec fn totals_after(
    totals: Usage,
    completion: Result<(Seq<StreamEvent>, Usage), Seq<char>>,
    cancelled: bool,
) -> Usage {
    match completion {
        Ok((_, usage)) => if cancelled {
            totals
        } else {
            usage_sum(totals, usage)
        },
        Err(_) => totals,
    }
}

/// Makes the stream of a turn, and adds the usage of its completion to the totals.
pub fn response_stream(
    totals: &mut UsageTotals,
    completion: Result<(Vec<ModelStreamEvent>, Usage), String>,
    cancelled: bool,
) -> (r: Vec<ModelStreamEvent>)
    requires
        !cancelled && completion is Ok ==> completion->Ok_0.0@.len() > 0 && old(totals).fits(
            completion->Ok_0.1,
        ),
    ensures
        events_view(r@) == turn_events(completion_result(completion), cancelled),
        final(totals).totals == (if !cancelled && completion is Ok {
            usage_sum(old(totals).totals, completion->Ok_0.1)
        } else {
            old(totals).totals
        }),
        final(totals).totals == totals_after(
            old(totals).totals,
            completion_result(completion),
            cancelled,
        ),
{
    if cancelled {
        return cancelled_stream();
    }
    match completion {
        Ok((mut events, usage)) => {
            let ghost all = events@;
            totals.add(usage);
            if let Some(terminal) = events.pop() {
                events.push(ModelStreamEvent::Usage(usage));
                events.push(terminal);
            }
            assert(events_view(events@) =~= events_view(all).drop_last().push(
                StreamEvent::Usage(usage),
            ).push(events_view(all).last()));
            events
        },
        Err(message) => {
            let mut events: Vec<ModelStreamEvent> = Vec::new();
            events.push(ModelStreamEvent::Error { message });
            assert(events_view(events@) =~= seq![StreamEvent::Error(message@)]);
            events
        },
    }
}

// ---------------------------------------------------------------------------------------------
// Laws
// ---------------------------------------------------------------------------------------------
proof fn lemma_last_line_break_after(a: Seq<u8>, b: Seq<u8>)
    requires
        forall|i: int| 0 <= i < b.len() ==> #[trigger] b[i] != 10,
    ensures
        last_line_break(a + seq![10u8] + b) == Some(a.len() as int),
    decreases b.len(),
{
    let whole = a + seq![10u8] + b;
    if b.len() > 0 {
        assert(whole.last() == b[b.len() - 1]);
        assert(whole.drop_last() =~= a + seq![10u8] + b.drop_last());
        lemma_last_line_break_after(a, b.drop_last());
    }
}

/// The body and the status that a transfer was told to write out are read back: whatever valid
/// text the body is, followed by a line break and a numeral.
pub proof fn transfer_output_reads_back(body: Seq<u8>, numeral: Seq<char>)
    requires
        valid_utf8(body),
        numeral.len() > 0,
        all_digits(numeral),
        digits_value(numeral) <= u16::MAX,
    ensures
        transfer_output(body + seq![10u8] + encode_utf8(numeral)) == Ok::<
            (Seq<u8>, u16),
            Seq<char>,
        >((body, digits_value(numeral) as u16)),
{
    let tail = encode_utf8(numeral);
    let whole = body + seq![10u8] + tail;
    assert(is_ascii_chars(numeral));
    is_ascii_chars_encode_utf8(numeral);
    assert forall|i: int| 0 <= i < tail.len() implies #[trigger] tail[i] != 10 by {
        assert(numeral[i] as u8 == tail[i]);
        assert('0' <= numeral[i] <= '9');
    }
    lemma_last_line_break_after(body, tail);
    encode_utf8_valid_utf8(numeral);
    encode_utf8_decode_utf8(numeral);
    assert(valid_utf8(seq![10u8])) by {
        assert(pop_first_scalar(seq![10u8]) =~= Seq::<u8>::empty());
        assert(valid_utf8(pop_first_scalar(seq![10u8])));
    }
    valid_utf8_concat(body, seq![10u8]);
    valid_utf8_concat(body + seq![10u8], tail);
    assert(whole.skip(body.len() as int + 1) =~= tail);
    assert(whole.take(body.len() as int) =~= body);
    assert('0' <= numeral[0] <= '9');
    assert('0' <= numeral[numeral.len() - 1] <= '9');
    trimmed_is_unchanged(numeral);
}

/// A converted conversation is always accepted as the context of a request, and its messages
/// stand in the request exactly as they were converted.
pub proof fn conversations_are_accepted(messages: Seq<Message>, include_error_metadata: bool)
    ensures
        array_inside(conversation_json(messages, include_error_metadata)) == Some(
            joined(conversation_parts(messages, include_error_metadata), ","@),
        ),
{
    reveal_strlit("[");
    reveal_strlit("]");
    let text = conversation_json(messages, include_error_metadata);
    trimmed_is_unchanged(text);
    assert(text.subrange(1, text.len() - 1) =~= joined(
        conversation_parts(messages, include_error_metadata),
        ","@,
    ));
}

/// A stream has its usage right before its last event, which ends it.
pub proof fn streams_report_usage_before_the_end(
    events: Seq<StreamEvent>,
    usage: Usage,
)
    requires
        events.len() > 0,
    ensures
        ({
            let stream = turn_events(Ok((events, usage)), false);
            &&& stream.len() == events.len() + 1
            &&& stream.last() == events.last()
            &&& stream[stream.len() - 2] == StreamEvent::Usage(usage)
            &&& stream.take(stream.len() - 2) == events.drop_last()
        }),
{
    let stream = turn_events(Ok((events, usage)), false);
    assert(stream.take(stream.len() - 2) =~= events.drop_last());
}

// ---------------------------------------------------------------------------------------------
// What the provider is asked
// ---------------------------------------------------------------------------------------------
#[verifier::spinoff_prover]
#[verifier::rlimit(40)]
proof fn lemma_tool(tool: ToolDefinition, schema: Seq<char>, value: Tree)
    requires
        stands_for(schema, value),
    ensures
        stands_for(
            tool_json(tool, schema),
            Tree::Object(
                seq![
                    ("type"@, Tree::Text("function"@)),
                    (
                        "function"@,
                        Tree::Object(
                            seq![
                                ("name"@, Tree::Text(tool.name@)),
                                ("description"@, Tree::Text(tool.description@)),
                                ("parameters"@, value),
                            ],
                        ),
                    ),
                ],
            ),
        ),
{
    reveal_strlit("{\"type\":\"function\",\"function\":{\"name\":");
    reveal_strlit(",\"description\":");
    reveal_strlit(",\"parameters\":");
    reveal_strlit("}}");
    reveal_strlit("type");
    reveal_strlit("function");
    reveal_strlit("name");
    reveal_strlit("description");
    reveal_strlit("parameters");
    reveal_strlit("{");
    reveal_strlit("}");
    reveal_strlit(",");
    reveal_strlit(":");
    let (name, description) = (tool.name@, tool.description@);
    lemma_text(name);
    lemma_text(description);
    lemma_literal("function"@);
    lemma_object_of_three(
        ("name"@, quoted(name), Tree::Text(name)),
        ("description"@, quoted(description), Tree::Text(description)),
        ("parameters"@, schema, value),
    );
    let inner = "{"@ + member_text("name"@, quoted(name)) + ","@ + member_text(
        "description"@,
        quoted(description),
    ) + ","@ + member_text("parameters"@, schema) + "}"@;
    let told = Tree::Object(
        seq![
            ("name"@, Tree::Text(name)),
            ("description"@, Tree::Text(description)),
            ("parameters"@, value),
        ],
    );
    lemma_object_of_two(
        ("type"@, literal("function"@), Tree::Text("function"@)),
        ("function"@, inner, told),
    );
    assert("{\"type\":\"function\",\"function\":{\"name\":"@ =~= "{"@ + member_text(
        "type"@,
        literal("function"@),
    ) + ","@ + literal("function"@) + ":"@ + "{"@ + literal("name"@) + ":"@);
    assert(",\"description\":"@ =~= ","@ + literal("description"@) + ":"@);
    assert(",\"parameters\":"@ =~= ","@ + literal("parameters"@) + ":"@);
    assert("}}"@ =~= "}"@ + "}"@);
    assert(tool_json(tool, schema) =~= "{"@ + member_text("type"@, literal("function"@)) + ","@
        + member_text("function"@, inner) + "}"@);
}

proof fn lemma_tool_texts(
    tools: Seq<ToolDefinition>,
    encode: spec_fn(Json) -> Result<Seq<char>, Seq<char>>,
)
    requires
        forall|i: int| 0 <= i < tools.len() ==> encode((#[trigger] tools[i]).schema@) is Ok,
    ensures
        tools_json(tools, encode) matches Ok(parts) && parts.len() == tools.len() && forall|i: int|
            0 <= i < tools.len() ==> #[trigger] parts[i] == tool_json(
                tools[i],
                encode(tools[i].schema@)->Ok_0,
            ),
    decreases tools.len(),
{
    if tools.len() > 0 {
        let shorter = tools.drop_last();
        assert forall|i: int| 0 <= i < shorter.len() implies encode(
            (#[trigger] shorter[i]).schema@,
        ) is Ok by {
            assert(encode(tools[i].schema@) is Ok);
        }
        lemma_tool_texts(shorter, encode);
        assert(encode(tools[tools.len() - 1].schema@) is Ok);
        let parts = tools_json(tools, encode)->Ok_0;
        assert forall|i: int| 0 <= i < tools.len() implies #[trigger] parts[i] == tool_json(
            tools[i],
            encode(tools[i].schema@)->Ok_0,
        ) by {
            if i < shorter.len() {
                assert(parts[i] == tools_json(shorter, encode)->Ok_0[i]);
                assert(shorter[i] == tools[i]);
            }
        }
    }
}

/// A text that does not begin with white space is not blank.
proof fn lemma_not_blank(s: Seq<char>)
    requires
        s.len() > 0,
        !is_white_space(s[0]),
    ensures
        trimmed(s).len() > 0,
    decreases s.len(),
{
    assert(trim_start(s) == s);
    if is_white_space(s.last()) {
        assert(s.drop_last()[0] == s[0]);
        lemma_not_blank(s.drop_last());
        assert(trim_start(s.drop_last()) == s.drop_last());
    }
}

#[verifier::spinoff_prover]
#[verifier::rlimit(40)]
proof fn lemma_system_message(prompt: Seq<char>)
    ensures
        stands_for(
            "{\"role\":\"system\",\"content\":"@ + quoted(prompt) + "}"@,
            Tree::Object(seq![("role"@, Tree::Text("system"@)), ("content"@, Tree::Text(prompt))]),
        ),
{
    reveal_strlit("{\"role\":\"system\",\"content\":");
    reveal_strlit("role");
    reveal_strlit("content");
    reveal_strlit("system");
    reveal_strlit("{");
    reveal_strlit("}");
    reveal_strlit(",");
    reveal_strlit(":");
    lemma_literal("system"@);
    lemma_text(prompt);
    lemma_object_of_two(
        ("role"@, literal("system"@), Tree::Text("system"@)),
        ("content"@, quoted(prompt), Tree::Text(prompt)),
    );
    assert("{\"role\":\"system\",\"content\":"@ =~= "{"@ + member_text("role"@, literal("system"@))
        + ","@ + literal("content"@) + ":"@);
    assert("{\"role\":\"system\",\"content\":"@ + quoted(prompt) + "}"@ =~= "{"@ + member_text(
        "role"@,
        literal("system"@),
    ) + ","@ + member_text("content"@, quoted(prompt)) + "}"@);
}

#[verifier::spinoff_prover]
#[verifier::rlimit(40)]
proof fn lemma_request_messages(prompt: Seq<char>, context: Seq<char>, items: Seq<Tree>)
    requires
        stands_for(context, Tree::Array(items)),
        context.last() == ']',
    ensures
        array_inside(context) matches Some(inside) && stands_for(
            messages_json(prompt, inside),
            Tree::Array(
                seq![
                    Tree::Object(
                        seq![
                            ("role"@, Tree::Text("system"@)),
                            ("content"@, Tree::Text(prompt)),
                        ],
                    ),
                ] + items,
            ),
        ),
{
    lemma_array_shape(context, items);
    reveal_strlit("{\"role\":\"system\",\"content\":");
    lemma_system_message(prompt);
    let system = "{\"role\":\"system\",\"content\":"@ + quoted(prompt) + "}"@;
    let first = Tree::Object(
        seq![("role"@, Tree::Text("system"@)), ("content"@, Tree::Text(prompt))],
    );
    let inside = context.subrange(1, context.len() - 1);
    if inside.len() == 0 {
        let parts = seq![system];
        lemma_array(parts, seq![first]);
        assert(joined(parts, ","@) =~= system);
        assert(seq![first] + items =~= seq![first]);
        assert(messages_json(prompt, inside) =~= "["@ + joined(parts, ","@) + "]"@);
    } else {
        lemma_with_first(system, first, context, items);
    }
}

proof fn lemma_array_shape(context: Seq<char>, items: Seq<Tree>)
    requires
        stands_for(context, Tree::Array(items)),
        context.last() == ']',
    ensures
        context.len() >= 2,
        context[0] == '[',
        ({
            let inside = context.subrange(1, context.len() - 1);
            &&& array_inside(context) == Some(inside)
            &&& inside.len() == 0 ==> trimmed(inside).len() == 0 && items.len() == 0
            &&& inside.len() > 0 ==> trimmed(inside).len() > 0
        }),
{
    reveal_strlit("]");
    let none = Seq::<char>::empty();
    assert(context + none =~= context);
    lemma_read_before(context, Tree::Array(items), none);
    lemma_value_begins(context, Tree::Array(items), none);
    trimmed_is_unchanged(context);
    let inside = context.subrange(1, context.len() - 1);
    if inside.len() > 0 {
        lemma_inside(context, items, none);
        lemma_items_begin(inside + "]"@ + none);
        lemma_not_blank(inside);
    } else {
        lemma_empty_value(context);
    }
}

/// Items do not begin with white space.
proof fn lemma_items_begin(t: Seq<char>)
    requires
        read_items(t) is Some,
    ensures
        t.len() > 0,
        !is_white_space(t[0]),
{
    reveal(read_items);
    reveal(read_value);
    if let Some((value, rest)) = read_value(t) {
        lemma_value_begins(t, value, rest);
    }
}

/// A value before the items of an array.
#[verifier::spinoff_prover]
#[verifier::rlimit(40)]
proof fn lemma_first_item(
    system: Seq<char>,
    first: Tree,
    inside: Seq<char>,
    items: Seq<Tree>,
    rest: Seq<char>,
)
    requires
        stands_for(system, first),
        system[0] == '{',
        read_items(inside + "]"@ + rest) == Some((items, rest)),
    ensures
        read_value("["@ + system + ","@ + inside + "]"@ + rest) == Some(
            (Tree::Array(seq![first] + items), rest),
        ),
{
    lemma_more_items(system, first, inside, items, rest);
    reveal_strlit("[");
    lemma_read_alone(system, first);
    let t = "["@ + system + ","@ + inside + "]"@ + rest;
    assert(t.drop_first() =~= system + ","@ + inside + "]"@ + rest);
    assert(t[1] == system[0]);
    lemma_value_of_items(t, seq![first] + items, rest);
}

#[verifier::spinoff_prover]
#[verifier::rlimit(40)]
proof fn lemma_more_items(
    system: Seq<char>,
    first: Tree,
    inside: Seq<char>,
    items: Seq<Tree>,
    rest: Seq<char>,
)
    requires
        stands_for(system, first),
        read_items(inside + "]"@ + rest) == Some((items, rest)),
    ensures
        read_items(system + ","@ + inside + "]"@ + rest) == Some((seq![first] + items, rest)),
{
    reveal_strlit(",");
    lemma_read_alone(system, first);
    let later = inside + "]"@ + rest;
    let tail = ","@ + later;
    lemma_read_before(system, first, tail);
    let t = system + ","@ + inside + "]"@ + rest;
    assert(t =~= system + tail);
    assert(tail.drop_first() =~= later);
    lemma_another_item(t, first, tail, items, rest);
}

/// A value before the items of an array, wherever it is written.
#[verifier::spinoff_prover]
#[verifier::rlimit(40)]
proof fn lemma_with_first(system: Seq<char>, first: Tree, context: Seq<char>, items: Seq<Tree>)
    requires
        stands_for(system, first),
        system[0] == '{',
        stands_for(context, Tree::Array(items)),
        context.len() > 2,
        context[0] == '[',
        context.last() == ']',
    ensures
        stands_for(
            "["@ + system + ","@ + context.subrange(1, context.len() - 1) + "]"@,
            Tree::Array(seq![first] + items),
        ),
{
    let inside = context.subrange(1, context.len() - 1);
    let text = "["@ + system + ","@ + inside + "]"@;
    assert forall|rest: Seq<char>| rest.len() == 0 || !in_numeral(rest[0]) implies #[trigger]
        read_value(text + rest) == Some((Tree::Array(seq![first] + items), rest)) by {
        lemma_inside(context, items, rest);
        lemma_first_item(system, first, inside, items, rest);
    }
    assert(stands_for(text, Tree::Array(seq![first] + items))) by {
        reveal(stands_for);
    }
}

/// The inside of an array is read as its items.
#[verifier::spinoff_prover]
#[verifier::rlimit(40)]
proof fn lemma_inside(context: Seq<char>, items: Seq<Tree>, rest: Seq<char>)
    requires
        stands_for(context, Tree::Array(items)),
        context.len() > 2,
        context[0] == '[',
        context.last() == ']',
        rest.len() == 0 || !in_numeral(rest[0]),
    ensures
        read_items(context.subrange(1, context.len() - 1) + "]"@ + rest) == Some((items, rest)),
{
    reveal_strlit("]");
    let none = Seq::<char>::empty();
    let inside = context.subrange(1, context.len() - 1);
    lemma_read_before(context, Tree::Array(items), none);
    assert(context[1] != ']') by {
        if context[1] == ']' {
            lemma_empty_value(context + none);
            assert((context + none).skip(2).len() > 0);
        }
    }
    lemma_read_before(context, Tree::Array(items), rest);
    assert((context + rest).drop_first() =~= inside + "]"@ + rest);
    assert((context + rest)[1] == context[1]);
    lemma_value_of_items(context + rest, items, rest);
}

/// A request that can be written is read as what it was made of: the model, the system prompt
/// followed by the messages of the conversation, fixed limits, and the tools, each with its name,
/// its description and its schema. There is a request whenever the conversation is an array and
/// the schemas can be written.
#[verifier::spinoff_prover]
#[verifier::rlimit(40)]
pub proof fn requests_read_back(
    model: Seq<char>,
    request: ModelRequest,
    encode: spec_fn(Json) -> Result<Seq<char>, Seq<char>>,
    items: Seq<Tree>,
    schemas: Seq<Tree>,
) -> (tools: Seq<Tree>)
    requires
        stands_for(request.context@, Tree::Array(items)),
        request.context@.last() == ']',
        schemas.len() == request.tools@.len(),
        forall|i: int|
            0 <= i < schemas.len() ==> (encode((#[trigger] request.tools@[i]).schema@) matches Ok(
                text,
            ) && stands_for(text, schemas[i])),
    ensures
        ({
            let system = Tree::Object(
                seq![
                    ("role"@, Tree::Text("system"@)),
                    ("content"@, Tree::Text(request.system_prompt@)),
                ],
            );
            let asked = seq![
                ("model"@, Tree::Text(model)),
                ("messages"@, Tree::Array(seq![system] + items)),
                ("temperature"@, Tree::Number("0"@)),
                ("max_tokens"@, Tree::Number("4096"@)),
                ("stream"@, Tree::Bool(false)),
            ];
            payload_json(model, request, encode) matches Ok(payload) && read_json(payload) == Some(
                Tree::Object(
                    if request.tools@.len() > 0 {
                        asked.push(("tools"@, Tree::Array(tools)))
                    } else {
                        asked
                    },
                ),
            )
        }),
        tools.len() == request.tools@.len(),
        forall|i: int|
            0 <= i < tools.len() ==> #[trigger] tools[i] == Tree::Object(
                seq![
                    ("type"@, Tree::Text("function"@)),
                    (
                        "function"@,
                        Tree::Object(
                            seq![
                                ("name"@, Tree::Text(request.tools@[i].name@)),
                                ("description"@, Tree::Text(request.tools@[i].description@)),
                                ("parameters"@, schemas[i]),
                            ],
                        ),
                    ),
                ],
            ),
{
    let inside = array_inside(request.context@)->0;
    lemma_request_messages(request.system_prompt@, request.context@, items);
    lemma_tool_texts(request.tools@, encode);
    let parts = tools_json(request.tools@, encode)->Ok_0;
    let tools = Seq::new(
        schemas.len(),
        |i: int|
            Tree::Object(
                seq![
                    ("type"@, Tree::Text("function"@)),
                    (
                        "function"@,
                        Tree::Object(
                            seq![
                                ("name"@, Tree::Text(request.tools@[i].name@)),
                                ("description"@, Tree::Text(request.tools@[i].description@)),
                                ("parameters"@, schemas[i]),
                            ],
                        ),
                    ),
                ],
            ),
    );
    assert forall|i: int| 0 <= i < parts.len() implies stands_for(#[trigger] parts[i], tools[i]) by {
        lemma_tool(
            request.tools@[i],
            encode(request.tools@[i].schema@)->Ok_0,
            schemas[i],
        );
    }
    lemma_array(parts, tools);
    let system = Tree::Object(
        seq![
            ("role"@, Tree::Text("system"@)),
            ("content"@, Tree::Text(request.system_prompt@)),
        ],
    );
    lemma_payload(
        model,
        messages_json(request.system_prompt@, inside),
        Tree::Array(seq![system] + items),
        parts,
        Tree::Array(tools),
    );
    tools
}

#[verifier::spinoff_prover]
#[verifier::rlimit(40)]
proof fn lemma_payload(
    model: Seq<char>,
    messages: Seq<char>,
    said: Tree,
    parts: Seq<Seq<char>>,
    tools: Tree,
)
    requires
        stands_for(messages, said),
        stands_for("["@ + joined(parts, ","@) + "]"@, tools),
    ensures
        ({
            let asked = seq![
                ("model"@, Tree::Text(model)),
                ("messages"@, said),
                ("temperature"@, Tree::Number("0"@)),
                ("max_tokens"@, Tree::Number("4096"@)),
                ("stream"@, Tree::Bool(false)),
            ];
            read_json(
                "{\"model\":"@ + quoted(model) + ",\"messages\":"@ + messages
                    + ",\"temperature\":0,\"max_tokens\":4096,\"stream\":false"@ + tools_field(parts)
                    + "}"@,
            ) == Some(
                Tree::Object(
                    if parts.len() > 0 {
                        asked.push(("tools"@, tools))
                    } else {
                        asked
                    },
                ),
            )
        }),
{
    reveal_strlit("{\"model\":");
    reveal_strlit(",\"messages\":");
    reveal_strlit(",\"temperature\":0,\"max_tokens\":4096,\"stream\":false");
    reveal_strlit(",\"tools\":[");
    reveal_strlit("]");
    reveal_strlit("[");
    reveal_strlit("model");
    reveal_strlit("messages");
    reveal_strlit("temperature");
    reveal_strlit("max_tokens");
    reveal_strlit("stream");
    reveal_strlit("tools");
    reveal_strlit("0");
    reveal_strlit("4096");
    reveal_strlit("false");
    reveal_strlit("{");
    reveal_strlit("}");
    reveal_strlit(",");
    reveal_strlit(":");
    let text = "{\"model\":"@ + quoted(model) + ",\"messages\":"@ + messages
        + ",\"temperature\":0,\"max_tokens\":4096,\"stream\":false"@ + tools_field(parts) + "}"@;
    let asked = seq![
        ("model"@, Tree::Text(model)),
        ("messages"@, said),
        ("temperature"@, Tree::Number("0"@)),
        ("max_tokens"@, Tree::Number("4096"@)),
        ("stream"@, Tree::Bool(false)),
    ];
    let list = "["@ + joined(parts, ","@) + "]"@;
    lemma_text(model);
    lemma_number("0"@);
    lemma_number("4096"@);
    lemma_names();
    assert("{\"model\":"@ =~= "{"@ + literal("model"@) + ":"@);
    assert(",\"messages\":"@ =~= ","@ + literal("messages"@) + ":"@);
    assert(",\"temperature\":0,\"max_tokens\":4096,\"stream\":false"@ =~= ","@ + member_text(
        "temperature"@,
        "0"@,
    ) + ","@ + member_text("max_tokens"@, "4096"@) + ","@ + member_text("stream"@, "false"@));
    assert(",\"tools\":["@ =~= ","@ + literal("tools"@) + ":"@ + "["@);
    let limits = ","@ + member_text("temperature"@, "0"@) + ","@ + member_text(
        "max_tokens"@,
        "4096"@,
    ) + ","@ + member_text("stream"@, "false"@);
    if parts.len() > 0 {
        lemma_object_of_six(
            ("model"@, quoted(model), Tree::Text(model)),
            ("messages"@, messages, said),
            ("temperature"@, "0"@, Tree::Number("0"@)),
            ("max_tokens"@, "4096"@, Tree::Number("4096"@)),
            ("stream"@, "false"@, Tree::Bool(false)),
            ("tools"@, list, tools),
        );
        let whole = "{"@ + member_text("model"@, quoted(model)) + ","@ + member_text(
            "messages"@,
            messages,
        ) + ","@ + member_text("temperature"@, "0"@) + ","@ + member_text("max_tokens"@, "4096"@)
            + ","@ + member_text("stream"@, "false"@) + ","@ + member_text("tools"@, list) + "}"@;
        assert(tools_field(parts) =~= ","@ + member_text("tools"@, list));
        assert(whole =~= "{"@ + member_text("model"@, quoted(model)) + ","@ + member_text(
            "messages"@,
            messages,
        ) + limits + (","@ + member_text("tools"@, list)) + "}"@);
        assert(text =~= whole);
        assert(asked.push(("tools"@, tools)) =~= seq![
            ("model"@, Tree::Text(model)),
            ("messages"@, said),
            ("temperature"@, Tree::Number("0"@)),
            ("max_tokens"@, Tree::Number("4096"@)),
            ("stream"@, Tree::Bool(false)),
            ("tools"@, tools),
        ]);
        lemma_read_alone(text, Tree::Object(asked.push(("tools"@, tools))));
    } else {
        lemma_object_of_five(
            ("model"@, quoted(model), Tree::Text(model)),
            ("messages"@, messages, said),
            ("temperature"@, "0"@, Tree::Number("0"@)),
            ("max_tokens"@, "4096"@, Tree::Number("4096"@)),
            ("stream"@, "false"@, Tree::Bool(false)),
        );
        let whole = "{"@ + member_text("model"@, quoted(model)) + ","@ + member_text(
            "messages"@,
            messages,
        ) + ","@ + member_text("temperature"@, "0"@) + ","@ + member_text("max_tokens"@, "4096"@)
            + ","@ + member_text("stream"@, "false"@) + "}"@;
        assert(whole =~= "{"@ + member_text("model"@, quoted(model)) + ","@ + member_text(
            "messages"@,
            messages,
        ) + limits + "}"@);
        assert(text =~= whole);
        lemma_read_alone(text, Tree::Object(asked));
    }
}

/// The conversation reaches the provider: the messages of a request are the system prompt and then
/// the messages of the conversation, each as it is read by itself, none left out and none added.
#[verifier::spinoff_prover]
#[verifier::rlimit(40)]
pub proof fn conversations_are_sent(
    model: Seq<char>,
    request: ModelRequest,
    encode: spec_fn(Json) -> Result<Seq<char>, Seq<char>>,
    messages: Seq<Message>,
    include_error_metadata: bool,
) -> (items: Seq<Tree>)
    requires
        request.context@ == conversation_json(messages, include_error_metadata),
        request.tools@.len() == 0,
    ensures
        ({
            let system = Tree::Object(
                seq![
                    ("role"@, Tree::Text("system"@)),
                    ("content"@, Tree::Text(request.system_prompt@)),
                ],
            );
            payload_json(model, request, encode) matches Ok(payload) && read_json(payload) == Some(
                Tree::Object(
                    seq![
                        ("model"@, Tree::Text(model)),
                        ("messages"@, Tree::Array(seq![system] + items)),
                        ("temperature"@, Tree::Number("0"@)),
                        ("max_tokens"@, Tree::Number("4096"@)),
                        ("stream"@, Tree::Bool(false)),
                    ],
                ),
            )
        }),
        items.len() == messages.len(),
        forall|i: int|
            0 <= i < items.len() ==> read_json(openai_json(messages[i], include_error_metadata))
                == Some(#[trigger] items[i]),
{
    reveal_strlit("]");
    let items = conversations_read_back(messages, include_error_metadata);
    assert(request.context@.last() == ']');
    let tools = requests_read_back(model, request, encode, items, Seq::empty());
    items
}

/// A conversation that is not written in brackets is no request, and neither is one with a tool
/// whose schema cannot be written.
pub proof fn impossible_requests_are_refused(
    model: Seq<char>,
    request: ModelRequest,
    encode: spec_fn(Json) -> Result<Seq<char>, Seq<char>>,
    i: int,
    error: Seq<char>,
)
    ensures
        ({
            let text = trimmed(request.context@);
            !(text.len() >= 2 && text[0] == '[' && text.last() == ']') ==> payload_json(
                model,
                request,
                encode,
            ) == Err::<Seq<char>, Seq<char>>(
                "OpenAI conversion did not produce a JSON message array"@,
            )
        }),
        0 <= i < request.tools@.len() && encode(request.tools@[i].schema@) == Err::<
            Seq<char>,
            Seq<char>,
        >(error) ==> payload_json(model, request, encode) is Err,
{
    if 0 <= i < request.tools@.len() && encode(request.tools@[i].schema@) is Err {
        lemma_bad_schema(request.tools@, encode, i);
    }
}

proof fn lemma_bad_schema(
    tools: Seq<ToolDefinition>,
    encode: spec_fn(Json) -> Result<Seq<char>, Seq<char>>,
    i: int,
)
    requires
        0 <= i < tools.len(),
        encode(tools[i].schema@) is Err,
    ensures
        tools_json(tools, encode) is Err,
    decreases tools.len(),
{
    if i < tools.len() - 1 {
        lemma_bad_schema(tools.drop_last(), encode, i);
    }
}

// ---------------------------------------------------------------------------------------------
// How the provider is reached
// ---------------------------------------------------------------------------------------------
proof fn lemma_config_concat(a: Seq<char>, b: Seq<char>)
    ensures
        config_quoted(a + b) == config_quoted(a) + config_quoted(b),
    decreases b.len(),
{
    if b.len() == 0 {
        assert(a + b =~= a);
        assert(config_quoted(a) + config_quoted(b) =~= config_quoted(a));
    } else {
        assert((a + b).drop_last() =~= a + b.drop_last());
        lemma_config_concat(a, b.drop_last());
        assert(config_quoted(a + b) =~= config_quoted(a) + config_quoted(b));
    }
}

proof fn lemma_config_plain(s: Seq<char>)
    requires
        forall|i: int| 0 <= i < s.len() ==> #[trigger] s[i] != '"' && s[i] != '\\',
    ensures
        config_quoted(s) == s,
    decreases s.len(),
{
    if s.len() > 0 {
        lemma_config_plain(s.drop_last());
        assert(config_quoted(s) =~= s);
    } else {
        assert(config_quoted(s) =~= s);
    }
}

/// The configuration tells the transfer to post to the one address of the provider within its
/// time limits, to send the request from its input, and to authorize it by exactly the given key:
/// the header that is read off the configuration holds the key as it is, whatever characters the
/// key is made of.
#[verifier::spinoff_prover]
#[verifier::rlimit(40)]
pub proof fn keys_reach_the_provider(api_key: Seq<char>) -> (header: Seq<char>)
    ensures
        config_text(api_key) == "connect-timeout = 10\n"@ + "max-time = 90\n"@
            + "request = \"POST\"\n"@
            + "url = \"https://openrouter.ai/api/v1/chat/completions\"\n"@
            + "header = \"Content-Type: application/json\"\n"@ + "header = \""@ + header,
        config_value(header) == Some(
            ("Authorization: Bearer "@ + api_key, "\ndata-binary = \"@-\"\n"@),
        ),
{
    reveal_strlit("connect-timeout = 10\n");
    reveal_strlit("max-time = 90\n");
    reveal_strlit("request = \"POST\"\n");
    reveal_strlit("url = \"https://openrouter.ai/api/v1/chat/completions\"\n");
    reveal_strlit("header = \"Content-Type: application/json\"\n");
    reveal_strlit("header = \"");
    reveal_strlit("Authorization: Bearer ");
    reveal_strlit("\ndata-binary = \"@-\"\n");
    reveal_strlit("\"\ndata-binary = \"@-\"\n");
    reveal_strlit(
        "connect-timeout = 10\nmax-time = 90\nrequest = \"POST\"\nurl = \"https://openrouter.ai/api/v1/chat/completions\"\nheader = \"Content-Type: application/json\"\nheader = \"Authorization: Bearer ",
    );
    let start = "connect-timeout = 10\n"@ + "max-time = 90\n"@ + "request = \"POST\"\n"@
        + "url = \"https://openrouter.ai/api/v1/chat/completions\"\n"@
        + "header = \"Content-Type: application/json\"\n"@ + "header = \""@;
    assert(start + "Authorization: Bearer "@
        =~= "connect-timeout = 10\nmax-time = 90\nrequest = \"POST\"\nurl = \"https://openrouter.ai/api/v1/chat/completions\"\nheader = \"Content-Type: application/json\"\nheader = \"Authorization: Bearer "@);
    let value = "Authorization: Bearer "@ + api_key;
    let end = "\ndata-binary = \"@-\"\n"@;
    lemma_config_concat("Authorization: Bearer "@, api_key);
    lemma_config_plain("Authorization: Bearer "@);
    config_values_read_back(value, end);
    let header = config_quoted(value) + seq!['"'] + end;
    assert("\"\ndata-binary = \"@-\"\n"@ =~= seq!['"'] + end);
    assert(config_text(api_key) =~= start + header);
    header
}

/// A transfer that succeeded comes to what the response says: whatever text the body is, with the
/// status that the transfer wrote after it. A cancelled run gets nothing of it, and a transfer that
/// failed gets what it wrote to its error output.
pub proof fn transfers_come_to_the_response(
    body: Seq<u8>,
    numeral: Seq<char>,
    stderr: Seq<u8>,
    parse: spec_fn(Seq<char>) -> Result<Json, Seq<char>>,
    accepts: spec_fn(Seq<char>) -> bool,
)
    requires
        valid_utf8(body),
        numeral.len() > 0,
        all_digits(numeral),
        digits_value(numeral) <= u16::MAX,
    ensures
        ({
            let output = body + seq![10u8] + encode_utf8(numeral);
            &&& transfer_outcome(false, true, output, stderr, parse, accepts) == response_outcome(
                body,
                digits_value(numeral) as u16,
                parse,
                accepts,
            )
            &&& transfer_outcome(true, true, output, stderr, parse, accepts) is Err
            &&& transfer_outcome(false, false, output, stderr, parse, accepts) == Err::<
                (Seq<StreamEvent>, Usage),
                Seq<char>,
            >(
                "OpenRouter transport failed before a provider response: "@ + trimmed(
                    lossy_text(stderr),
                ),
            )
        }),
{
    transfer_output_reads_back(body, numeral);
}

/// A turn without a completion is a stream of one event: the error, or the end of a cancelled run.
pub proof fn failed_turns_say_why(
    completion: Result<(Seq<StreamEvent>, Usage), Seq<char>>,
    message: Seq<char>,
)
    ensures
        turn_events(Err(message), false) == seq![StreamEvent::Error(message)],
        turn_events(completion, true) == seq![StreamEvent::End(StopReason::Cancelled)],
{
}

/// The usage of a completion counts once, and nothing else counts: a turn that failed or was cancelled
/// leaves the totals as they are.
pub proof fn only_completions_count(
    totals: UsageTotals,
    events: Seq<StreamEvent>,
    usage: Usage,
    completion: Result<(Seq<StreamEvent>, Usage), Seq<char>>,
    message: Seq<char>,
)
    ensures
        totals_after(totals.totals, completion, true) == totals.totals,
        totals_after(totals.totals, Err(message), false) == totals.totals,
        totals_after(totals.totals, Ok((events, usage)), false) == usage_sum(totals.totals, usage),
{
}

/// An output without a status is refused: one without a line break, and one that ends with a line that
/// is no numeral or too large a one.
pub proof fn outputs_without_a_status_are_refused(body: Seq<u8>, numeral: Seq<char>)
    ensures
        !body.contains(10u8) ==> transfer_output(body) is Err,
        !valid_utf8(body) ==> transfer_output(body) is Err,
        valid_utf8(body) && numeral.len() > 0 && all_digits(numeral) && digits_value(numeral)
            > u16::MAX ==> transfer_output(body + seq![10u8] + encode_utf8(numeral)) is Err,
{
    if !body.contains(10u8) {
        lemma_no_line_break(body);
    }
    if valid_utf8(body) && numeral.len() > 0 && all_digits(numeral) && digits_value(numeral)
        > u16::MAX {
        let tail = encode_utf8(numeral);
        let whole = body + seq![10u8] + tail;
        assert(is_ascii_chars(numeral));
        is_ascii_chars_encode_utf8(numeral);
        assert forall|i: int| 0 <= i < tail.len() implies #[trigger] tail[i] != 10 by {
            assert(numeral[i] as u8 == tail[i]);
            assert('0' <= numeral[i] <= '9');
        }
        lemma_last_line_break_after(body, tail);
        encode_utf8_decode_utf8(numeral);
        assert(whole.skip(body.len() as int + 1) =~= tail);
        assert('0' <= numeral[0] <= '9');
        assert('0' <= numeral[numeral.len() - 1] <= '9');
        trimmed_is_unchanged(numeral);
    }
}

proof fn lemma_no_line_break(bytes: Seq<u8>)
    requires
        !bytes.contains(10u8),
    ensures
        last_line_break(bytes) is None,
    decreases bytes.len(),
{
    if bytes.len() > 0 {
        let shorter = bytes.drop_last();
        assert(bytes.contains(bytes.last()));
        assert(!shorter.contains(10u8)) by {
            assert forall|i: int| 0 <= i < shorter.len() implies #[trigger] shorter[i] != 10u8 by {
                assert(bytes.contains(bytes[i]));
            }
        }
        lemma_no_line_break(shorter);
    }
}

}
