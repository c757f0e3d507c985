//! Chat completions as OpenRouter answers them.
use crate::json::{opt_json_ref, parses, values_view, Json, JsonNumber, JsonObject, JsonValue};
use crate::messages::{AssistantToolCall, StopReason};
use crate::results::SerializedJson;
use crate::text::{
    debug_text, decimal, decimal_text, decode_strict, has_text, occurs_at, quote_debug, same_text,
    with_message,
};
use crate::usage::Usage;
use vstd::prelude::*;
use vstd::string::*;
use vstd::utf8::*;

verus! {

/// One event of a model stream.
#[derive(Clone, Debug, PartialEq, Eq)]
pub enum ModelStreamEvent {
    TextDelta(String),
    ToolCall(AssistantToolCall),
    Usage(Usage),
    End(StopReason),
    Error { message: String },
}

/// The content of a [`ModelStreamEvent`].
#[verifier::ext_equal]
pub enum StreamEvent {
    Text(Seq<char>),
    Call(CallText),
    Usage(Usage),
    End(StopReason),
    Error(Seq<char>),
}

/// The content of an [`AssistantToolCall`].
#[verifier::ext_equal]
pub struct CallText {
    pub id: Seq<char>,
    pub name: Seq<char>,
    pub arguments: Seq<char>,
}

impl ModelStreamEvent {
    /// The content of the event.
    pub open spec fn view(&self) -> StreamEvent {
        match self {
            ModelStreamEvent::TextDelta(text) => StreamEvent::Text(text@),
            ModelStreamEvent::ToolCall(call) => StreamEvent::Call(
                CallText { id: call.id@, name: call.name@, arguments: call.arguments.text@ },
            ),
            ModelStreamEvent::Usage(usage) => StreamEvent::Usage(*usage),
            ModelStreamEvent::End(reason) => StreamEvent::End(*reason),
            ModelStreamEvent::Error { message } => StreamEvent::Error(message@),
        }
    }
}

/// The contents of a list of events.
pub open spec fn events_view(events: Seq<ModelStreamEvent>) -> Seq<StreamEvent> {
    events.map_values(|event: ModelStreamEvent| event@)
}

// ---------------------------------------------------------------------------------------------
// Outside verdicts
// ---------------------------------------------------------------------------------------------
/// Whether a closure computes the given predicate on texts.
pub open spec fn decides<A: Fn(&str) -> bool>(
    accept: A,
    meaning: spec_fn(Seq<char>) -> bool,
) -> bool {
    forall|text: &str, r: bool| #[trigger] call_ensures(accept, (text,), r) ==> r == meaning(text@)
}

// ---------------------------------------------------------------------------------------------
// Fields of a response
// ---------------------------------------------------------------------------------------------
/// The fields of an object.
pub open spec fn object_of(value: Json, description: Seq<char>) -> Result<
    Map<Seq<char>, Json>,
    Seq<char>,
> {
    match value {
        Json::Object(fields) => Ok(fields),
        _ => Err(description + " was not a JSON object"@),
    }
}

/// The fields of the object that a field of an object holds.
pub open spec fn object_field_of(value: Json, name: Seq<char>) -> Result<
    Map<Seq<char>, Json>,
    Seq<char>,
> {
    match value {
        Json::Object(fields) => if fields.contains_key(name) {
            object_of(fields[name], name)
        } else {
            Err("OpenRouter response omitted "@ + debug_text(name))
        },
        _ => Err("OpenRouter JSON value was not a JSON object"@),
    }
}

/// The items of the array that a field of an object holds.
pub open spec fn array_field_of(value: Json, name: Seq<char>) -> Result<Seq<Json>, Seq<char>> {
    match value {
        Json::Object(fields) => if fields.contains_key(name) {
            match fields[name] {
                Json::Array(items) => Ok(items),
                _ => Err(
                    "OpenRouter response field "@ + debug_text(name) + " was not an array"@,
                ),
            }
        } else {
            Err("OpenRouter response omitted "@ + debug_text(name))
        },
        _ => Err("OpenRouter JSON value was not a JSON object"@),
    }
}

/// The items of an array that may be absent or null.
pub open spec fn optional_array_of(value: Option<Json>) -> Result<Option<Seq<Json>>, Seq<char>> {
    match value {
        None => Ok(None),
        Some(Json::Null) => Ok(None),
        Some(Json::Array(items)) => Ok(Some(items)),
        Some(_) => Err("OpenRouter tool_calls was not an array"@),
    }
}

/// The text of a string that may be absent or null.
pub open spec fn optional_string_of(value: Option<Json>) -> Result<Option<Seq<char>>, Seq<char>> {
    match value {
        None => Ok(None),
        Some(Json::Null) => Ok(None),
        Some(Json::Text(text)) => Ok(Some(text)),
        Some(_) => Err("OpenRouter response field was not a string"@),
    }
}

/// The text of a string that must be there and not empty.
pub open spec fn required_string_of(value: Option<Json>, description: Seq<char>) -> Result<
    Seq<char>,
    Seq<char>,
> {
    match optional_string_of(value) {
        Err(message) => Err(message),
        Ok(Some(text)) => if text.len() > 0 {
            Ok(text)
        } else {
            Err(description + " was missing or empty"@)
        },
        Ok(None) => Err(description + " was missing or empty"@),
    }
}

/// The number that a field of a usage object holds, if any.
pub open spec fn number_field_of(value: Json, name: Seq<char>) -> Result<Option<u64>, Seq<char>> {
    match value {
        Json::Object(_) => match value.field(name) {
            None => Ok(None),
            Some(Json::Null) => Ok(None),
            Some(Json::Number(JsonNumber::Unsigned(n))) => Ok(Some(n)),
            Some(Json::Number(JsonNumber::Signed(n))) => if n >= 0 {
                Ok(Some(n as u64))
            } else {
                Err("OpenRouter usage field "@ + debug_text(name) + " was not a non-negative integer"@)
            },
            Some(_) => Err(
                "OpenRouter usage field "@ + debug_text(name) + " was not a non-negative integer"@,
            ),
        },
        _ => Err("OpenRouter usage was not a JSON object"@),
    }
}

/// The number of reasoning tokens of a usage object, if any.
pub open spec fn reasoning_tokens_of(usage: Json) -> Result<Option<u64>, Seq<char>> {
    match usage.field("completion_tokens_details"@) {
        None => Ok(None),
        Some(Json::Null) => Ok(None),
        Some(details) => number_field_of(details, "reasoning_tokens"@),
    }
}

/// The content of an object, or the message about it.
pub open spec fn object_result(r: Result<&JsonObject, String>) -> Result<
    Map<Seq<char>, Json>,
    Seq<char>,
> {
    match r {
        Ok(object) => Ok(object@),
        Err(message) => Err(message@),
    }
}

/// The contents of the items of an array, or the message about it.
pub open spec fn items_result(r: Result<&Vec<JsonValue>, String>) -> Result<Seq<Json>, Seq<char>> {
    match r {
        Ok(items) => Ok(values_view(items@)),
        Err(message) => Err(message@),
    }
}

/// The contents of the items of an array that may be absent, or the message about it.
pub open spec fn opt_items_result(r: Result<Option<&Vec<JsonValue>>, String>) -> Result<
    Option<Seq<Json>>,
    Seq<char>,
> {
    match r {
        Ok(Some(items)) => Ok(Some(values_view(items@))),
        Ok(None) => Ok(None),
        Err(message) => Err(message@),
    }
}

/// A text that may be absent, or the message about it.
pub open spec fn opt_str_result(r: Result<Option<&str>, String>) -> Result<
    Option<Seq<char>>,
    Seq<char>,
> {
    match r {
        Ok(Some(text)) => Ok(Some(text@)),
        Ok(None) => Ok(None),
        Err(message) => Err(message@),
    }
}

/// A text, or the message about it.
pub open spec fn str_result(r: Result<&str, String>) -> Result<Seq<char>, Seq<char>> {
    match r {
        Ok(text) => Ok(text@),
        Err(message) => Err(message@),
    }
}

/// Takes a value as an object.
pub fn as_object<'a>(value: &'a JsonValue, description: &str) -> (r: Result<
    &'a JsonObject,
    String,
>)
    ensures
        object_result(r) == object_of(value@, description@),
{
    match value {
        JsonValue::Object(object) => Ok(object),
        _ => {
            let mut message = String::new();
            message.append(description);
            message.append(" was not a JSON object");
            assert(message@ =~= description@ + " was not a JSON object"@);
            Err(message)
        },
    }
}

/// The message about a field that a response lacks.
fn omitted(name: &str) -> (r: String)
    ensures
        r@ == "OpenRouter response omitted "@ + debug_text(name@),
{
    let mut message = String::from_str("OpenRouter response omitted ");
    message.append(quote_debug(name).as_str());
    message
}

/// Takes the object that a field of an object holds.
pub fn object_field<'a>(value: &'a JsonValue, name: &str) -> (r: Result<&'a JsonObject, String>)
    ensures
        object_result(r) == object_field_of(value@, name@),
{
    match value {
        JsonValue::Object(object) => match object.get(name) {
            Some(field) => as_object(field, name),
            None => Err(omitted(name)),
        },
        _ => Err(String::from_str("OpenRouter JSON value was not a JSON object")),
    }
}

/// Takes the items of the array that a field of an object holds.
pub fn array_field<'a>(value: &'a JsonValue, name: &str) -> (r: Result<&'a Vec<JsonValue>, String>)
    ensures
        items_result(r) == array_field_of(value@, name@),
{
    match value {
        JsonValue::Object(object) => match object.get(name) {
            Some(JsonValue::Array(items)) => Ok(items),
            Some(_) => {
                let mut message = String::from_str("OpenRouter response field ");
                message.append(quote_debug(name).as_str());
                message.append(" was not an array");
                Err(message)
            },
            None => Err(omitted(name)),
        },
        _ => Err(String::from_str("OpenRouter JSON value was not a JSON object")),
    }
}

/// Takes the items of an array that may be absent or null.
pub fn optional_array<'a>(value: Option<&'a JsonValue>) -> (r: Result<
    Option<&'a Vec<JsonValue>>,
    String,
>)
    ensures
        opt_items_result(r) == optional_array_of(opt_json_ref(value)),
{
    match value {
        None => Ok(None),
        Some(JsonValue::Null) => Ok(None),
        Some(JsonValue::Array(items)) => Ok(Some(items)),
        Some(_) => Err(String::from_str("OpenRouter tool_calls was not an array")),
    }
}

/// Takes the text of a string that may be absent or null.
pub fn optional_string<'a>(value: Option<&'a JsonValue>) -> (r: Result<Option<&'a str>, String>)
    ensures
        opt_str_result(r) == optional_string_of(opt_json_ref(value)),
{
    match value {
        None => Ok(None),
        Some(JsonValue::Null) => Ok(None),
        Some(JsonValue::String(text)) => Ok(Some(text.as_str())),
        Some(_) => Err(String::from_str("OpenRouter response field was not a string")),
    }
}

/// Takes the text of a string that must be there and not empty.
pub fn required_string<'a>(value: Option<&'a JsonValue>, description: &str) -> (r: Result<
    &'a str,
    String,
>)
    ensures
        str_result(r) == required_string_of(opt_json_ref(value), description@),
{
    match optional_string(value) {
        Err(message) => return Err(message),
        Ok(Some(text)) => if !text.is_empty() {
            return Ok(text);
        },
        Ok(None) => {},
    }
    let mut message = String::new();
    message.append(description);
    message.append(" was missing or empty");
    assert(message@ =~= description@ + " was missing or empty"@);
    Err(message)
}

/// Takes the number that a field of a usage object holds.
pub fn number_field(value: &JsonValue, name: &str) -> (r: Result<Option<u64>, String>)
    ensures
        with_message(r) == number_field_of(value@, name@),
{
    let object = match as_object(value, "OpenRouter usage") {
        Ok(object) => object,
        Err(message) => {
            proof {
                reveal_strlit("OpenRouter usage");
                reveal_strlit(" was not a JSON object");
                reveal_strlit("OpenRouter usage was not a JSON object");
                assert("OpenRouter usage"@ + " was not a JSON object"@
                    =~= "OpenRouter usage was not a JSON object"@);
            }
            return Err(message);
        },
    };
    match object.get(name) {
        None => return Ok(None),
        Some(JsonValue::Null) => return Ok(None),
        Some(JsonValue::Number(JsonNumber::Unsigned(n))) => return Ok(Some(*n)),
        Some(JsonValue::Number(JsonNumber::Signed(n))) => if *n >= 0 {
            return Ok(Some(*n as u64));
        },
        Some(_) => {},
    }
    let mut message = String::from_str("OpenRouter usage field ");
    message.append(quote_debug(name).as_str());
    message.append(" was not a non-negative integer");
    Err(message)
}

/// Takes the number of reasoning tokens of a usage object.
pub fn get_completion_reasoning_tokens(usage: &JsonValue) -> (r: Result<Option<u64>, String>)
    ensures
        with_message(r) == reasoning_tokens_of(usage@),
{
    match usage.get("completion_tokens_details") {
        None => Ok(None),
        Some(JsonValue::Null) => Ok(None),
        Some(details) => number_field(details, "reasoning_tokens"),
    }
}

// ---------------------------------------------------------------------------------------------
// Refusals
// ---------------------------------------------------------------------------------------------
/// What a provider says about an error.
pub open spec fn provider_message(error: Json) -> Seq<char> {
    match error.field("message"@) {
        Some(Json::Text(text)) => text,
        _ => "OpenRouter rejected the request"@,
    }
}

/// What the user is told of an error of the provider. A model that is not found may be one that
/// the key is not allowed to use.
pub open spec fn rejection(error: Json, http_status: u16) -> Seq<char> {
    if http_status == 404 {
        "OpenRouter rejected the model with HTTP 404: "@ + provider_message(error)
            + ". This key may be restricted to Zero Data Retention models; select a model OpenRouter marks as Zero Data Retention compatible."@
    } else {
        "OpenRouter rejected the request with HTTP "@ + decimal_text(http_status as nat) + ": "@
            + provider_message(error)
    }
}

/// What the user is always told where the provider does not find the model.
pub open spec fn retention_hint() -> Seq<char> {
    "Zero Data Retention"@
}

/// The error that a response names; none is as good as an empty one.
pub open spec fn named_error(response: Json) -> Json {
    match response.field("error"@) {
        Some(error) => error,
        None => Json::Null,
    }
}

/// Describes an error of the provider.
pub fn openrouter_error(error: &JsonValue, http_status: u16) -> (r: String)
    ensures
        r@ == rejection(error@, http_status),
{
    let message = match error.get("message") {
        Some(JsonValue::String(text)) => text.as_str(),
        _ => "OpenRouter rejected the request",
    };
    if http_status == 404 {
        let mut out = String::from_str("OpenRouter rejected the model with HTTP 404: ");
        out.append(message);
        out.append(
            ". This key may be restricted to Zero Data Retention models; select a model OpenRouter marks as Zero Data Retention compatible.",
        );
        out
    } else {
        let mut out = String::from_str("OpenRouter rejected the request with HTTP ");
        out.append(decimal(http_status as u64).as_str());
        out.append(": ");
        out.append(message);
        out
    }
}

// ---------------------------------------------------------------------------------------------
// Tool calls
// ---------------------------------------------------------------------------------------------
/// The identifier of a tool call: its own, or one made from its place.
pub open spec fn call_id(own: Option<Seq<char>>, index: nat) -> Seq<char> {
    match own {
        Some(id) => if id.len() > 0 {
            id
        } else {
            "openrouter-call-"@ + decimal_text(index)
        },
        None => "openrouter-call-"@ + decimal_text(index),
    }
}

/// The event of a tool call in a completion. Which identifiers are acceptable is not decided
/// here.
pub open spec fn call_event(call: Json, index: nat, accepts: spec_fn(Seq<char>) -> bool) -> Result<
    StreamEvent,
    Seq<char>,
> {
    match object_of(call, "OpenRouter tool call"@) {
        Err(message) => Err(message),
        Ok(_) => match optional_string_of(call.field("id"@)) {
            Err(message) => Err(message),
            Ok(own) => match object_field_of(call, "function"@) {
                Err(message) => Err(message),
                Ok(function) => match required_string_of(
                    Json::Object(function).field("name"@),
                    "OpenRouter tool call name"@,
                ) {
                    Err(message) => Err(message),
                    Ok(name) => match required_string_of(
                        Json::Object(function).field("arguments"@),
                        "OpenRouter serialized tool arguments"@,
                    ) {
                        Err(message) => Err(message),
                        Ok(arguments) => if accepts(call_id(own, index)) {
                            Ok(
                                StreamEvent::Call(
                                    CallText { id: call_id(own, index), name, arguments },
                                ),
                            )
                        } else {
                            Err("OpenRouter tool call omitted its identifier"@)
                        },
                    },
                },
            },
        },
    }
}

/// The events of the tool calls of a completion, in order; the first call that is not sound
/// makes the completion unusable.
pub open spec fn call_events(
    calls: Seq<Json>,
    accepts: spec_fn(Seq<char>) -> bool,
) -> Result<Seq<StreamEvent>, Seq<char>>
    decreases calls.len(),
{
    if calls.len() == 0 {
        Ok(Seq::empty())
    } else {
        match call_events(calls.drop_last(), accepts) {
            Err(message) => Err(message),
            Ok(events) => match call_event(calls.last(), (calls.len() - 1) as nat, accepts) {
                Err(message) => Err(message),
                Ok(event) => Ok(events.push(event)),
            },
        }
    }
}

/// The content of an event, or the message about it.
pub open spec fn event_result(r: Result<ModelStreamEvent, String>) -> Result<
    StreamEvent,
    Seq<char>,
> {
    match r {
        Ok(event) => Ok(event@),
        Err(message) => Err(message@),
    }
}

/// Reads a tool call of a completion.
fn read_call<A: Fn(&str) -> bool>(call: &JsonValue, index: usize, accept_id: &A) -> (r: Result<
    ModelStreamEvent,
    String,
>)
    requires
        forall|text: &str| call_requires(*accept_id, (text,)),
    ensures
        forall|accepts: spec_fn(Seq<char>) -> bool| #[trigger]
            decides(*accept_id, accepts) ==> event_result(r) == call_event(
                call@,
                index as nat,
                accepts,
            ),
{
    let object = match as_object(call, "OpenRouter tool call") {
        Ok(object) => object,
        Err(message) => return Err(message),
    };
    let own = match optional_string(object.get("id")) {
        Ok(own) => own,
        Err(message) => return Err(message),
    };
    let function = match object_field(call, "function") {
        Ok(function) => function,
        Err(message) => return Err(message),
    };
    let name = match required_string(function.get("name"), "OpenRouter tool call name") {
        Ok(name) => name,
        Err(message) => return Err(message),
    };
    let arguments = match required_string(
        function.get("arguments"),
        "OpenRouter serialized tool arguments",
    ) {
        Ok(arguments) => arguments,
        Err(message) => return Err(message),
    };
    let mut id = String::from_str("openrouter-call-");
    match own {
        Some(text) if !text.is_empty() => {
            id = text.to_owned();
        },
        _ => {
            id.append(decimal(index as u64).as_str());
        },
    }
    if !accept_id(id.as_str()) {
        return Err(String::from_str("OpenRouter tool call omitted its identifier"));
    }
    Ok(
        ModelStreamEvent::ToolCall(
            AssistantToolCall {
                id,
                name: name.to_owned(),
                arguments: SerializedJson::new(arguments),
            },
        ),
    )
}

proof fn lemma_call_error(calls: Seq<Json>, n: int, accepts: spec_fn(Seq<char>) -> bool)
    requires
        0 <= n <= calls.len(),
        call_events(calls.take(n), accepts) is Err,
    ensures
        call_events(calls, accepts) == call_events(calls.take(n), accepts),
    decreases calls.len(),
{
    if n < calls.len() {
        assert(calls.drop_last().take(n) =~= calls.take(n));
        lemma_call_error(calls.drop_last(), n, accepts);
    } else {
        assert(calls.take(n) =~= calls);
    }
}

/// The contents of a list of events, or the message about it.
pub open spec fn events_result(r: Result<Vec<ModelStreamEvent>, String>) -> Result<
    Seq<StreamEvent>,
    Seq<char>,
> {
    match r {
        Ok(events) => Ok(events_view(events@)),
        Err(message) => Err(message@),
    }
}

/// Reads the tool calls of a completion.
fn read_calls<A: Fn(&str) -> bool>(calls: &Vec<JsonValue>, accept_id: &A) -> (r: Result<
    Vec<ModelStreamEvent>,
    String,
>)
    requires
        forall|text: &str| call_requires(*accept_id, (text,)),
    ensures
        forall|accepts: spec_fn(Seq<char>) -> bool| #[trigger]
            decides(*accept_id, accepts) ==> events_result(r) == call_events(
                values_view(calls@),
                accepts,
            ),
        r matches Ok(events) ==> events@.len() == calls@.len(),
{
    let ghost all = values_view(calls@);
    let mut events: Vec<ModelStreamEvent> = Vec::new();
    let mut i: usize = 0;
    assert(all.take(0) =~= Seq::<Json>::empty());
    assert(events_view(events@) =~= Seq::<StreamEvent>::empty());
    while i < calls.len()
        invariant
            forall|text: &str| call_requires(*accept_id, (text,)),
            i <= calls@.len(),
            all == values_view(calls@),
            events@.len() == i,
            forall|accepts: spec_fn(Seq<char>) -> bool| #[trigger]
                decides(*accept_id, accepts) ==> call_events(all.take(i as int), accepts) == Ok::<
                    Seq<StreamEvent>,
                    Seq<char>,
                >(events_view(events@)),
        decreases calls@.len() - i,
    {
        proof {
            assert(all.take(i + 1).drop_last() =~= all.take(i as int));
            assert(all.take(i + 1).last() == calls@[i as int]@);
        }
        match read_call(&calls[i], i, accept_id) {
            Ok(event) => {
                let ghost before = events@;
                events.push(event);
                assert(events_view(events@) =~= events_view(before).push(event@));
            },
            Err(message) => {
                proof {
                    assert forall|accepts: spec_fn(Seq<char>) -> bool| #[trigger]
                        decides(*accept_id, accepts) implies call_events(all, accepts) == Err::<
                        Seq<StreamEvent>,
                        Seq<char>,
                    >(message@) by {
                        lemma_call_error(all, i + 1, accepts);
                    }
                }
                return Err(message);
            },
        }
        i = i + 1;
    }
    assert(all.take(all.len() as int) =~= all);
    Ok(events)
}

// ---------------------------------------------------------------------------------------------
// Completions
// ---------------------------------------------------------------------------------------------
/// The text event of a completion: none where there is no text.
pub open spec fn text_events(content: Option<Seq<char>>) -> Seq<StreamEvent> {
    match content {
        Some(text) => if text.len() > 0 {
            seq![StreamEvent::Text(text)]
        } else {
            Seq::empty()
        },
        None => Seq::empty(),
    }
}

/// Why a turn ended: at the length limit where the provider says so, else for the tool calls
/// where there are any.
pub open spec fn stop_reason(finish_reason: Option<Seq<char>>, has_tool_calls: bool) -> StopReason {
    if finish_reason == Some("length"@) {
        StopReason::Length
    } else if has_tool_calls {
        StopReason::ToolUse
    } else {
        StopReason::EndTurn
    }
}

/// The calls that a completion holds; none where the field is absent or null.
pub open spec fn listed_calls(calls: Option<Seq<Json>>) -> Seq<Json> {
    match calls {
        Some(calls) => calls,
        None => Seq::empty(),
    }
}

/// The events of the choice that a completion consists of.
pub open spec fn choice_events(choice: Json, accepts: spec_fn(Seq<char>) -> bool) -> Result<
    Seq<StreamEvent>,
    Seq<char>,
> {
    match object_field_of(choice, "message"@) {
        Err(message) => Err(message),
        Ok(fields) => {
            let message = Json::Object(fields);
            match optional_string_of(message.field("content"@)) {
                Err(message) => Err(message),
                Ok(content) => match optional_array_of(message.field("tool_calls"@)) {
                    Err(message) => Err(message),
                    Ok(calls) => match call_events(listed_calls(calls), accepts) {
                        Err(message) => Err(message),
                        Ok(events) => match optional_string_of(choice.field("finish_reason"@)) {
                            Err(message) => Err(message),
                            Ok(finish_reason) => Ok(
                                (text_events(content) + events).push(
                                    StreamEvent::End(
                                        stop_reason(
                                            finish_reason,
                                            listed_calls(calls).len() > 0,
                                        ),
                                    ),
                                ),
                            ),
                        },
                    },
                },
            }
        },
    }
}

/// The usage that a response reports.
pub open spec fn reported_usage(usage: Option<Json>) -> Result<Usage, Seq<char>> {
    match usage {
        None => Ok(Usage { input_tokens: None, output_tokens: None, reasoning_tokens: None }),
        Some(usage) => match number_field_of(usage, "prompt_tokens"@) {
            Err(message) => Err(message),
            Ok(input_tokens) => match number_field_of(usage, "completion_tokens"@) {
                Err(message) => Err(message),
                Ok(output_tokens) => match reasoning_tokens_of(usage) {
                    Err(message) => Err(message),
                    Ok(reasoning_tokens) => Ok(
                        Usage { input_tokens, output_tokens, reasoning_tokens },
                    ),
                },
            },
        },
    }
}

/// What a JSON response comes to: the events and the usage of a completion, or the reason why
/// there is none. A model that is not found is always explained.
pub open spec fn completion_of(
    response: Json,
    http_status: u16,
    accepts: spec_fn(Seq<char>) -> bool,
) -> Result<(Seq<StreamEvent>, Usage), Seq<char>> {
    match response.field("error"@) {
        Some(error) => Err(rejection(error, http_status)),
        None => if http_status == 404 {
            Err(rejection(Json::Null, http_status))
        } else if !(200 <= http_status < 300) {
            Err(
                "OpenRouter returned HTTP "@ + decimal_text(http_status as nat)
                    + " without a completion"@,
            )
        } else {
            match array_field_of(response, "choices"@) {
                Err(message) => Err(message),
                Ok(choices) => if choices.len() == 0 {
                    Err("OpenRouter response did not contain a completion choice"@)
                } else {
                    match choice_events(choices[0], accepts) {
                        Err(message) => Err(message),
                        Ok(events) => match reported_usage(response.field("usage"@)) {
                            Err(message) => Err(message),
                            Ok(usage) => Ok((events, usage)),
                        },
                    }
                },
            }
        },
    }
}

/// The error that the bytes of a response name, as far as they can be read.
pub open spec fn body_error(
    bytes: Seq<u8>,
    parse: spec_fn(Seq<char>) -> Result<Json, Seq<char>>,
) -> Json {
    if valid_utf8(bytes) {
        match parse(decode_utf8(bytes)) {
            Ok(response) => named_error(response),
            Err(_) => Json::Null,
        }
    } else {
        Json::Null
    }
}

/// What the bytes of a response come to. A model that is not found is always explained, whatever
/// the bytes are.
pub open spec fn response_outcome(
    bytes: Seq<u8>,
    http_status: u16,
    parse: spec_fn(Seq<char>) -> Result<Json, Seq<char>>,
    accepts: spec_fn(Seq<char>) -> bool,
) -> Result<(Seq<StreamEvent>, Usage), Seq<char>> {
    if http_status == 404 {
        Err(rejection(body_error(bytes, parse), http_status))
    } else if !valid_utf8(bytes) {
        Err("OpenRouter returned non-UTF-8 JSON"@)
    } else {
        match parse(decode_utf8(bytes)) {
            Err(_) => Err("OpenRouter returned a non-JSON response"@),
            Ok(response) => completion_of(response, http_status, accepts),
        }
    }
}

/// The content of a completion, or the message about it.
pub open spec fn completion_result(
    r: Result<(Vec<ModelStreamEvent>, Usage), String>,
) -> Result<(Seq<StreamEvent>, Usage), Seq<char>> {
    match r {
        Ok((events, usage)) => Ok((events_view(events@), usage)),
        Err(message) => Err(message@),
    }
}

/// Reads the choice that a completion consists of.
fn read_choice<A: Fn(&str) -> bool>(choice: &JsonValue, accept_id: &A) -> (r: Result<
    Vec<ModelStreamEvent>,
    String,
>)
    requires
        forall|text: &str| call_requires(*accept_id, (text,)),
    ensures
        forall|accepts: spec_fn(Seq<char>) -> bool| #[trigger]
            decides(*accept_id, accepts) ==> events_result(r) == choice_events(choice@, accepts),
        r matches Ok(events) ==> events@.len() > 0,
{
    let message = match object_field(choice, "message") {
        Ok(message) => message,
        Err(message) => return Err(message),
    };
    let content = match optional_string(message.get("content")) {
        Ok(content) => content,
        Err(message) => return Err(message),
    };
    let calls = match optional_array(message.get("tool_calls")) {
        Ok(calls) => calls,
        Err(message) => return Err(message),
    };
    let mut events: Vec<ModelStreamEvent> = Vec::new();
    if let Some(text) = content {
        if !text.is_empty() {
            events.push(ModelStreamEvent::TextDelta(text.to_owned()));
        }
    }
    let ghost written = match content {
        Some(text) => Some(text@),
        None => None,
    };
    assert(events_view(events@) =~= text_events(written));
    let mut call_list: Vec<ModelStreamEvent> = Vec::new();
    assert(events_view(call_list@) =~= Seq::<StreamEvent>::empty());
    if let Some(calls) = calls {
        match read_calls(calls, accept_id) {
            Ok(list) => {
                call_list = list;
            },
            Err(message) => return Err(message),
        }
    }
    let has_tool_calls: bool = call_list.len() > 0;
    let finish_reason = match optional_string(choice.get("finish_reason")) {
        Ok(finish_reason) => finish_reason,
        Err(message) => return Err(message),
    };
    let cut_off = match finish_reason {
        Some(reason) => same_text(reason, "length"),
        None => false,
    };
    let reason = if cut_off {
        StopReason::Length
    } else if has_tool_calls {
        StopReason::ToolUse
    } else {
        StopReason::EndTurn
    };
    let ghost first = events@;
    let ghost then = call_list@;
    events.append(&mut call_list);
    events.push(ModelStreamEvent::End(reason));
    assert(events_view(events@) =~= (events_view(first) + events_view(then)).push(
        StreamEvent::End(reason),
    ));
    Ok(events)
}

/// Reads the usage that a response reports.
fn read_usage(usage: Option<&JsonValue>) -> (r: Result<Usage, String>)
    ensures
        with_message(r) == reported_usage(opt_json_ref(usage)),
{
    match usage {
        None => Ok(Usage { input_tokens: None, output_tokens: None, reasoning_tokens: None }),
        Some(usage) => {
            let input_tokens = match number_field(usage, "prompt_tokens") {
                Ok(number) => number,
                Err(message) => return Err(message),
            };
            let output_tokens = match number_field(usage, "completion_tokens") {
                Ok(number) => number,
                Err(message) => return Err(message),
            };
            let reasoning_tokens = match get_completion_reasoning_tokens(usage) {
                Ok(number) => number,
                Err(message) => return Err(message),
            };
            Ok(Usage { input_tokens, output_tokens, reasoning_tokens })
        },
    }
}

/// Reads a completion off a JSON response. `accept_id` says which tool call identifiers the
/// agent takes.
pub fn read_completion<A: Fn(&str) -> bool>(
    response: &JsonValue,
    http_status: u16,
    accept_id: &A,
) -> (r: Result<(Vec<ModelStreamEvent>, Usage), String>)
    requires
        forall|text: &str| call_requires(*accept_id, (text,)),
    ensures
        forall|accepts: spec_fn(Seq<char>) -> bool| #[trigger]
            decides(*accept_id, accepts) ==> completion_result(r) == completion_of(
                response@,
                http_status,
                accepts,
            ),
        r matches Ok((events, _)) ==> events@.len() > 0,
        http_status == 404 ==> (r matches Err(message) && has_text(message@, retention_hint())),
{
    proof {
        missing_models_are_explained(response@);
    }
    if let Some(error) = response.get("error") {
        return Err(openrouter_error(error, http_status));
    }
    if http_status == 404 {
        return Err(openrouter_error(&JsonValue::Null, http_status));
    }
    if !(200 <= http_status && http_status < 300) {
        let mut message = String::from_str("OpenRouter returned HTTP ");
        message.append(decimal(http_status as u64).as_str());
        message.append(" without a completion");
        return Err(message);
    }
    let choices = match array_field(response, "choices") {
        Ok(choices) => choices,
        Err(message) => return Err(message),
    };
    if choices.len() == 0 {
        return Err(String::from_str("OpenRouter response did not contain a completion choice"));
    }
    let events = match read_choice(&choices[0], accept_id) {
        Ok(events) => events,
        Err(message) => return Err(message),
    };
    match read_usage(response.get("usage")) {
        Ok(usage) => Ok((events, usage)),
        Err(message) => Err(message),
    }
}

/// Reads a completion off the bytes of a response. `parse` is the JSON parser; `accept_id` says
/// which tool call identifiers the agent takes.
pub fn parse_openrouter_response<
    P: Fn(&str) -> Result<JsonValue, String>,
    A: Fn(&str) -> bool,
>(bytes: &[u8], http_status: u16, parse: &P, accept_id: &A) -> (r: Result<
    (Vec<ModelStreamEvent>, Usage),
    String,
>)
    requires
        forall|text: &str| call_requires(*parse, (text,)),
        forall|text: &str| call_requires(*accept_id, (text,)),
    ensures
        forall|
            meaning: spec_fn(Seq<char>) -> Result<Json, Seq<char>>,
            accepts: spec_fn(Seq<char>) -> bool,
        |
            #[trigger] parses(*parse, meaning) && #[trigger] decides(*accept_id, accepts)
                ==> completion_result(r) == response_outcome(
                bytes@,
                http_status,
                meaning,
                accepts,
            ),
        r matches Ok((events, _)) ==> events@.len() > 0,
        http_status == 404 ==> (r matches Err(message) && has_text(message@, retention_hint())),
{
    proof {
        lemma_hint(Json::Null);
    }
    let text = match decode_strict(bytes) {
        Some(text) => text,
        None => {
            return Err(
                if http_status == 404 {
                    openrouter_error(&JsonValue::Null, http_status)
                } else {
                    String::from_str("OpenRouter returned non-UTF-8 JSON")
                },
            );
        },
    };
    match parse(text) {
        Ok(response) => read_completion(&response, http_status, accept_id),
        Err(_) => Err(
            if http_status == 404 {
                openrouter_error(&JsonValue::Null, http_status)
            } else {
                String::from_str("OpenRouter returned a non-JSON response")
            },
        ),
    }
}

// ---------------------------------------------------------------------------------------------
// Laws
// ---------------------------------------------------------------------------------------------
/// Whether an event is a tool call with an acceptable identifier, a name and arguments.
pub open spec fn sound_call(event: StreamEvent, accepts: spec_fn(Seq<char>) -> bool) -> bool {
    event matches StreamEvent::Call(call) && call.id.len() > 0 && accepts(call.id)
        && call.name.len() > 0 && call.arguments.len() > 0
}

proof fn lemma_call_events_are_calls(calls: Seq<Json>, accepts: spec_fn(Seq<char>) -> bool)
    requires
        call_events(calls, accepts) is Ok,
    ensures
        call_events(calls, accepts)->Ok_0.len() == calls.len(),
        forall|i: int|
            0 <= i < calls.len() ==> sound_call(
                #[trigger] call_events(calls, accepts)->Ok_0[i],
                accepts,
            ),
    decreases calls.len(),
{
    reveal_strlit("openrouter-call-");
    if calls.len() > 0 {
        lemma_call_events_are_calls(calls.drop_last(), accepts);
    }
}

/// A completion ends with its only end event; what comes before is its text, if any, and its
/// tool calls, each with an identifier, a name and arguments.
pub proof fn completions_are_well_formed(
    response: Json,
    http_status: u16,
    accepts: spec_fn(Seq<char>) -> bool,
)
    requires
        completion_of(response, http_status, accepts) is Ok,
    ensures
        ({
            let events = completion_of(response, http_status, accepts)->Ok_0.0;
            &&& events.len() > 0
            &&& events.last() is End
            &&& forall|i: int|
                #![trigger events[i]]
                0 <= i < events.len() - 1 ==> (sound_call(events[i], accepts) || (i == 0
                    && events[i] is Text))
        }),
{
    let choice = array_field_of(response, "choices"@)->Ok_0[0];
    let message = Json::Object(object_field_of(choice, "message"@)->Ok_0);
    let calls = listed_calls(optional_array_of(message.field("tool_calls"@))->Ok_0);
    lemma_call_events_are_calls(calls, accepts);
    let events = completion_of(response, http_status, accepts)->Ok_0.0;
    let listed = call_events(calls, accepts)->Ok_0;
    let text = text_events(optional_string_of(message.field("content"@))->Ok_0);
    assert forall|i: int|
        #![trigger events[i]]
        0 <= i < events.len() - 1 implies (sound_call(events[i], accepts) || (i == 0
        && events[i] is Text)) by {
        if i >= text.len() {
            assert(events[i] == listed[i - text.len()]);
        }
    }
}

/// A turn is said to have ended for tool calls only if the completion holds one, and a
/// completion with tool calls ends for them or at the length limit.
pub proof fn tool_use_means_tool_calls(
    response: Json,
    http_status: u16,
    accepts: spec_fn(Seq<char>) -> bool,
)
    requires
        completion_of(response, http_status, accepts) is Ok,
    ensures
        ({
            let events = completion_of(response, http_status, accepts)->Ok_0.0;
            let reason = events.last()->End_0;
            &&& reason == StopReason::ToolUse ==> exists|i: int|
                0 <= i < events.len() && #[trigger] events[i] is Call
            &&& forall|i: int|
                0 <= i < events.len() && (#[trigger] events[i] is Call) ==> reason
                    == StopReason::ToolUse || reason == StopReason::Length
        }),
{
    let choice = array_field_of(response, "choices"@)->Ok_0[0];
    let message = Json::Object(object_field_of(choice, "message"@)->Ok_0);
    let calls = listed_calls(optional_array_of(message.field("tool_calls"@))->Ok_0);
    lemma_call_events_are_calls(calls, accepts);
    let events = completion_of(response, http_status, accepts)->Ok_0.0;
    let listed = call_events(calls, accepts)->Ok_0;
    let text = text_events(optional_string_of(message.field("content"@))->Ok_0);
    if calls.len() > 0 {
        assert(events[text.len() as int] == listed[0]);
    } else {
        assert(listed.len() == 0);
    }
}

/// A response that names an error or has a status outside 200 to 299 is never a completion.
pub proof fn failures_are_never_completions(
    response: Json,
    http_status: u16,
    accepts: spec_fn(Seq<char>) -> bool,
)
    requires
        response.field("error"@) is Some || !(200 <= http_status < 300),
    ensures
        completion_of(response, http_status, accepts) is Err,
{
}

proof fn lemma_hint(error: Json)
    ensures
        has_text(rejection(error, 404), retention_hint()),
{
    let head = "OpenRouter rejected the model with HTTP 404: "@ + provider_message(error);
    reveal_strlit(
        ". This key may be restricted to Zero Data Retention models; select a model OpenRouter marks as Zero Data Retention compatible.",
    );
    reveal_strlit("Zero Data Retention");
    let at = head.len() + 32int;
    assert(rejection(error, 404).subrange(at, at + retention_hint().len()) =~= retention_hint());
    assert(occurs_at(rejection(error, 404), retention_hint(), at));
}

/// Where the provider does not find the model, the user is always told that the key may be
/// restricted to some models, whatever else the response says.
pub proof fn missing_models_are_explained(response: Json)
    ensures
        forall|accepts: spec_fn(Seq<char>) -> bool|
            completion_of(response, 404, accepts) == Err::<(Seq<StreamEvent>, Usage), Seq<char>>(
                rejection(named_error(response), 404),
            ),
        has_text(rejection(named_error(response), 404), retention_hint()),
{
    lemma_hint(named_error(response));
}

/// The same holds of a response whose body cannot be read at all.
pub proof fn missing_models_are_explained_without_a_body(
    bytes: Seq<u8>,
    parse: spec_fn(Seq<char>) -> Result<Json, Seq<char>>,
    accepts: spec_fn(Seq<char>) -> bool,
)
    ensures
        response_outcome(bytes, 404, parse, accepts) matches Err(message) && has_text(
            message,
            retention_hint(),
        ),
{
    lemma_hint(body_error(bytes, parse));
}

// ---------------------------------------------------------------------------------------------
// What a completion carries
// ---------------------------------------------------------------------------------------------
proof fn lemma_call_event_at(calls: Seq<Json>, accepts: spec_fn(Seq<char>) -> bool, i: int)
    requires
        call_events(calls, accepts) is Ok,
        0 <= i < calls.len(),
    ensures
        call_events(calls, accepts)->Ok_0.len() == calls.len(),
        call_event(calls[i], i as nat, accepts) == Ok::<StreamEvent, Seq<char>>(
            call_events(calls, accepts)->Ok_0[i],
        ),
    decreases calls.len(),
{
    lemma_call_events_are_calls(calls, accepts);
    if i < calls.len() - 1 {
        lemma_call_event_at(calls.drop_last(), accepts, i);
    }
}

/// A tool call is read off as the model wrote it: its name and its arguments are the very strings
/// of the entry, and so is its identifier where the entry has one. An entry without one gets an
/// identifier after its place.
pub proof fn tool_calls_are_read_as_written(
    call: Json,
    index: nat,
    accepts: spec_fn(Seq<char>) -> bool,
    read: CallText,
)
    requires
        call_event(call, index, accepts) == Ok::<StreamEvent, Seq<char>>(StreamEvent::Call(read)),
    ensures
        call.field("function"@) matches Some(function) && function.field("name"@) == Some(
            Json::Text(read.name),
        ) && function.field("arguments"@) == Some(Json::Text(read.arguments)),
        match call.field("id"@) {
            Some(Json::Text(id)) => read.id == (if id.len() > 0 {
                id
            } else {
                "openrouter-call-"@ + decimal_text(index)
            }),
            _ => read.id == "openrouter-call-"@ + decimal_text(index),
        },
{
}

/// A completion needs a status from 200 to 299, no error, and a first choice with a message.
pub proof fn completions_need_a_choice(
    response: Json,
    http_status: u16,
    accepts: spec_fn(Seq<char>) -> bool,
)
    requires
        completion_of(response, http_status, accepts) is Ok,
    ensures
        200 <= http_status < 300,
        response.field("error"@) is None,
        response.field("choices"@) matches Some(Json::Array(choices)) && choices.len() > 0
            && (choices[0].field("message"@) matches Some(message) && message is Object),
{
}

/// A completion carries what the first choice of the response says and nothing else: the text of
/// the message where there is any, then the tool calls of the message, one event each and in
/// order, and then its end.
pub proof fn completions_carry_the_first_choice(
    response: Json,
    http_status: u16,
    accepts: spec_fn(Seq<char>) -> bool,
    choices: Seq<Json>,
    message: Json,
    calls: Seq<Json>,
)
    requires
        completion_of(response, http_status, accepts) is Ok,
        response.field("choices"@) == Some(Json::Array(choices)),
        choices[0].field("message"@) == Some(message),
        match message.field("tool_calls"@) {
            Some(Json::Array(listed)) => calls == listed,
            _ => calls == Seq::<Json>::empty(),
        },
    ensures
        ({
            let events = completion_of(response, http_status, accepts)->Ok_0.0;
            let before = match message.field("content"@) {
                Some(Json::Text(text)) => if text.len() > 0 {
                    seq![StreamEvent::Text(text)]
                } else {
                    Seq::<StreamEvent>::empty()
                },
                _ => Seq::<StreamEvent>::empty(),
            };
            &&& before.is_prefix_of(events)
            &&& events.len() == before.len() + calls.len() + 1
            &&& forall|i: int|
                0 <= i < calls.len() ==> call_event(#[trigger] calls[i], i as nat, accepts) == Ok::<
                    StreamEvent,
                    Seq<char>,
                >(events[before.len() + i])
            &&& events.last() == StreamEvent::End(
                if choices[0].field("finish_reason"@) == Some(Json::Text("length"@)) {
                    StopReason::Length
                } else if calls.len() > 0 {
                    StopReason::ToolUse
                } else {
                    StopReason::EndTurn
                },
            )
        }),
{
    let listed = call_events(calls, accepts)->Ok_0;
    let text = text_events(optional_string_of(message.field("content"@))->Ok_0);
    let events = completion_of(response, http_status, accepts)->Ok_0.0;
    assert(calls == listed_calls(optional_array_of(message.field("tool_calls"@))->Ok_0));
    lemma_call_events_are_calls(calls, accepts);
    assert(text =~= events.subrange(0, text.len() as int));
    assert forall|i: int| 0 <= i < calls.len() implies call_event(
        #[trigger] calls[i],
        i as nat,
        accepts,
    ) == Ok::<StreamEvent, Seq<char>>(events[text.len() + i]) by {
        lemma_call_event_at(calls, accepts, i);
        assert(events[text.len() + i] == listed[i]);
    }
}

/// The i-th tool call event of a completion carries the very strings of the i-th entry of the
/// tool calls of the message: the name and the arguments of its function, and its identifier
/// where that is not empty.
pub proof fn tool_call_events_carry_the_entries(
    response: Json,
    http_status: u16,
    accepts: spec_fn(Seq<char>) -> bool,
    choices: Seq<Json>,
    message: Json,
    calls: Seq<Json>,
    i: int,
)
    requires
        completion_of(response, http_status, accepts) is Ok,
        response.field("choices"@) == Some(Json::Array(choices)),
        choices[0].field("message"@) == Some(message),
        message.field("tool_calls"@) == Some(Json::Array(calls)),
        0 <= i < calls.len(),
    ensures
        ({
            let events = completion_of(response, http_status, accepts)->Ok_0.0;
            let first = events.len() - 1 - calls.len();
            &&& 0 <= first <= 1
            &&& events[first + i] matches StreamEvent::Call(read) && (calls[i].field("function"@)
                matches Some(function) && function.field("name"@) == Some(Json::Text(read.name))
                && function.field("arguments"@) == Some(Json::Text(read.arguments))) && (
            calls[i].field("id"@) matches Some(Json::Text(id)) ==> (id.len() > 0 ==> read.id == id))
        }),
{
    completions_carry_the_first_choice(response, http_status, accepts, choices, message, calls);
    let events = completion_of(response, http_status, accepts)->Ok_0.0;
    let first = events.len() - 1 - calls.len();
    lemma_call_events_are_calls(calls, accepts);
    assert(call_event(calls[i], i as nat, accepts) == Ok::<StreamEvent, Seq<char>>(
        events[first + i],
    ));
    tool_calls_are_read_as_written(calls[i], i as nat, accepts, events[first + i]->Call_0);
}

/// A tool call with a name and arguments is read exactly if its identifier is acceptable.
pub proof fn sound_tool_calls_are_read(
    call: Json,
    index: nat,
    accepts: spec_fn(Seq<char>) -> bool,
    id: Seq<char>,
    name: Seq<char>,
    arguments: Seq<char>,
)
    requires
        call.field("function"@) matches Some(function) && function.field("name"@) == Some(
            Json::Text(name),
        ) && function.field("arguments"@) == Some(Json::Text(arguments)),
        name.len() > 0,
        arguments.len() > 0,
        match call.field("id"@) {
            None => id == "openrouter-call-"@ + decimal_text(index),
            Some(Json::Null) => id == "openrouter-call-"@ + decimal_text(index),
            Some(Json::Text(own)) => id == own && own.len() > 0,
            _ => false,
        },
    ensures
        accepts(id) ==> call_event(call, index, accepts) == Ok::<StreamEvent, Seq<char>>(
            StreamEvent::Call(CallText { id, name, arguments }),
        ),
        !accepts(id) ==> call_event(call, index, accepts) is Err,
{
}

proof fn lemma_sound_calls(calls: Seq<Json>, accepts: spec_fn(Seq<char>) -> bool)
    requires
        forall|i: int|
            0 <= i < calls.len() ==> call_event(#[trigger] calls[i], i as nat, accepts) is Ok,
    ensures
        call_events(calls, accepts) is Ok,
    decreases calls.len(),
{
    if calls.len() > 0 {
        let shorter = calls.drop_last();
        assert forall|i: int| 0 <= i < shorter.len() implies call_event(
            #[trigger] shorter[i],
            i as nat,
            accepts,
        ) is Ok by {
            assert(call_event(calls[i], i as nat, accepts) is Ok);
        }
        lemma_sound_calls(shorter, accepts);
        assert(call_event(calls[calls.len() - 1], (calls.len() - 1) as nat, accepts) is Ok);
    }
}

/// A response with a status from 200 to 299, without an error, whose first choice has a message
/// is a completion: its content and its finish reason may be absent, null or strings, its tool
/// calls may be absent or sound, and its usage may be absent.
pub proof fn sound_responses_are_completions(
    response: Json,
    http_status: u16,
    accepts: spec_fn(Seq<char>) -> bool,
    choices: Seq<Json>,
    message: Json,
    calls: Seq<Json>,
)
    requires
        200 <= http_status < 300,
        response.field("error"@) is None,
        response.field("choices"@) == Some(Json::Array(choices)),
        choices.len() > 0,
        choices[0].field("message"@) == Some(message),
        message is Object,
        match message.field("content"@) {
            None => true,
            Some(Json::Null) => true,
            Some(Json::Text(_)) => true,
            _ => false,
        },
        match choices[0].field("finish_reason"@) {
            None => true,
            Some(Json::Null) => true,
            Some(Json::Text(_)) => true,
            _ => false,
        },
        match message.field("tool_calls"@) {
            None => true,
            Some(Json::Null) => true,
            Some(Json::Array(listed)) => listed == calls,
            _ => false,
        },
        forall|i: int|
            0 <= i < calls.len() ==> call_event(#[trigger] calls[i], i as nat, accepts) is Ok,
        response.field("usage"@) matches Some(usage) ==> reported_usage(Some(usage)) is Ok,
    ensures
        completion_of(response, http_status, accepts) is Ok,
{
    lemma_sound_calls(calls, accepts);
    lemma_sound_calls(Seq::empty(), accepts);
}

/// The usage of a completion is what the response reports: each number is that of its own field,
/// and a field that is absent or null reports nothing.
pub proof fn usage_is_read_as_reported(
    response: Json,
    http_status: u16,
    accepts: spec_fn(Seq<char>) -> bool,
    usage: Json,
)
    requires
        completion_of(response, http_status, accepts) is Ok,
        response.field("usage"@) == Some(usage),
    ensures
        ({
            let read = completion_of(response, http_status, accepts)->Ok_0.1;
            &&& reports(usage.field("prompt_tokens"@), read.input_tokens)
            &&& reports(usage.field("completion_tokens"@), read.output_tokens)
            &&& (usage.field("completion_tokens_details"@) matches Some(details) ==> (details
                != Json::Null ==> reports(
                details.field("reasoning_tokens"@),
                read.reasoning_tokens,
            )))
            &&& usage.field("completion_tokens_details"@) is None || usage.field(
                "completion_tokens_details"@,
            ) == Some(Json::Null) ==> read.reasoning_tokens is None
        }),
{
}

/// Whether a field reports a number of tokens, or none.
pub open spec fn reports(field: Option<Json>, tokens: Option<u64>) -> bool {
    match tokens {
        Some(n) => field == Some(Json::Number(JsonNumber::Unsigned(n))) || (field matches Some(
            Json::Number(JsonNumber::Signed(m)),
        ) && m == n),
        None => field is None || field == Some(Json::Null),
    }
}

/// Numbers of tokens that are not negative are accepted, and so are those that are absent.
pub proof fn sound_usage_is_accepted(usage: Json, input: u64, output: u64, reasoning: u64)
    requires
        usage.field("prompt_tokens"@) == Some(Json::Number(JsonNumber::Unsigned(input))),
        usage.field("completion_tokens"@) == Some(Json::Number(JsonNumber::Unsigned(output))),
        usage.field("completion_tokens_details"@) matches Some(details) ==> details.field(
            "reasoning_tokens"@,
        ) == Some(Json::Number(JsonNumber::Unsigned(reasoning))),
    ensures
        reported_usage(None) is Ok,
        reported_usage(Some(usage)) matches Ok(read) && read.input_tokens == Some(input)
            && read.output_tokens == Some(output) && (usage.field("completion_tokens_details"@)
            is Some ==> read.reasoning_tokens == Some(reasoning)),
{
}

/// The user is told what the provider said about a refusal, and its status.
pub proof fn refusals_say_what_the_provider_said(
    response: Json,
    http_status: u16,
    accepts: spec_fn(Seq<char>) -> bool,
    error: Json,
    said: Seq<char>,
)
    requires
        response.field("error"@) == Some(error),
        error.field("message"@) == Some(Json::Text(said)),
    ensures
        completion_of(response, http_status, accepts) matches Err(message) && has_text(message, said)
            && has_text(message, "HTTP "@ + decimal_text(http_status as nat) + ": "@ + said),
{
    reveal_strlit("OpenRouter rejected the model with HTTP 404: ");
    reveal_strlit("OpenRouter rejected the request with HTTP ");
    reveal_strlit("HTTP ");
    reveal_strlit(": ");
    let told = rejection(error, http_status);
    let needle = "HTTP "@ + decimal_text(http_status as nat) + ": "@ + said;
    let at = if http_status == 404 {
        35int
    } else {
        37int
    };
    if http_status == 404 {
        reveal_with_fuel(decimal_text, 4);
        assert(decimal_text(404) =~= seq!['4', '0', '4']);
    }
    assert(told.subrange(at, at + needle.len()) =~= needle);
    assert(occurs_at(told, needle, at));
    let later = at + needle.len() - said.len();
    assert(told.subrange(later, later + said.len()) =~= said);
    assert(occurs_at(told, said, later));
}

/// The bytes of a response other than 404 come to what the JSON that they hold comes to.
pub proof fn responses_are_read_from_their_bytes(
    bytes: Seq<u8>,
    http_status: u16,
    parse: spec_fn(Seq<char>) -> Result<Json, Seq<char>>,
    accepts: spec_fn(Seq<char>) -> bool,
    response: Json,
)
    requires
        valid_utf8(bytes),
        parse(decode_utf8(bytes)) == Ok::<Json, Seq<char>>(response),
    ensures
        response_outcome(bytes, http_status, parse, accepts) == completion_of(
            response,
            http_status,
            accepts,
        ),
{
}

/// Bytes that are no text, and a text that is no JSON, are never a completion.
pub proof fn unreadable_responses_are_no_completions(
    bytes: Seq<u8>,
    http_status: u16,
    parse: spec_fn(Seq<char>) -> Result<Json, Seq<char>>,
    accepts: spec_fn(Seq<char>) -> bool,
)
    requires
        !valid_utf8(bytes) || parse(decode_utf8(bytes)) is Err,
    ensures
        response_outcome(bytes, http_status, parse, accepts) is Err,
{
}

/// A number of tokens is read off a field whether it comes as an unsigned or as a signed number; a
/// negative one, and anything that is no whole number, is refused.
pub proof fn token_counts_are_read(value: Json, name: Seq<char>, n: u64, m: i64, other: Json)
    requires
        value is Object,
    ensures
        value.field(name) == Some(Json::Number(JsonNumber::Unsigned(n))) ==> number_field_of(
            value,
            name,
        ) == Ok::<Option<u64>, Seq<char>>(Some(n)),
        m >= 0 && value.field(name) == Some(Json::Number(JsonNumber::Signed(m)))
            ==> number_field_of(value, name) == Ok::<Option<u64>, Seq<char>>(Some(m as u64)),
        m < 0 && value.field(name) == Some(Json::Number(JsonNumber::Signed(m))) ==> number_field_of(
            value,
            name,
        ) is Err,
        value.field(name) is None || value.field(name) == Some(Json::Null) ==> number_field_of(
            value,
            name,
        ) == Ok::<Option<u64>, Seq<char>>(None),
        value.field(name) == Some(other) && !(other is Number) && other != Json::Null
            ==> number_field_of(value, name) is Err,
{
}

/// A response that is not sound is no completion: one without choices, one whose first choice has
/// no message, and one whose content or finish reason is no string.
pub proof fn unsound_responses_are_refused(
    response: Json,
    http_status: u16,
    accepts: spec_fn(Seq<char>) -> bool,
    choices: Seq<Json>,
    message: Json,
)
    ensures
        !(response.field("choices"@) matches Some(Json::Array(_))) ==> completion_of(
            response,
            http_status,
            accepts,
        ) is Err,
        response.field("choices"@) == Some(Json::Array(choices)) && choices.len() == 0
            ==> completion_of(response, http_status, accepts) is Err,
        response.field("choices"@) == Some(Json::Array(choices)) && choices.len() > 0
            && choices[0].field("message"@) is None ==> completion_of(response, http_status, accepts)
            is Err,
        response.field("choices"@) == Some(Json::Array(choices)) && choices.len() > 0
            && choices[0].field("message"@) == Some(message) && !(match message.field("content"@) {
            None => true,
            Some(Json::Null) => true,
            Some(Json::Text(_)) => true,
            _ => false,
        }) ==> completion_of(response, http_status, accepts) is Err,
        response.field("choices"@) == Some(Json::Array(choices)) && choices.len() > 0 && !(
        match choices[0].field("finish_reason"@) {
            None => true,
            Some(Json::Null) => true,
            Some(Json::Text(_)) => true,
            _ => false,
        }) ==> completion_of(response, http_status, accepts) is Err,
{
}

/// A tool call that is not sound is refused: one without a function, one whose name or arguments are no
/// strings or empty, and one whose identifier is neither a string nor absent nor null.
pub proof fn unsound_tool_calls_are_refused(
    call: Json,
    index: nat,
    accepts: spec_fn(Seq<char>) -> bool,
)
    ensures
        !(call.field("function"@) matches Some(Json::Object(_))) ==> call_event(call, index, accepts)
            is Err,
        !(call.field("function"@) matches Some(function) && (function.field("name"@) matches Some(
            Json::Text(name),
        ) && name.len() > 0)) ==> call_event(call, index, accepts) is Err,
        !(call.field("function"@) matches Some(function) && (function.field("arguments"@) matches Some(
            Json::Text(arguments),
        ) && arguments.len() > 0)) ==> call_event(call, index, accepts) is Err,
        !(match call.field("id"@) {
            None => true,
            Some(Json::Null) => true,
            Some(Json::Text(_)) => true,
            _ => false,
        }) ==> call_event(call, index, accepts) is Err,
{
}

/// A response whose tool calls are no list, or whose usage is no object or counts what is no number, is
/// no completion.
pub proof fn misshapen_responses_are_refused(
    response: Json,
    http_status: u16,
    accepts: spec_fn(Seq<char>) -> bool,
    choices: Seq<Json>,
    message: Json,
    usage: Json,
)
    ensures
        response.field("choices"@) == Some(Json::Array(choices)) && choices.len() > 0
            && choices[0].field("message"@) == Some(message) && !(match message.field(
            "tool_calls"@,
        ) {
            None => true,
            Some(Json::Null) => true,
            Some(Json::Array(_)) => true,
            _ => false,
        }) ==> completion_of(response, http_status, accepts) is Err,
        response.field("usage"@) == Some(usage) && !(usage is Object) ==> completion_of(
            response,
            http_status,
            accepts,
        ) is Err,
        response.field("usage"@) == Some(usage) && (usage.field("completion_tokens_details"@) matches Some(
            details,
        ) && !(details is Object) && details != Json::Null) ==> completion_of(
            response,
            http_status,
            accepts,
        ) is Err,
{
}

/// One tool call that is not sound makes the whole completion unusable.
pub proof fn one_unsound_tool_call_spoils_a_completion(
    response: Json,
    http_status: u16,
    accepts: spec_fn(Seq<char>) -> bool,
    choices: Seq<Json>,
    message: Json,
    calls: Seq<Json>,
    i: int,
)
    requires
        response.field("choices"@) == Some(Json::Array(choices)),
        choices.len() > 0,
        choices[0].field("message"@) == Some(message),
        message.field("tool_calls"@) == Some(Json::Array(calls)),
        0 <= i < calls.len(),
        call_event(calls[i], i as nat, accepts) is Err,
    ensures
        completion_of(response, http_status, accepts) is Err,
{
    if completion_of(response, http_status, accepts) is Ok {
        lemma_call_event_at(calls, accepts, i);
    }
}

}
