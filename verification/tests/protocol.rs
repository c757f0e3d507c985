//! JSON values, completions, the transport and the MCP session, with a small JSON codec.
use runebench_pi_agent::capability::{
    map_mcp_error, settle, CapabilityCall, CapabilityError, CapabilityRequest, McpOperation,
    RunebenchMcpCapability, Verdict,
};
use runebench_pi_agent::completion::{
    openrouter_error, parse_openrouter_response, ModelStreamEvent,
};
use runebench_pi_agent::json::{empty_object, JsonNumber, JsonObject, JsonValue};
use runebench_pi_agent::mcp::{
    capture_error, resources_list_result, resources_read_result, start_error, tools_call_result,
    McpClientConfig, McpError, Resource, ResourceList,
};
use runebench_pi_agent::messages::StopReason;
use runebench_pi_agent::process::{CaptureFailure, Launch};
use runebench_pi_agent::session::{
    Exchange, Handshake, HostEvent, McpClient, SessionState, MAX_MESSAGE_BYTES,
};
use runebench_pi_agent::transport::{
    cancelled_stream, complete, curl_config, openrouter_payload, response_stream,
    split_curl_status, ModelRequest, ToolDefinition,
};
use runebench_pi_agent::usage::{Usage, UsageTotals};
use std::path::Path;

// A JSON codec for the tests.

struct Reader {
    chars: Vec<char>,
    at: usize,
}

impl Reader {
    fn skip_space(&mut self) {
        while self.at < self.chars.len() && self.chars[self.at].is_ascii_whitespace() {
            self.at += 1;
        }
    }

    fn peek(&self) -> Result<char, String> {
        self.chars
            .get(self.at)
            .copied()
            .ok_or_else(|| "unexpected end".to_owned())
    }

    fn expect(&mut self, c: char) -> Result<(), String> {
        if self.peek()? == c {
            self.at += 1;
            Ok(())
        } else {
            Err(format!("expected {c} at {}", self.at))
        }
    }

    fn word(&mut self, word: &str, value: JsonValue) -> Result<JsonValue, String> {
        for c in word.chars() {
            self.expect(c)?;
        }
        Ok(value)
    }

    fn string(&mut self) -> Result<String, String> {
        self.expect('"')?;
        let mut out = String::new();
        loop {
            let c = self.peek()?;
            self.at += 1;
            match c {
                '"' => return Ok(out),
                '\\' => {
                    let escape = self.peek()?;
                    self.at += 1;
                    match escape {
                        'n' => out.push('\n'),
                        't' => out.push('\t'),
                        'r' => out.push('\r'),
                        '"' | '\\' | '/' => out.push(escape),
                        _ => return Err("unknown escape".to_owned()),
                    }
                }
                c => out.push(c),
            }
        }
    }

    fn number(&mut self) -> Result<JsonValue, String> {
        let start = self.at;
        while self.at < self.chars.len()
            && matches!(self.chars[self.at], '0'..='9' | '-' | '+' | '.' | 'e' | 'E')
        {
            self.at += 1;
        }
        let text: String = self.chars[start..self.at].iter().collect();
        if let Ok(n) = text.parse::<u64>() {
            Ok(JsonValue::Number(JsonNumber::Unsigned(n)))
        } else if let Ok(n) = text.parse::<i64>() {
            Ok(JsonValue::Number(JsonNumber::Signed(n)))
        } else {
            text.parse::<f64>()
                .map(|n| JsonValue::Number(JsonNumber::Float(n.to_bits())))
                .map_err(|_| "bad number".to_owned())
        }
    }

    fn value(&mut self) -> Result<JsonValue, String> {
        self.skip_space();
        match self.peek()? {
            'n' => self.word("null", JsonValue::Null),
            't' => self.word("true", JsonValue::Bool(true)),
            'f' => self.word("false", JsonValue::Bool(false)),
            '"' => self.string().map(JsonValue::String),
            '[' => {
                self.at += 1;
                let mut items = Vec::new();
                self.skip_space();
                while self.peek()? != ']' {
                    items.push(self.value()?);
                    self.skip_space();
                    if self.peek()? == ',' {
                        self.at += 1;
                    }
                }
                self.at += 1;
                Ok(JsonValue::Array(items))
            }
            '{' => {
                self.at += 1;
                let mut object = JsonObject::new();
                self.skip_space();
                while self.peek()? != '}' {
                    let name = self.string()?;
                    self.skip_space();
                    self.expect(':')?;
                    let value = self.value()?;
                    object.insert(name, value);
                    self.skip_space();
                    if self.peek()? == ',' {
                        self.at += 1;
                        self.skip_space();
                    }
                }
                self.at += 1;
                Ok(JsonValue::Object(object))
            }
            _ => self.number(),
        }
    }
}

fn parse(text: &str) -> Result<JsonValue, String> {
    let mut reader = Reader {
        chars: text.chars().collect(),
        at: 0,
    };
    let value = reader.value()?;
    reader.skip_space();
    if reader.at == reader.chars.len() {
        Ok(value)
    } else {
        Err("trailing characters".to_owned())
    }
}

fn encode(value: &JsonValue) -> Result<String, String> {
    Ok(match value {
        JsonValue::Null => "null".to_owned(),
        JsonValue::Bool(b) => b.to_string(),
        JsonValue::Number(JsonNumber::Unsigned(n)) => n.to_string(),
        JsonValue::Number(JsonNumber::Signed(n)) => n.to_string(),
        JsonValue::Number(JsonNumber::Float(bits)) => {
            let n = f64::from_bits(*bits);
            if n.is_nan() {
                return Err("not a number".to_owned());
            }
            n.to_string()
        }
        JsonValue::String(text) => runebench_pi_agent::quote::json_string(text),
        JsonValue::Array(items) => {
            let parts = items.iter().map(encode).collect::<Result<Vec<_>, _>>()?;
            format!("[{}]", parts.join(","))
        }
        JsonValue::Object(object) => {
            let mut parts = Vec::new();
            for (name, value) in object.entries() {
                parts.push(format!(
                    "{}:{}",
                    runebench_pi_agent::quote::json_string(name),
                    encode(value)?
                ));
            }
            format!("{{{}}}", parts.join(","))
        }
    })
}

fn json(text: &str) -> JsonValue {
    parse(text).expect("fixture JSON should parse")
}

fn as_str(value: Option<&JsonValue>) -> Option<&str> {
    match value {
        Some(JsonValue::String(text)) => Some(text),
        _ => None,
    }
}

fn as_f64(value: Option<&JsonValue>) -> Option<f64> {
    match value {
        Some(JsonValue::Number(JsonNumber::Unsigned(n))) => Some(*n as f64),
        Some(JsonValue::Number(JsonNumber::Signed(n))) => Some(*n as f64),
        Some(JsonValue::Number(JsonNumber::Float(bits))) => Some(f64::from_bits(*bits)),
        _ => None,
    }
}

fn not_a_number() -> JsonValue {
    JsonValue::Number(JsonNumber::Float(f64::NAN.to_bits()))
}

// JSON values.

#[test]
fn objects_keep_their_fields_in_order() {
    let mut object = JsonObject::new();
    object.insert("b".to_owned(), JsonValue::Bool(true));
    object.insert("a".to_owned(), JsonValue::Null);
    object.insert("b".to_owned(), JsonValue::Bool(false));
    object.insert("ab".to_owned(), JsonValue::Null);
    let names: Vec<&str> = object.entries().iter().map(|entry| entry.0.as_str()).collect();
    assert_eq!(names, vec!["a", "ab", "b"]);
    assert_eq!(object.get("b"), Some(&JsonValue::Bool(false)));
    assert_eq!(object.get("c"), None);
    assert_eq!(object.remove("ab"), Some(JsonValue::Null));
    assert_eq!(object.remove("ab"), None);
    assert_eq!(object.clone(), object);
    assert_eq!(JsonValue::Null.get("a"), None);
    assert_eq!(json(r#"{"x":1,"y":[2]}"#), json(r#"{ "y": [2], "x": 1 }"#));
}

// Completions.

fn response(text: &str, status: u16) -> Result<(Vec<ModelStreamEvent>, Usage), String> {
    parse_openrouter_response(text.as_bytes(), status, &parse, &|id: &str| !id.is_empty())
}

#[test]
fn parses_openrouter_tool_response_without_serde() {
    let response = br#"{
            "choices": [{
                "finish_reason": "tool_calls",
                "message": {"content": null, "tool_calls": [{
                    "id": "call_1",
                    "function": {"name": "execute_code", "arguments": "{\\\"bot_name\\\":\\\"agent\\\",\\\"code\\\":\\\"await bot.chopTree()\\\"}"}
                }]}
            }],
            "usage": {"prompt_tokens": 10, "completion_tokens": 20}
        }"#;
    let (events, usage) =
        parse_openrouter_response(response, 200, &parse, &|id: &str| !id.is_empty())
            .expect("response should parse");

    assert!(matches!(events[0], ModelStreamEvent::ToolCall(_)));
    assert!(matches!(events.last(), Some(ModelStreamEvent::End(_))));
    assert_eq!(usage.input_tokens, Some(10));
    assert_eq!(usage.output_tokens, Some(20));
}

#[test]
fn http_404_explains_zero_retention_key_restriction() {
    let error =
        parse(r#"{"message":"No endpoints found"}"#).expect("fixture JSON should parse");
    let message = openrouter_error(&error, 404);

    assert!(message.contains("Zero Data Retention"));
    assert!(message.contains("HTTP 404"));
}

#[test]
fn a_missing_model_is_explained_whatever_the_body_is() {
    for body in [&b"{}"[..], b"[]", b"nonsense", b"", b"\xff", b"{\"choices\":[]}"] {
        assert_eq!(
            parse_openrouter_response(body, 404, &parse, &|id: &str| !id.is_empty()),
            Err("OpenRouter rejected the model with HTTP 404: OpenRouter rejected the request. This key may be restricted to Zero Data Retention models; select a model OpenRouter marks as Zero Data Retention compatible.".to_owned())
        );
    }
    let message = response(r#"{"error":{"message":"No endpoints found"}}"#, 404).expect_err("404");
    assert!(message.contains("HTTP 404: No endpoints found. "));
    assert!(message.contains("Zero Data Retention"));
    let message = complete(
        false,
        true,
        b"\xff\xfe\n404",
        b"",
        &parse,
        &|id: &str| !id.is_empty(),
    )
    .expect_err("404");
    assert!(message.contains("Zero Data Retention"));
    assert_eq!(
        complete(false, true, b"\xff\n200", b"", &parse, &|id: &str| !id.is_empty()),
        Err("OpenRouter transport returned non-UTF-8 output".to_owned())
    );
}

#[test]
fn completions_are_read() {
    let (events, usage) = response(
        r#"{"choices":[{"finish_reason":"length","message":{"content":"hello"}}],
            "usage":{"prompt_tokens":1,"completion_tokens_details":{"reasoning_tokens":4}}}"#,
        201,
    )
    .expect("completion");
    assert_eq!(
        events,
        vec![
            ModelStreamEvent::TextDelta("hello".to_owned()),
            ModelStreamEvent::End(StopReason::Length)
        ]
    );
    assert_eq!(
        usage,
        Usage {
            input_tokens: Some(1),
            output_tokens: None,
            reasoning_tokens: Some(4)
        }
    );
    let (events, usage) = response(
        r#"{"choices":[{"message":{"content":"","tool_calls":[
            {"function":{"name":"list_bots","arguments":"{}"}},
            {"id":"","function":{"name":"list_bots","arguments":"{}"}}]}}]}"#,
        200,
    )
    .expect("completion");
    assert_eq!(events.len(), 3);
    match &events[1] {
        ModelStreamEvent::ToolCall(call) => {
            assert_eq!(call.id, "openrouter-call-1");
            assert_eq!(call.name, "list_bots");
            assert_eq!(call.arguments.as_str(), "{}");
        }
        other => panic!("{other:?}"),
    }
    assert_eq!(events[2], ModelStreamEvent::End(StopReason::ToolUse));
    assert_eq!(usage, Usage::default());
    let (events, _) = response(
        r#"{"choices":[{"finish_reason":"tool_calls","message":{}}]}"#,
        200,
    )
    .expect("completion");
    assert_eq!(events, vec![ModelStreamEvent::End(StopReason::EndTurn)]);
}

#[test]
fn bad_responses_are_refused() {
    let failures = [
        ("nonsense", 200, "OpenRouter returned a non-JSON response"),
        (
            r#"{"error":{"message":"no"}}"#,
            429,
            "OpenRouter rejected the request with HTTP 429: no",
        ),
        (
            r#"{"error":null}"#,
            200,
            "OpenRouter rejected the request with HTTP 200: OpenRouter rejected the request",
        ),
        ("{}", 500, "OpenRouter returned HTTP 500 without a completion"),
        ("{}", 200, "OpenRouter response omitted \"choices\""),
        ("[]", 200, "OpenRouter JSON value was not a JSON object"),
        (
            r#"{"choices":1}"#,
            200,
            "OpenRouter response field \"choices\" was not an array",
        ),
        (
            r#"{"choices":[]}"#,
            200,
            "OpenRouter response did not contain a completion choice",
        ),
        (
            r#"{"choices":[{}]}"#,
            200,
            "OpenRouter response omitted \"message\"",
        ),
        (
            r#"{"choices":[{"message":3}]}"#,
            200,
            "message was not a JSON object",
        ),
        (
            r#"{"choices":[{"message":{"content":3}}]}"#,
            200,
            "OpenRouter response field was not a string",
        ),
        (
            r#"{"choices":[{"message":{"tool_calls":3}}]}"#,
            200,
            "OpenRouter tool_calls was not an array",
        ),
        (
            r#"{"choices":[{"message":{"tool_calls":[3]}}]}"#,
            200,
            "OpenRouter tool call was not a JSON object",
        ),
        (
            r#"{"choices":[{"message":{"tool_calls":[{"function":{}}]}}]}"#,
            200,
            "OpenRouter tool call name was missing or empty",
        ),
        (
            r#"{"choices":[{"message":{"tool_calls":[{"function":{"name":"t"}}]}}]}"#,
            200,
            "OpenRouter serialized tool arguments was missing or empty",
        ),
        (
            r#"{"choices":[{"message":{}}],"usage":{"prompt_tokens":-1}}"#,
            200,
            "OpenRouter usage field \"prompt_tokens\" was not a non-negative integer",
        ),
        (
            r#"{"choices":[{"message":{}}],"usage":7}"#,
            200,
            "OpenRouter usage was not a JSON object",
        ),
    ];
    for (text, status, message) in failures {
        assert_eq!(response(text, status), Err(message.to_owned()), "{text}");
    }
    assert_eq!(
        parse_openrouter_response(&[0xff], 200, &parse, &|id: &str| !id.is_empty()),
        Err("OpenRouter returned non-UTF-8 JSON".to_owned())
    );
    assert_eq!(
        parse_openrouter_response(
            br#"{"choices":[{"message":{"tool_calls":[{"function":{"name":"t","arguments":"{}"}}]}}]}"#,
            200,
            &parse,
            &|_: &str| false
        ),
        Err("OpenRouter tool call omitted its identifier".to_owned())
    );
}

// The transport.

#[test]
fn requests_are_written() {
    let request = ModelRequest {
        system_prompt: "be \"kind\"".to_owned(),
        context: " [{\"role\":\"user\"}] ".to_owned(),
        tools: vec![ToolDefinition {
            name: "t".to_owned(),
            description: "d".to_owned(),
            schema: json(r#"{"type":"object"}"#),
        }],
    };
    assert_eq!(
        openrouter_payload("m", &request, &encode),
        Ok(r#"{"model":"m","messages":[{"role":"system","content":"be \"kind\""},{"role":"user"}],"temperature":0,"max_tokens":4096,"stream":false,"tools":[{"type":"function","function":{"name":"t","description":"d","parameters":{"type":"object"}}}]}"#.to_owned())
    );
    let empty = ModelRequest {
        system_prompt: "s".to_owned(),
        context: "[ ]".to_owned(),
        tools: Vec::new(),
    };
    assert_eq!(
        openrouter_payload("m", &empty, &encode),
        Ok(r#"{"model":"m","messages":[{"role":"system","content":"s"}],"temperature":0,"max_tokens":4096,"stream":false}"#.to_owned())
    );
    for context in ["", "[", "{}", "[1", "1]"] {
        let bad = ModelRequest {
            system_prompt: String::new(),
            context: context.to_owned(),
            tools: Vec::new(),
        };
        assert_eq!(
            openrouter_payload("m", &bad, &encode),
            Err("OpenAI conversion did not produce a JSON message array".to_owned())
        );
    }
    let unwritable = ModelRequest {
        system_prompt: String::new(),
        context: "[]".to_owned(),
        tools: vec![ToolDefinition {
            name: "t".to_owned(),
            description: "d".to_owned(),
            schema: not_a_number(),
        }],
    };
    assert_eq!(
        openrouter_payload("m", &unwritable, &encode),
        Err("cannot serialize tool schema: not a number".to_owned())
    );
}

#[test]
fn curl_config_quotes_the_provider_key() {
    let contents = curl_config("key\\\"quote").expect("config should be created");
    assert!(contents.contains("request = \"POST\""));
    assert!(contents.contains("Authorization: Bearer key\\\\\\\"quote"));
    assert_eq!(
        curl_config("k").expect("config"),
        "connect-timeout = 10\nmax-time = 90\nrequest = \"POST\"\nurl = \"https://openrouter.ai/api/v1/chat/completions\"\nheader = \"Content-Type: application/json\"\nheader = \"Authorization: Bearer k\"\ndata-binary = \"@-\"\n"
    );
    for key in ["a\nb", "a\rb"] {
        assert_eq!(
            curl_config(key),
            Err("OPENROUTER_API_KEY must not contain line breaks".to_owned())
        );
    }
}

#[test]
fn the_status_stands_after_the_last_line_break() {
    assert_eq!(split_curl_status(b"{\n}\n200"), Ok((&b"{\n}"[..], 200)));
    assert_eq!(split_curl_status("ä\n 404 ".as_bytes()), Ok(("ä".as_bytes(), 404)));
    assert_eq!(split_curl_status(b"\n+7"), Ok((&b""[..], 7)));
    assert_eq!(
        split_curl_status(b"200"),
        Err("OpenRouter transport did not report an HTTP status".to_owned())
    );
    assert_eq!(
        split_curl_status(b"x\n65536"),
        Err("OpenRouter transport reported an invalid HTTP status".to_owned())
    );
    assert_eq!(
        split_curl_status(&[0xff, 10, 50]),
        Err("OpenRouter transport returned non-UTF-8 output".to_owned())
    );
}

#[test]
fn transfers_come_to_an_end() {
    let accept = |id: &str| !id.is_empty();
    let body = b"{\"choices\":[{\"message\":{\"content\":\"hi\"}}]}\n200";
    assert_eq!(
        complete(true, true, body, b"", &parse, &accept),
        Err("OpenRouter transport cancelled".to_owned())
    );
    assert_eq!(
        complete(false, false, body, b" no route \xff\n", &parse, &accept),
        Err("OpenRouter transport failed before a provider response: no route \u{fffd}".to_owned())
    );
    let (events, _) = complete(false, true, body, b"", &parse, &accept).expect("completion");
    assert_eq!(events[0], ModelStreamEvent::TextDelta("hi".to_owned()));
    assert_eq!(
        complete(false, true, b"x", b"", &parse, &accept),
        Err("OpenRouter transport did not report an HTTP status".to_owned())
    );
}

#[test]
fn streams_report_the_usage_before_the_end() {
    let usage = Usage {
        input_tokens: Some(2),
        output_tokens: Some(3),
        reasoning_tokens: None,
    };
    let events = || {
        vec![
            ModelStreamEvent::TextDelta("x".to_owned()),
            ModelStreamEvent::End(StopReason::EndTurn),
        ]
    };
    let mut totals = UsageTotals::default();
    assert_eq!(
        response_stream(&mut totals, Ok((events(), usage)), false),
        vec![
            ModelStreamEvent::TextDelta("x".to_owned()),
            ModelStreamEvent::Usage(usage),
            ModelStreamEvent::End(StopReason::EndTurn)
        ]
    );
    assert_eq!(totals.snapshot().output_tokens, Some(3));
    assert_eq!(
        response_stream(&mut totals, Ok((events(), usage)), true),
        cancelled_stream()
    );
    assert_eq!(totals.snapshot().output_tokens, Some(3));
    assert_eq!(
        response_stream(&mut totals, Err("no".to_owned()), false),
        vec![ModelStreamEvent::Error {
            message: "no".to_owned()
        }]
    );
    assert_eq!(
        response_stream(&mut totals, Err("no".to_owned()), true),
        vec![ModelStreamEvent::End(StopReason::Cancelled)]
    );
}

// The MCP session.

/// A server that answers every request as soon as it is written.
struct Server {
    output: Vec<u8>,
    written: Vec<String>,
    answers: Vec<(&'static str, &'static str)>,
    terminated: bool,
}

impl Server {
    fn new(answers: &[(&'static str, &'static str)]) -> Self {
        Server {
            output: Vec::new(),
            written: Vec::new(),
            answers: answers.to_vec(),
            terminated: false,
        }
    }

    fn act(&mut self, exchange: &Exchange, cancelled: bool) -> HostEvent {
        match exchange {
            Exchange::Write { text, .. } => {
                for (method, answer) in &self.answers {
                    if text.contains(&format!("\"method\":\"{method}\"")) {
                        self.output.extend_from_slice(answer.as_bytes());
                        self.output.push(b'\n');
                    }
                }
                self.written.push(text.clone());
                HostEvent::Written
            }
            Exchange::Watch { .. } => HostEvent::Cancellation(cancelled),
            Exchange::Scan { .. } => HostEvent::Output(self.output.clone()),
            Exchange::Poll { .. } => HostEvent::Running,
            Exchange::Report { .. } => HostEvent::Stderr(None),
            Exchange::Pause { .. } => HostEvent::Slept,
            Exchange::Terminate => {
                self.terminated = true;
                HostEvent::Terminated
            }
            Exchange::Done(_) => unreachable!("the exchange is over"),
        }
    }

    fn run(&mut self, client: &mut McpClient, start: Exchange) -> Result<JsonValue, McpError> {
        let mut exchange = start;
        loop {
            exchange = match exchange {
                Exchange::Done(outcome) => return outcome.map(|reply| reply.expect("a reply")),
                exchange => {
                    let event = self.act(&exchange, false);
                    client.advance(exchange, event, &parse)
                }
            };
        }
    }

    fn connect(&mut self, client: &mut McpClient) -> Handshake {
        let mut handshake = client.initialize(false, &encode);
        loop {
            let event = match &handshake {
                Handshake::Introducing(exchange) => self.act(exchange, false),
                Handshake::Announcing(_, exchange) => self.act(exchange, false),
                Handshake::Confirming(_) => HostEvent::Cancellation(false),
                Handshake::Settled(_) => return handshake,
            };
            handshake = client.advance_handshake(handshake, event, &parse, &encode);
        }
    }
}

const INITIALIZED: (&str, &str) = (
    "initialize",
    r#"{"jsonrpc":"2.0","id":1,"result":{"protocolVersion":"2025-03-26","capabilities":{},"serverInfo":{"name":"fixture","version":"1"}}}"#,
);

#[test]
fn handshake_and_capability_calls_use_typed_results() {
    let mut server = Server::new(&[
        INITIALIZED,
        (
            "tools/call",
            r#"{"jsonrpc":"2.0","id":2,"result":{"content":[{"type":"text","text":"tool ok"}],"isError":false}}"#,
        ),
        (
            "resources/list",
            r#"{"jsonrpc":"2.0","id":3,"result":{"resources":[{"uri":"fixture://docs","name":"docs","mimeType":"text/plain"}]}}"#,
        ),
        (
            "resources/read",
            r#"{"jsonrpc":"2.0","id":4,"result":{"contents":[{"uri":"fixture://docs","mimeType":"text/plain","text":"resource ok"}]}}"#,
        ),
    ]);
    let mut client = McpClient::new();
    let introduction = match server.connect(&mut client) {
        Handshake::Settled(Ok(introduction)) => introduction,
        other => panic!("fixture MCP server should initialize: {other:?}"),
    };
    assert_eq!(introduction.protocol_version, "2025-03-26");
    assert_eq!(as_str(introduction.server_info.get("name")), Some("fixture"));
    assert!(client.state().initialized);

    let exchange = client.tools_call("execute_code", &empty_object(), false, &encode);
    let reply = server.run(&mut client, exchange).expect("tool call should succeed");
    let tool = tools_call_result(&reply).expect("tool call should succeed");
    assert_eq!(
        tool.content_text(&encode).expect("tool text should decode"),
        "tool ok"
    );
    assert!(!tool.is_error);
    let exchange = client.resources_list(false, &encode);
    let reply = server.run(&mut client, exchange).expect("resource list should succeed");
    let resources = resources_list_result(&reply).expect("resource list should succeed");
    assert_eq!(resources.resources[0].uri, "fixture://docs");
    let exchange = client.resources_read("fixture://docs", false, &encode);
    let reply = server.run(&mut client, exchange).expect("resource read should succeed");
    let resource = resources_read_result(&reply).expect("resource read should succeed");
    assert_eq!(
        resource
            .content_text(&encode)
            .expect("resource text should decode"),
        "resource ok"
    );
    assert_eq!(client.state().stdout_offset, server.output.len());
    assert_eq!(
        server.written,
        vec![
            "{\"id\":1,\"jsonrpc\":\"2.0\",\"method\":\"initialize\",\"params\":{\"capabilities\":{},\"clientInfo\":{\"name\":\"pi-agent-core-runebench\",\"version\":\"0.1.0\"},\"protocolVersion\":\"2025-03-26\"}}\n",
            "{\"jsonrpc\":\"2.0\",\"method\":\"notifications/initialized\",\"params\":{}}\n",
            "{\"id\":2,\"jsonrpc\":\"2.0\",\"method\":\"tools/call\",\"params\":{\"arguments\":{},\"name\":\"execute_code\"}}\n",
            "{\"id\":3,\"jsonrpc\":\"2.0\",\"method\":\"resources/list\",\"params\":{}}\n",
            "{\"id\":4,\"jsonrpc\":\"2.0\",\"method\":\"resources/read\",\"params\":{\"uri\":\"fixture://docs\"}}\n",
        ]
    );
}

#[test]
fn requests_before_the_handshake_are_refused() {
    let mut client = McpClient::new();
    assert_eq!(
        client.resources_list(false, &encode),
        Exchange::Done(Err(McpError::Protocol {
            message: "MCP request attempted before initialization".to_owned()
        }))
    );
    assert_eq!(client.state(), McpClient::new().state());
}

#[test]
fn a_bad_introduction_fails_the_handshake() {
    let answers = [
        (
            r#"{"id":1,"result":{}}"#,
            "MCP response omitted initialize.protocolVersion",
        ),
        (
            r#"{"id":1,"result":{"protocolVersion":1}}"#,
            "MCP response field was not a string",
        ),
        (
            r#"{"id":1}"#,
            "MCP response omitted both result and error",
        ),
        (
            r#"{"id":"1"}"#,
            "MCP response id was not an unsigned integer",
        ),
        (r#"{"id":7}"#, "MCP response id 7 did not match request 1"),
        ("{", "MCP response was not JSON: unexpected end"),
    ];
    for (answer, message) in answers {
        let mut server = Server::new(&[("initialize", answer)]);
        let mut client = McpClient::new();
        assert_eq!(
            server.connect(&mut client),
            Handshake::Settled(Err(McpError::Protocol {
                message: message.to_owned()
            }))
        );
        assert!(!client.state().initialized);
    }
}

#[test]
fn a_handshake_that_is_cancelled_does_not_open_the_session() {
    let mut server = Server::new(&[INITIALIZED]);
    let mut client = McpClient::new();
    let mut handshake = client.initialize(false, &encode);
    loop {
        let event = match &handshake {
            Handshake::Introducing(exchange) => server.act(exchange, false),
            Handshake::Announcing(_, exchange) => server.act(exchange, true),
            Handshake::Confirming(_) => HostEvent::Cancellation(true),
            Handshake::Settled(_) => break,
        };
        handshake = client.advance_handshake(handshake, event, &parse, &encode);
    }
    assert_eq!(handshake, Handshake::Settled(Err(McpError::Cancelled)));
    assert!(server.terminated);
    assert!(!client.state().initialized);
    assert_eq!(
        McpClient::new().initialize(true, &encode),
        Handshake::Introducing(Exchange::Terminate)
    );
}

/// A session after the handshake, with the output that the server has written so far.
fn open_client() -> (McpClient, Vec<u8>) {
    let mut server = Server::new(&[INITIALIZED]);
    let mut client = McpClient::new();
    assert!(matches!(
        server.connect(&mut client),
        Handshake::Settled(Ok(_))
    ));
    assert_eq!(
        client.state(),
        SessionState {
            stdout_offset: server.output.len(),
            next_id: 2,
            initialized: true
        }
    );
    (client, server.output)
}

trait UnclearIfShared<A> {
    fn unclear() -> bool {
        true
    }
}

impl<T> UnclearIfShared<()> for T {}
impl<T: Sync> UnclearIfShared<u8> for T {}

trait UnclearIfCopied<A> {
    fn unclear() -> bool {
        true
    }
}

impl<T> UnclearIfCopied<()> for T {}
impl<T: Clone> UnclearIfCopied<u8> for T {}

fn is_send<T: Send>() -> bool {
    true
}

/// This compiles only while a session can be neither copied nor shared.
#[test]
fn a_session_has_one_owner() {
    assert!(<McpClient as UnclearIfShared<_>>::unclear());
    assert!(<McpClient as UnclearIfCopied<_>>::unclear());
    assert!(is_send::<McpClient>());
}

#[test]
fn arguments_are_checked_before_anything_is_sent() {
    let (mut client, _) = open_client();
    let before = client.state();
    assert_eq!(
        client.tools_call("t", &JsonValue::Null, false, &encode),
        Exchange::Done(Err(McpError::InvalidArgument {
            message: "tools/call arguments must be a JSON object".to_owned()
        }))
    );
    assert_eq!(
        client.resources_read("", false, &encode),
        Exchange::Done(Err(McpError::InvalidArgument {
            message: "resources/read uri must not be empty".to_owned()
        }))
    );
    assert_eq!(client.resources_list(true, &encode), Exchange::Terminate);
    assert_eq!(client.state(), before);
    assert_eq!(
        client.request("m", not_a_number(), false, &encode),
        Exchange::Done(Err(McpError::Protocol {
            message: "cannot encode request: not a number".to_owned()
        }))
    );
    assert_eq!(client.state().next_id, 3);
}

#[test]
fn identifiers_grow() {
    let (mut client, _) = open_client();
    let first = client.request("m", JsonValue::Null, false, &encode);
    let second = client.request("m", JsonValue::Null, false, &encode);
    assert!(matches!(first, Exchange::Write { awaited: Some(2), .. }));
    assert!(matches!(second, Exchange::Write { awaited: Some(3), .. }));
}

#[test]
fn output_is_read_line_by_line() {
    let (mut client, mut output) = open_client();
    let start = output.len();
    output.extend_from_slice(b"\n  \n{\"method\":\"note\"}\n{\"id\":null}\n{\"id\":5,\"resu");
    assert_eq!(client.scan_responses(&output, 5, &parse), Ok(None));
    assert_eq!(client.state().stdout_offset, start + 34);
    output.extend_from_slice(b"lt\":\"yes\"}\n{\"id\":6,\"result\":1}\n");
    assert_eq!(
        client.scan_responses(&output, 5, &parse),
        Ok(Some(JsonValue::text("yes")))
    );
    assert_eq!(
        client.scan_responses(&output, 6, &parse),
        Ok(Some(JsonValue::Number(JsonNumber::Unsigned(1))))
    );
    assert_eq!(client.state().stdout_offset, output.len());
    assert_eq!(client.scan_responses(b"", 6, &parse), Ok(None));
    let (mut whole, _) = open_client();
    assert_eq!(
        whole.scan_responses(&output, 5, &parse),
        Ok(Some(JsonValue::text("yes")))
    );
}

#[test]
fn bad_output_is_refused() {
    let mut client = McpClient::new();
    assert_eq!(
        client.scan_responses(&[0xff, b'\n'], 5, &parse),
        Err(McpError::Protocol {
            message: "MCP response was not UTF-8".to_owned()
        })
    );
    assert_eq!(client.state().stdout_offset, 0);
    let large = vec![b' '; MAX_MESSAGE_BYTES + 1];
    assert_eq!(
        client.scan_responses(&large, 5, &parse),
        Err(McpError::Protocol {
            message: "MCP response exceeded 8388608 bytes".to_owned()
        })
    );
    assert_eq!(client.scan_responses(&large[1..], 5, &parse), Ok(None));
}

#[test]
fn server_errors_are_reported() {
    let errors = [
        (
            r#"{"id":5,"error":{"code":-32601,"message":"no","data":[1]}}"#,
            -32601,
            "no",
            true,
        ),
        (
            r#"{"id":5,"error":{"code":18446744073709551615}}"#,
            i64::MAX,
            "MCP server rejected the request",
            false,
        ),
        (
            r#"{"id":5,"error":{"code":3,"message":7}}"#,
            3,
            "MCP server rejected the request",
            false,
        ),
        (
            r#"{"id":5,"error":null,"result":1}"#,
            0,
            "MCP server rejected the request",
            false,
        ),
    ];
    for (line, code, message, has_data) in errors {
        let mut client = McpClient::new();
        let output = format!("{line}\n");
        match client.scan_responses(output.as_bytes(), 5, &parse) {
            Err(McpError::Server {
                code: found,
                message: text,
                data,
            }) => {
                assert_eq!(found, code);
                assert_eq!(text, message);
                assert_eq!(data.is_some(), has_data);
            }
            other => panic!("{other:?}"),
        }
    }
}

#[test]
fn a_server_that_exits_is_read_once_more() {
    let mut client = McpClient::new();
    let scan = || Exchange::Scan {
        id: 5,
        exited: Some(Some(-2)),
    };
    assert_eq!(
        client.advance(Exchange::Poll { id: 5 }, HostEvent::Exited(Some(-2)), &parse),
        scan()
    );
    assert_eq!(
        McpClient::new().advance(
            scan(),
            HostEvent::Output(b"{\"id\":5,\"result\":null}\n".to_vec()),
            &parse
        ),
        Exchange::Done(Ok(Some(JsonValue::Null)))
    );
    let report = client.advance(scan(), HostEvent::Output(Vec::new()), &parse);
    assert_eq!(report, Exchange::Report { status: Some(-2) });
    let done = client.advance(report, HostEvent::Stderr(Some(b" boom\n".to_vec())), &parse);
    let error = match done {
        Exchange::Done(Err(error)) => error,
        other => panic!("{other:?}"),
    };
    assert_eq!(error.describe(), "MCP child exited with Some(-2): boom");
    for stderr in [None, Some(vec![0xff])] {
        let done = client.advance(
            Exchange::Report { status: None },
            HostEvent::Stderr(stderr),
            &parse,
        );
        match done {
            Exchange::Done(Err(error)) => {
                assert_eq!(error.describe(), "MCP child exited with None");
            }
            other => panic!("{other:?}"),
        }
    }
}

#[test]
fn cancelled_waits_terminate_the_server() {
    let mut client = McpClient::new();
    let watch = client.advance(Exchange::Pause { id: 5 }, HostEvent::Slept, &parse);
    assert_eq!(watch, Exchange::Watch { id: 5 });
    let terminate = client.advance(watch, HostEvent::Cancellation(true), &parse);
    assert_eq!(terminate, Exchange::Terminate);
    assert_eq!(
        client.advance(terminate, HostEvent::Terminated, &parse),
        Exchange::Done(Err(McpError::Cancelled))
    );
}

#[test]
fn failures_of_the_host_end_the_exchange() {
    let mut client = McpClient::new();
    let failures = [
        (
            Exchange::Write {
                text: String::new(),
                awaited: Some(5),
            },
            HostEvent::WriteFailed("e".to_owned()),
            "MCP write MCP request failed: e",
        ),
        (
            Exchange::Scan { id: 5, exited: None },
            HostEvent::OutputFailed("e".to_owned()),
            "MCP read MCP response capture failed: e",
        ),
        (
            Exchange::Poll { id: 5 },
            HostEvent::PollFailed("e".to_owned()),
            "MCP poll MCP child failed: e",
        ),
    ];
    for (exchange, event, text) in failures {
        match client.advance(exchange, event, &parse) {
            Exchange::Done(Err(error)) => assert_eq!(error.describe(), text),
            other => panic!("{other:?}"),
        }
    }
    assert_eq!(
        client.advance(Exchange::Poll { id: 5 }, HostEvent::Slept, &parse),
        Exchange::Poll { id: 5 }
    );
    assert_eq!(
        client.advance(Exchange::Poll { id: 5 }, HostEvent::Running, &parse),
        Exchange::Pause { id: 5 }
    );
}

#[test]
fn errors_are_described() {
    assert_eq!(McpError::Cancelled.describe(), "MCP operation cancelled");
    assert_eq!(
        McpError::Server { code: -5, message: "m".to_owned(), data: None }.describe(),
        "MCP server error -5: m"
    );
    assert_eq!(
        McpError::Protocol { message: "m".to_owned() }.describe(),
        "MCP protocol error: m"
    );
    assert_eq!(
        McpError::InvalidArgument { message: "m".to_owned() }.describe(),
        "invalid MCP argument: m"
    );
    assert_eq!(
        start_error("bun", "no".to_owned()).describe(),
        "MCP start MCP command \"bun\" failed: no"
    );
    let odd = "it's \"odd\"\n";
    assert_eq!(
        start_error(odd, "no".to_owned()).describe(),
        format!("MCP start MCP command {:?} failed: no", Path::new(odd))
    );
    assert_eq!(
        capture_error("stdout", CaptureFailure::Exhausted).describe(),
        "MCP create private MCP stdout capture failed: could not allocate a unique capture path"
    );
    assert_eq!(
        capture_error("stderr", CaptureFailure::Refused("no".to_owned())).describe(),
        "MCP create private MCP stderr capture failed: no"
    );
}

#[test]
fn the_production_server_is_fixed() {
    let config = McpClientConfig::default();
    assert_eq!(config, McpClientConfig::runebench());
    assert_eq!(config.command, "bun");
    assert_eq!(config.args, vec!["run", "/app/mcp/server.ts"]);
    assert_eq!(config.path, "/root/.bun/bin:/usr/local/bin:/usr/bin:/bin");
    assert_eq!(config.home.as_deref(), Some("/root"));
    assert_eq!(
        config.launch(),
        Launch {
            program: "bun".to_owned(),
            arguments: vec!["run".to_owned(), "/app/mcp/server.ts".to_owned()],
            environment: vec![
                ("PATH".to_owned(), config.path.clone()),
                ("HOME".to_owned(), "/root".to_owned())
            ]
        }
    );
    let mut other = McpClientConfig::new("sh".to_owned(), Vec::new());
    assert_eq!(other.path, config.path);
    assert_eq!(other.home, config.home);
    other.home = None;
    assert_eq!(
        other.environment(),
        vec![("PATH".to_owned(), config.path.clone())]
    );
}

#[test]
fn bad_results_are_refused() {
    let protocol = |message: &str| McpError::Protocol {
        message: message.to_owned(),
    };
    assert_eq!(
        tools_call_result(&json(r#"{"content":{}}"#)),
        Err(protocol("tools/call.content was not an array"))
    );
    assert_eq!(
        tools_call_result(&json(r#"{"content":null,"isError":"no"}"#)),
        Err(protocol("tools/call.isError was not a boolean"))
    );
    let plain = tools_call_result(&json(r#"{"isError":null,"structuredContent":null}"#)).expect("result");
    assert_eq!(plain.content, Vec::new());
    assert!(!plain.is_error);
    assert_eq!(plain.structured_content, Some(JsonValue::Null));
    assert_eq!(
        resources_list_result(&json(r#"{"resources":1}"#)),
        Err(protocol("resources/list.resources was not an array"))
    );
    assert_eq!(
        resources_list_result(&json(r#"{"resources":[{"uri":"a"},{"name":"b"}]}"#)),
        Err(protocol("MCP response omitted resource.uri"))
    );
    assert_eq!(
        resources_list_result(&json(r#"{"nextCursor":1}"#)),
        Err(protocol("MCP response field was not a string"))
    );
    assert_eq!(
        resources_list_result(&json(r#"{"resources":[{"uri":"a","description":"d"}],"nextCursor":"c"}"#)),
        Ok(ResourceList {
            resources: vec![Resource {
                uri: "a".to_owned(),
                name: None,
                description: Some("d".to_owned()),
                mime_type: None
            }],
            next_cursor: Some("c".to_owned())
        })
    );
    assert_eq!(resources_list_result(&json("{}")), Ok(ResourceList::default()));
    assert_eq!(
        resources_read_result(&json(r#"{"contents":"x"}"#)),
        Err(protocol("resources/read.contents was not an array"))
    );
}

#[test]
fn contents_become_text() {
    let text = |parts: &str| {
        resources_read_result(&json(&format!("{{\"contents\":{parts}}}")))
            .expect("contents")
            .content_text(&encode)
    };
    assert_eq!(
        text(r#"[{"type":"text","text":"a"},{"type":"text"},{"type":"text","text":"b"}]"#),
        Ok("a\nb".to_owned())
    );
    assert_eq!(
        text(r#"[{"type":"resource","resource":{"text":"r"}},{"type":"resource"},{"text":"t"},{"type":"image"},{"type":3},7]"#),
        Ok("r\n{\"type\":\"resource\"}\nt\n{\"type\":\"image\"}\n{\"type\":3}\n7".to_owned())
    );
    assert_eq!(
        text(r#"[{"type":"text","text":1}]"#),
        Err(McpError::Protocol {
            message: "MCP response field was not a string".to_owned()
        })
    );
    let mut result = resources_read_result(&empty_object()).expect("contents");
    result.contents.push(not_a_number());
    assert_eq!(
        result.content_text(&encode),
        Ok("<unserializable MCP content>".to_owned())
    );
}

// The capability.

#[test]
fn execute_code_arguments_use_the_fixed_bot_and_host_timeout_name() {
    let arguments = parse(r#"{"code":"return sdk.getState()","timeout_minutes":5}"#)
        .expect("fixture arguments should parse");
    let normalized = RunebenchMcpCapability::normalize_tool_arguments("execute_code", &arguments)
        .expect("execute_code arguments should normalize");

    assert_eq!(as_str(normalized.get("bot_name")), Some("agent"));
    assert_eq!(as_f64(normalized.get("timeout")), Some(5.0));
    assert!(normalized.get("timeout_minutes").is_none());
}

#[test]
fn normalizing_changes_nothing_else() {
    let arguments = json(r#"{"bot_name":"other","code":"x","timeout":1}"#);
    let once = RunebenchMcpCapability::normalize_tool_arguments("execute_code", &arguments)
        .expect("arguments");
    assert_eq!(once, json(r#"{"bot_name":"agent","code":"x","timeout":1}"#));
    assert_eq!(
        RunebenchMcpCapability::normalize_tool_arguments("execute_code", &once),
        Ok(once)
    );
    assert_eq!(
        RunebenchMcpCapability::normalize_tool_arguments("list_bots", &arguments),
        Ok(arguments)
    );
    assert_eq!(
        RunebenchMcpCapability::normalize_tool_arguments("list_bots", &JsonValue::Null),
        Err("rs-agent tool arguments must be a JSON object".to_owned())
    );
}

fn request(tool: &str, method: &str, arguments: &str) -> CapabilityRequest {
    CapabilityRequest {
        tool_name: tool.to_owned(),
        capability: "rs-agent".to_owned(),
        method: method.to_owned(),
        arguments: json(arguments),
    }
}

fn judge(operation: McpOperation, tool: &str, _arguments: &JsonValue) -> Verdict {
    if tool.is_empty() {
        return Verdict::Invalid("empty tool".to_owned());
    }
    let capability = RunebenchMcpCapability::new();
    if capability
        .grants
        .iter()
        .any(|grant| grant.operation == operation && grant.tool == tool)
    {
        Verdict::Granted
    } else {
        Verdict::Denied("not granted".to_owned())
    }
}

fn admitted(request: &CapabilityRequest) -> Result<CapabilityCall, CapabilityError> {
    RunebenchMcpCapability::admit_request(request, false, judge)
}

#[test]
fn only_granted_requests_are_passed_on() {
    assert_eq!(
        admitted(&request("execute_code", "tools.call", r#"{"code":"x"}"#)),
        Ok(CapabilityCall::Tool {
            name: "execute_code".to_owned(),
            arguments: json(r#"{"bot_name":"agent","code":"x"}"#)
        })
    );
    assert_eq!(
        admitted(&request("rs_agent_list_resources", "resources.list", "null")),
        Ok(CapabilityCall::ListResources)
    );
    assert_eq!(
        admitted(&request("rs_agent_read_resource", "resources.read", r#"{"uri":"u"}"#)),
        Ok(CapabilityCall::ReadResource { uri: "u".to_owned() })
    );
    for (tool, method) in [
        ("shell", "tools.call"),
        ("rs_agent_read_resource", "tools.call"),
        ("execute_code", "resources.list"),
        ("rs_agent_list_resources", "resources.read"),
    ] {
        assert_eq!(
            admitted(&request(tool, method, "{}")),
            Err(CapabilityError::MethodDenied {
                capability: "rs-agent".to_owned(),
                method: "not granted".to_owned()
            })
        );
    }
    assert_eq!(
        admitted(&request("execute_code", "tools.list", "{}")),
        Err(CapabilityError::MethodDenied {
            capability: "rs-agent".to_owned(),
            method: "tools.list".to_owned()
        })
    );
    assert_eq!(
        admitted(&request("", "tools.call", "{}")),
        Err(CapabilityError::Execution {
            message: "empty tool".to_owned()
        })
    );
    assert_eq!(
        admitted(&request("list_bots", "tools.call", "[]")),
        Err(CapabilityError::InvalidArguments {
            message: "rs-agent tools.call arguments must be a JSON object".to_owned()
        })
    );
    for arguments in ["{}", r#"{"uri":""}"#, r#"{"uri":1}"#, "[]"] {
        assert_eq!(
            admitted(&request("rs_agent_read_resource", "resources.read", arguments)),
            Err(CapabilityError::InvalidArguments {
                message: "rs-agent resources.read requires a non-empty uri string".to_owned()
            })
        );
    }
    assert_eq!(
        RunebenchMcpCapability::admit_request(
            &request("list_bots", "tools.call", "{}"),
            true,
            judge
        ),
        Err(CapabilityError::Cancelled)
    );
}

#[test]
fn granted_tool_calls_reach_the_server() {
    let mut server = Server::new(&[
        INITIALIZED,
        (
            "tools/call",
            r#"{"jsonrpc":"2.0","id":2,"result":{"content":[{"type":"text","text":"handler ok"}],"isError":false}}"#,
        ),
    ]);
    let mut client = McpClient::new();
    assert!(matches!(server.connect(&mut client), Handshake::Settled(Ok(_))));
    let call = admitted(&request(
        "execute_code",
        "tools.call",
        r#"{"bot_name":"agent","code":"noop"}"#,
    ))
    .expect("granted");
    let exchange = call.begin(&mut client, false, &encode);
    let reply = server.run(&mut client, exchange);
    let answer = settle(false, call.respond(reply, &encode)).expect("answer");
    assert_eq!(as_str(answer.get("content")), Some("handler ok"));
    assert_eq!(answer.get("is_error"), Some(&JsonValue::Bool(false)));
    assert_eq!(answer.get("details_json"), Some(&JsonValue::Null));
}

#[test]
fn replies_are_answered() {
    let tool = CapabilityCall::Tool {
        name: "list_bots".to_owned(),
        arguments: empty_object(),
    };
    assert_eq!(
        tool.respond(
            Ok(json(r#"{"content":[{"type":"text","text":"x"}],"isError":true,"structuredContent":{"a":1}}"#)),
            &encode
        ),
        Ok(json(r#"{"content":"x","is_error":true,"details_json":"{\"a\":1}"}"#))
    );
    let list = CapabilityCall::ListResources;
    assert_eq!(
        list.respond(Ok(json(r#"{"resources":[{"uri":"u","name":"n"}]}"#)), &encode),
        Ok(json(
            r#"{"content":"[{\"description\":null,\"mimeType\":null,\"name\":\"n\",\"uri\":\"u\"}]","is_error":false}"#
        ))
    );
    let read = CapabilityCall::ReadResource { uri: "u".to_owned() };
    assert_eq!(
        read.respond(Ok(json(r#"{"contents":[{"text":"t"}]}"#)), &encode),
        Ok(json(r#"{"content":"t","is_error":false}"#))
    );
    for call in [&tool, &list, &read] {
        assert_eq!(
            call.respond(Err(McpError::Cancelled), &encode),
            Err(CapabilityError::Cancelled)
        );
    }
    assert_eq!(
        read.respond(Ok(json(r#"{"contents":1}"#)), &encode),
        Err(CapabilityError::Execution {
            message: "MCP protocol error: resources/read.contents was not an array".to_owned()
        })
    );
    let mut details = JsonObject::new();
    details.insert("structuredContent".to_owned(), not_a_number());
    assert_eq!(
        tool.respond(Ok(JsonValue::Object(details)), &encode),
        Err(CapabilityError::Execution {
            message: "cannot encode MCP structured content: not a number".to_owned()
        })
    );
    assert_eq!(
        list.respond(Ok(empty_object()), &|_: &JsonValue| Err("full".to_owned())),
        Err(CapabilityError::Execution {
            message: "cannot encode MCP resource list: full".to_owned()
        })
    );
}

#[test]
fn a_cancelled_request_gets_no_answer() {
    assert_eq!(
        settle(true, Ok(JsonValue::Null)),
        Err(CapabilityError::Cancelled)
    );
    assert_eq!(settle(false, Ok(JsonValue::Null)), Ok(JsonValue::Null));
    assert_eq!(
        map_mcp_error(McpError::InvalidArgument { message: "m".to_owned() }),
        CapabilityError::Execution {
            message: "invalid MCP argument: m".to_owned()
        }
    );
}
