//! Tool results, the circuit breaker, the conversation and the event log.
use runebench_pi_agent::hook::{AfterToolCall, BeforeToolCall, OpenAiContextHook};
use runebench_pi_agent::messages::{
    event_json, openai_message, stop_reason_name, AgentEvent, AgentEventKind, AssistantToolCall,
    Message, StopReason, ToolCall, ToolResult,
};
use runebench_pi_agent::provider::ProviderKind;
use runebench_pi_agent::quote::json_string;
use runebench_pi_agent::results::{
    curate_tool_result, tool_error_is_fatal, tool_failure_signature, truncate_for_model,
    SerializedJson, MODEL_TOOL_RESULT_MAX_CHARS,
};

#[test]
fn model_tool_result_projection_includes_details_and_bounds_output() {
    let content = format!("head {} tail", "x".repeat(20_000));
    let details = SerializedJson::new(r#"{"retryable":false,"source":"mcp"}"#);
    let projected = curate_tool_result("execute_code", &content, Some(&details), true);

    assert!(projected.chars().count() <= MODEL_TOOL_RESULT_MAX_CHARS);
    assert!(projected.contains("[execute_code result: error]"));
    assert!(projected.contains("[structured details]"));
    assert!(projected.contains("[truncated"));
    assert!(projected.contains("tail"));
}

#[test]
fn small_results_are_projected_as_they_are() {
    assert_eq!(
        curate_tool_result("list_bots", "", None, false),
        "[list_bots result: ok]\n(empty result)"
    );
    let details = SerializedJson::new("{}");
    assert_eq!(
        curate_tool_result("execute_code", "Broken pipe", Some(&details), true),
        "[execute_code result: error]\nBroken pipe\n[structured details]\n{}\n[terminal capability error: do not retry this tool]"
    );
    assert_eq!(
        curate_tool_result("execute_code", "Broken pipe", None, false),
        "[execute_code result: ok]\nBroken pipe"
    );
}

#[test]
fn truncation_keeps_both_ends_within_the_limit() {
    assert_eq!(truncate_for_model("abc", 3), "abc");
    assert_eq!(truncate_for_model("abcd", 3), "abc");
    assert_eq!(truncate_for_model("äöü", 2), "äö");
    let long: String = ('a'..='z').cycle().take(200).collect();
    let cut = truncate_for_model(&long, 100);
    assert_eq!(cut.chars().count(), 100);
    assert_eq!(
        cut,
        format!(
            "{}\n...[truncated 100 characters]...\n{}",
            &long[..44],
            &long[178..]
        )
    );
}

#[test]
fn fatal_errors_are_recognised() {
    for content in [
        "Broken pipe",
        "MCP protocol error: x",
        "MCP child exited with None",
        "Not connected (state: disconnected)",
        "Invalid JSON in body",
    ] {
        assert!(tool_error_is_fatal(content), "{content}");
    }
    for content in ["", "not connected", "operation aborted", "timeout"] {
        assert!(!tool_error_is_fatal(content), "{content}");
    }
}

#[test]
fn failure_signatures_ignore_the_variable_part() {
    assert_eq!(tool_failure_signature("  Write: BROKEN PIPE (32)"), "broken pipe");
    assert_eq!(tool_failure_signature("MCP protocol error: a"), "mcp protocol error");
    assert_eq!(tool_failure_signature("MCP child exited with 1"), "mcp child exited");
    assert_eq!(tool_failure_signature("Not connected"), "not connected");
    assert_eq!(tool_failure_signature("invalid JSON"), "invalid json");
    assert_eq!(
        tool_failure_signature("waitForConnection timed out after 3s"),
        "waitforconnection timed out"
    );
    assert_eq!(
        tool_failure_signature("Error: Game state not ready within timeout"),
        "game state not ready within timeout"
    );
    assert_eq!(tool_failure_signature("Operation aborted."), "operation aborted");
    assert_eq!(tool_failure_signature(" Some Other "), "some other");
    assert_eq!(tool_failure_signature(&"Y".repeat(300)), "y".repeat(240));
}

fn call(name: &str) -> ToolCall {
    ToolCall {
        id: "failure-call".to_owned(),
        name: name.to_owned(),
        arguments: SerializedJson::new(r#"{"code":"return 1"}"#),
    }
}

fn outcome(content: &str, is_error: bool) -> ToolResult {
    ToolResult {
        tool_call_id: "failure-call".to_owned(),
        content: content.to_owned(),
        is_error,
    }
}

#[test]
fn repeated_tool_failures_trip_the_host_circuit_breaker() {
    let mut hook = OpenAiContextHook::default();
    let call = call("execute_code");
    let result = outcome("Error: Game state not ready within timeout", true);

    assert_eq!(hook.after_tool_call(&call, &result).terminate, None);
    assert_eq!(hook.after_tool_call(&call, &result).terminate, None);
    assert_eq!(hook.after_tool_call(&call, &result).terminate, Some(true));
    assert!(matches!(
        hook.before_tool_call(&call),
        BeforeToolCall::Terminate { .. }
    ));
    assert!(hook.should_stop_after_turn());
    assert_eq!(
        hook.before_tool_call(&call),
        BeforeToolCall::Terminate {
            reason:
                "repeated rs-agent tool failure after 3 attempts: Error: Game state not ready within timeout"
                    .to_owned()
        }
    );
}

#[test]
fn a_success_or_another_failure_clears_the_count() {
    let mut hook = OpenAiContextHook::default();
    let tool = call("execute_code");
    for content in ["one", "one", "two", "one", "one"] {
        assert_eq!(
            hook.after_tool_call(&tool, &outcome(content, true)),
            AfterToolCall { terminate: None }
        );
    }
    assert_eq!(hook.after_tool_call(&tool, &outcome("fine", false)).terminate, None);
    assert_eq!(hook.after_tool_call(&tool, &outcome("one", true)).terminate, None);
    assert_eq!(hook.after_tool_call(&call("list_bots"), &outcome("one", true)).terminate, None);
    assert_eq!(hook.before_tool_call(&tool), BeforeToolCall::Allow);
    assert!(!hook.should_stop_after_turn());
}

#[test]
fn a_fatal_failure_ends_the_run_at_once_and_for_good() {
    let mut hook = OpenAiContextHook::default();
    let tool = call("execute_code");
    assert_eq!(
        hook.after_tool_call(&tool, &outcome("Broken pipe", true)).terminate,
        Some(true)
    );
    hook.after_tool_call(&tool, &outcome("fine", false));
    assert_eq!(
        hook.before_tool_call(&tool),
        BeforeToolCall::Terminate {
            reason: "terminal rs-agent capability failure: Broken pipe".to_owned()
        }
    );
}

#[test]
fn conversations_are_written_for_the_provider() {
    let messages = vec![
        Message::User {
            content: "say \"hi\"".to_owned(),
        },
        Message::Assistant {
            content: String::new(),
            tool_calls: vec![AssistantToolCall {
                id: "c1".to_owned(),
                name: "list_bots".to_owned(),
                arguments: SerializedJson::new("{\"a\":1}"),
            }],
            stop_reason: Some(StopReason::ToolUse),
            error_message: None,
        },
        Message::ToolResult {
            tool_call_id: "c1".to_owned(),
            tool_name: "list_bots".to_owned(),
            content: "none".to_owned(),
            details: None,
            is_error: false,
        },
    ];
    let user = r#"{"role":"user","content":"say \"hi\""}"#;
    let assistant = r#"{"role":"assistant","content":null,"tool_calls":[{"id":"c1","type":"function","function":{"name":"list_bots","arguments":"{\"a\":1}"}}]}"#;
    let tool = r#"{"role":"tool","tool_call_id":"c1","content":"[list_bots result: ok]\nnone"}"#;
    let flagged = r#"{"role":"tool","tool_call_id":"c1","content":"[list_bots result: ok]\nnone","is_error":false}"#;
    assert_eq!(
        OpenAiContextHook::for_provider(ProviderKind::OpenRouter).convert_to_llm(&messages),
        format!("[{user},{assistant},{tool}]")
    );
    assert_eq!(
        OpenAiContextHook::for_provider(ProviderKind::CommandCode).convert_to_llm(&messages),
        format!("[{user},{assistant},{flagged}]")
    );
    assert_eq!(OpenAiContextHook::default().convert_to_llm(&Vec::new()), "[]");
    assert_eq!(
        openai_message(
            &Message::Assistant {
                content: "ok".to_owned(),
                tool_calls: Vec::new(),
                stop_reason: None,
                error_message: None
            },
            true
        ),
        r#"{"role":"assistant","content":"ok","tool_calls":[]}"#
    );
}

#[test]
fn strings_are_quoted_for_json() {
    assert_eq!(json_string(""), "\"\"");
    assert_eq!(
        json_string("a\"b\\c\nd\re\tf\u{1}g\u{7f}ä\u{85}"),
        "\"a\\\"b\\\\c\\nd\\re\\tf\\u0001g\\u007fä\\u0085\""
    );
}

#[test]
fn stop_reasons_have_names() {
    assert_eq!(stop_reason_name(StopReason::EndTurn), "end_turn");
    assert_eq!(stop_reason_name(StopReason::ToolUse), "tool_use");
    assert_eq!(stop_reason_name(StopReason::Length), "length");
    assert_eq!(stop_reason_name(StopReason::Aborted), "aborted");
    assert_eq!(stop_reason_name(StopReason::Error), "error");
    assert_eq!(stop_reason_name(StopReason::Cancelled), "cancelled");
}

fn line(kind: AgentEventKind) -> String {
    event_json(&AgentEvent { kind })
}

#[test]
fn events_are_logged_one_to_a_line() {
    assert_eq!(line(AgentEventKind::AgentStart), r#"{"type":"agent_start"}"#);
    assert_eq!(line(AgentEventKind::AgentEnd), r#"{"type":"agent_end"}"#);
    assert_eq!(line(AgentEventKind::TurnStart), r#"{"type":"turn_start"}"#);
    assert_eq!(
        line(AgentEventKind::TurnEnd {
            reason: StopReason::Length
        }),
        r#"{"type":"turn_end","stopReason":"length"}"#
    );
    assert_eq!(line(AgentEventKind::CompactionStart), r#"{"type":"compaction"}"#);
    assert_eq!(line(AgentEventKind::CompactionResult), r#"{"type":"compaction"}"#);
    assert_eq!(line(AgentEventKind::CompactionEnd), r#"{"type":"compaction"}"#);
    assert_eq!(line(AgentEventKind::ModelTurnUsage), r#"{"type":"model_turn_usage"}"#);
    assert_eq!(line(AgentEventKind::MessageUpdate), r#"{"type":"message_update"}"#);
    assert_eq!(
        line(AgentEventKind::ToolExecutionStart {
            tool_name: "a\nb".to_owned()
        }),
        r#"{"type":"tool_execution_start","toolName":"a\nb"}"#
    );
    assert_eq!(
        line(AgentEventKind::ToolExecutionUpdate {
            tool_name: "t".to_owned()
        }),
        r#"{"type":"tool_execution_update","toolName":"t"}"#
    );
    assert_eq!(
        line(AgentEventKind::ToolExecutionEnd {
            tool_name: "t".to_owned(),
            result: outcome("x", true)
        }),
        r#"{"type":"tool_execution_end","toolName":"t","isError":true}"#
    );
    assert_eq!(
        line(AgentEventKind::MessageStart {
            message: Message::User {
                content: "two\nlines".to_owned()
            }
        }),
        r#"{"type":"message_start","message":{"role":"user","content":"two\nlines"}}"#
    );
    assert_eq!(
        line(AgentEventKind::MessageEnd {
            message: Message::Assistant {
                content: "done".to_owned(),
                tool_calls: Vec::new(),
                stop_reason: Some(StopReason::EndTurn),
                error_message: Some("e".to_owned())
            }
        }),
        r#"{"type":"message_end","message":{"role":"assistant","content":"done","stopReason":"end_turn","errorMessage":"e"}}"#
    );
    assert_eq!(
        line(AgentEventKind::MessageEnd {
            message: Message::Assistant {
                content: "done".to_owned(),
                tool_calls: Vec::new(),
                stop_reason: None,
                error_message: None
            }
        }),
        r#"{"type":"message_end","message":{"role":"assistant","content":"done","stopReason":null,"errorMessage":null}}"#
    );
    assert_eq!(
        line(AgentEventKind::MessageEnd {
            message: Message::ToolResult {
                tool_call_id: "c".to_owned(),
                tool_name: "t".to_owned(),
                content: "r".to_owned(),
                details: None,
                is_error: false
            }
        }),
        r#"{"type":"message_end","message":{"role":"tool","toolName":"t","content":"r","isError":false}}"#
    );
}
