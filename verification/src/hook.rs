//! The host's share in an agent run: the circuit breaker for failing tools, and the conversion
//! of the conversation for the provider.
use crate::messages::{conversation, conversation_json, Message, ToolCall, ToolResult};
use crate::provider::ProviderKind;
use crate::results::{
    failure_signature, five_phrases_are_fatal, is_fatal, other_errors_are_not_fatal,
    tool_error_is_fatal, tool_failure_signature, truncate_for_model,
    truncated,
};
use crate::text::{decimal, decimal_text, has_text, lowered, occurs_at, opt_text};
use vstd::prelude::*;
use vstd::string::*;

verus! {

/// How many times in a row one failure is tolerated.
pub const REPEATED_TOOL_FAILURE_LIMIT: usize = 3;

/// What is known of the tool failures of a run.
#[derive(Debug)]
pub struct ToolFailureTracker {
    /// What the latest failure is told apart by.
    pub signature: Option<String>,
    /// How often that failure came in a row.
    pub consecutive: usize,
    /// Why the run has to end, once it has to.
    pub terminal_reason: Option<String>,
}

/// The content of a [`ToolFailureTracker`].
#[verifier::ext_equal]
pub struct FailureState {
    pub signature: Option<Seq<char>>,
    pub consecutive: nat,
    pub terminal_reason: Option<Seq<char>>,
}

impl ToolFailureTracker {
    /// The content of the tracker.
    pub open spec fn view(&self) -> FailureState {
        FailureState {
            signature: opt_text(self.signature),
            consecutive: self.consecutive as nat,
            terminal_reason: opt_text(self.terminal_reason),
        }
    }
}

impl FailureState {
    /// The state before any tool has run.
    pub open spec fn initial() -> FailureState {
        FailureState { signature: None, consecutive: 0, terminal_reason: None }
    }

    /// A failure is counted exactly while there is one to count.
    pub open spec fn consistent(self) -> bool {
        self.consecutive == 0 <==> self.signature is None
    }

    /// The state after a tool that succeeded.
    pub open spec fn after_success(self) -> FailureState {
        FailureState { signature: None, consecutive: 0, terminal_reason: self.terminal_reason }
    }

    /// How often a failure has now come in a row.
    pub open spec fn count(self, signature: Seq<char>) -> nat {
        if self.signature == Some(signature) {
            if self.consecutive < usize::MAX {
                self.consecutive + 1
            } else {
                usize::MAX as nat
            }
        } else {
            1
        }
    }

    /// Whether a failure ends the run.
    pub open spec fn ends_with(self, name: Seq<char>, content: Seq<char>) -> bool {
        is_fatal(content) || self.count(call_signature(name, content))
            >= REPEATED_TOOL_FAILURE_LIMIT
    }

    /// The state after a tool that failed.
    pub open spec fn after_failure(self, name: Seq<char>, content: Seq<char>) -> FailureState {
        let signature = call_signature(name, content);
        let consecutive = self.count(signature);
        FailureState {
            signature: Some(signature),
            consecutive,
            terminal_reason: if is_fatal(content) {
                Some(fatal_reason(content))
            } else if consecutive >= REPEATED_TOOL_FAILURE_LIMIT {
                Some(repeated_reason(consecutive, content))
            } else {
                self.terminal_reason
            },
        }
    }

    /// Why a tool may not run: there is a reason once the run has to end.
    pub open spec fn refusal(self) -> Option<Seq<char>> {
        self.terminal_reason
    }

    /// What the host says after a tool: whether the run has to end for it.
    pub open spec fn announcement(
        self,
        name: Seq<char>,
        content: Seq<char>,
        is_error: bool,
    ) -> Option<bool> {
        if is_error && self.ends_with(name, content) {
            Some(true)
        } else {
            None
        }
    }

    /// The state after a tool.
    pub open spec fn after(self, name: Seq<char>, content: Seq<char>, is_error: bool) -> FailureState {
        if is_error {
            self.after_failure(name, content)
        } else {
            self.after_success()
        }
    }
}

/// What the failures of a tool are told apart by.
pub open spec fn call_signature(name: Seq<char>, content: Seq<char>) -> Seq<char> {
    name + ":"@ + failure_signature(content)
}

/// Why a run ends on a fatal error.
pub open spec fn fatal_reason(content: Seq<char>) -> Seq<char> {
    "terminal rs-agent capability failure: "@ + truncated(content, 1_000)
}

/// Why a run ends on a repeated failure.
pub open spec fn repeated_reason(attempts: nat, content: Seq<char>) -> Seq<char> {
    "repeated rs-agent tool failure after "@ + decimal_text(attempts) + " attempts: "@ + truncated(
        content,
        1_000,
    )
}

/// What the host says before a tool runs.
#[derive(Clone, Debug, PartialEq, Eq)]
pub enum BeforeToolCall {
    Allow,
    Terminate { reason: String },
}

/// What the host says after a tool has run.
#[derive(Clone, Copy, Debug, PartialEq, Eq, Structural)]
pub struct AfterToolCall {
    /// Whether the run has to end.
    pub terminate: Option<bool>,
}

impl Default for ToolFailureTracker {
    fn default() -> (r: Self)
        ensures
            r@ == FailureState::initial(),
    {
        ToolFailureTracker { signature: None, consecutive: 0, terminal_reason: None }
    }
}

/// The host's hooks into an agent run.
#[derive(Debug)]
pub struct OpenAiContextHook {
    pub failures: ToolFailureTracker,
    pub include_error_metadata: bool,
}

impl Default for OpenAiContextHook {
    fn default() -> (r: Self)
        ensures
            r.failures@ == FailureState::initial(),
            !r.include_error_metadata,
    {
        OpenAiContextHook { failures: ToolFailureTracker::default(), include_error_metadata: false }
    }
}

impl OpenAiContextHook {
    /// The hooks for a run with the given provider. Command Code reads the error flag of a tool
    /// result; OpenRouter does not.
    pub fn for_provider(provider: ProviderKind) -> (r: Self)
        ensures
            r.failures@ == FailureState::initial(),
            r.include_error_metadata == (provider == ProviderKind::CommandCode),
    {
        OpenAiContextHook {
            failures: ToolFailureTracker::default(),
            include_error_metadata: provider == ProviderKind::CommandCode,
        }
    }

    /// Lets a tool run unless the run has to end.
    pub fn before_tool_call(&self, _call: &ToolCall) -> (r: BeforeToolCall)
        ensures
            match self.failures@.terminal_reason {
                Some(why) => r matches BeforeToolCall::Terminate { reason } && reason@ == why,
                None => r is Allow,
            },
            match self.failures@.refusal() {
                Some(why) => r matches BeforeToolCall::Terminate { reason } && reason@ == why,
                None => r is Allow,
            },
    {
        match &self.failures.terminal_reason {
            Some(reason) => BeforeToolCall::Terminate { reason: reason.clone() },
            None => BeforeToolCall::Allow,
        }
    }

    /// Takes note of what a tool call came to, and ends the run on a fatal error or on the last
    /// tolerated repetition of a failure.
    pub fn after_tool_call(&mut self, call: &ToolCall, result: &ToolResult) -> (r: AfterToolCall)
        ensures
            final(self).failures@ == old(self).failures@.after(
                call.name@,
                result.content@,
                result.is_error,
            ),
            final(self).include_error_metadata == old(self).include_error_metadata,
            r.terminate == (if result.is_error && old(self).failures@.ends_with(
                call.name@,
                result.content@,
            ) {
                Some(true)
            } else {
                None
            }),
            r.terminate == old(self).failures@.announcement(
                call.name@,
                result.content@,
                result.is_error,
            ),
    {
        if !result.is_error {
            self.failures.signature = None;
            self.failures.consecutive = 0;
            return AfterToolCall { terminate: None };
        }
        let mut signature = String::new();
        signature.append(call.name.as_str());
        signature.append(":");
        signature.append(tool_failure_signature(result.content.as_str()).as_str());
        assert(signature@ =~= call_signature(call.name@, result.content@));
        let repeated = match &self.failures.signature {
            Some(known) => *known == signature,
            None => false,
        };
        if repeated {
            if self.failures.consecutive < usize::MAX {
                self.failures.consecutive = self.failures.consecutive + 1;
            }
        } else {
            self.failures.signature = Some(signature);
            self.failures.consecutive = 1;
        }
        let fatal = tool_error_is_fatal(result.content.as_str());
        if fatal || self.failures.consecutive >= REPEATED_TOOL_FAILURE_LIMIT {
            let excerpt = truncate_for_model(result.content.as_str(), 1_000);
            let reason = if fatal {
                let mut reason = String::from_str("terminal rs-agent capability failure: ");
                reason.append(excerpt.as_str());
                reason
            } else {
                let mut reason = String::from_str("repeated rs-agent tool failure after ");
                reason.append(decimal(self.failures.consecutive as u64).as_str());
                reason.append(" attempts: ");
                reason.append(excerpt.as_str());
                reason
            };
            self.failures.terminal_reason = Some(reason);
            return AfterToolCall { terminate: Some(true) };
        }
        AfterToolCall { terminate: None }
    }

    /// Writes the conversation for the provider.
    pub fn convert_to_llm(&self, messages: &Vec<Message>) -> (r: String)
        ensures
            r@ == conversation_json(messages@, self.include_error_metadata),
    {
        conversation(messages, self.include_error_metadata)
    }

    /// Whether the run has to end after the current turn.
    pub fn should_stop_after_turn(&self) -> (r: bool)
        ensures
            r == (self.failures@.terminal_reason is Some),
            r == (self.failures@.refusal() is Some),
    {
        self.failures.terminal_reason.is_some()
    }
}

// ---------------------------------------------------------------------------------------------
// Laws of the circuit breaker
// ---------------------------------------------------------------------------------------------
/// The count of failures is consistent from the start, and every tool keeps it so.
pub proof fn failure_counts_stay_consistent(
    state: FailureState,
    name: Seq<char>,
    content: Seq<char>,
    is_error: bool,
)
    requires
        state.consistent(),
    ensures
        FailureState::initial().consistent(),
        state.after(name, content, is_error).consistent(),
{
}

/// Once the run has to end, no later tool changes that.
pub proof fn terminal_state_is_final(
    state: FailureState,
    name: Seq<char>,
    content: Seq<char>,
    is_error: bool,
)
    requires
        state.terminal_reason is Some,
    ensures
        state.after(name, content, is_error).terminal_reason is Some,
{
}

/// The run has to end after a tool exactly if it had to before or the tool's failure ends it.
pub proof fn termination_is_exactly_announced(
    state: FailureState,
    name: Seq<char>,
    content: Seq<char>,
    is_error: bool,
)
    ensures
        state.after(name, content, is_error).terminal_reason is Some <==> (
        state.terminal_reason is Some || (is_error && state.ends_with(name, content))),
{
}

/// Whatever came before, the third failure in a row of one kind ends the run at the latest.
pub proof fn third_repetition_ends_the_run(
    state: FailureState,
    name: Seq<char>,
    first: Seq<char>,
    second: Seq<char>,
    third: Seq<char>,
)
    requires
        failure_signature(first) == failure_signature(second),
        failure_signature(second) == failure_signature(third),
    ensures
        state.after_failure(name, first).after_failure(name, second).ends_with(name, third),
{
}

/// After a success two failures in a row do not end the run, unless one of them is fatal.
pub proof fn success_clears_the_count(
    state: FailureState,
    first_name: Seq<char>,
    first: Seq<char>,
    second_name: Seq<char>,
    second: Seq<char>,
)
    requires
        !is_fatal(first),
        !is_fatal(second),
    ensures
        !state.after_success().ends_with(first_name, first),
        !state.after_success().after_failure(first_name, first).ends_with(second_name, second),
{
}

/// A failure of another kind starts a new count.
pub proof fn different_failures_do_not_add_up(
    state: FailureState,
    name: Seq<char>,
    content: Seq<char>,
    other_name: Seq<char>,
    other: Seq<char>,
)
    requires
        call_signature(name, content) != call_signature(other_name, other),
        !is_fatal(other),
    ensures
        !state.after_failure(name, content).ends_with(other_name, other),
        state.after_failure(name, content).after_failure(other_name, other).consecutive == 1,
{
}

/// A first failure ends a run only if it says one of five phrases: whatever else went wrong, a
/// connection that timed out among it, the agent goes on.
pub proof fn first_failures_do_not_end_a_run(
    state: FailureState,
    name: Seq<char>,
    content: Seq<char>,
)
    requires
        state.terminal_reason is None,
        !has_text(lowered(content), "broken pipe"@),
        !has_text(lowered(content), "mcp protocol error"@),
        !has_text(lowered(content), "mcp child exited"@),
        !has_text(lowered(content), "not connected (state: disconnected)"@),
        !has_text(lowered(content), "invalid json"@),
    ensures
        !FailureState::initial().ends_with(name, content),
        FailureState::initial().after(name, content, true).terminal_reason is None,
        !state.after_success().ends_with(name, content),
        state.after_success().after(name, content, true).terminal_reason is None,
{
    assert(!is_fatal(content)) by {
        if is_fatal(content) {
            assert forall|phrase: Seq<char>, i: int| #[trigger]
                occurs_at(lowered(content), phrase, i) implies phrase != "broken pipe"@ && phrase
                != "mcp protocol error"@ && phrase != "mcp child exited"@ && phrase
                != "not connected (state: disconnected)"@ && phrase != "invalid json"@ by {
                assert(has_text(lowered(content), phrase));
            }
            other_errors_are_not_fatal(content);
        }
    }
}

/// An error that says one of the five phrases ends the run at once, whatever came before, and the
/// reason quotes the error.
pub proof fn fatal_failures_end_a_run(
    state: FailureState,
    name: Seq<char>,
    before: Seq<char>,
    said: Seq<char>,
    after: Seq<char>,
)
    requires
        lowered(said) == "broken pipe"@ || lowered(said) == "mcp protocol error"@ || lowered(said)
            == "mcp child exited"@ || lowered(said) == "not connected (state: disconnected)"@
            || lowered(said) == "invalid json"@,
    ensures
        ({
            let content = before + said + after;
            &&& state.ends_with(name, content)
            &&& state.after(name, content, true).terminal_reason matches Some(reason) && (
            content.len() <= 1_000 ==> reason == "terminal rs-agent capability failure: "@
                + content) && (content.len() > 1_000 ==> reason
                == "terminal rs-agent capability failure: "@ + truncated(content, 1_000))
        }),
{
    five_phrases_are_fatal(before, said, after);
}

/// Three failures of one tool in a row that are told apart by the same end the run, and no fewer
/// do: after the first and the second the agent goes on, and the reason tells of three attempts
/// and quotes the last error.
pub proof fn three_repetitions_end_a_run(
    state: FailureState,
    name: Seq<char>,
    first: Seq<char>,
    second: Seq<char>,
    third: Seq<char>,
)
    requires
        state.terminal_reason is None,
        !is_fatal(first),
        !is_fatal(second),
        !is_fatal(third),
        failure_signature(first) == failure_signature(second),
        failure_signature(second) == failure_signature(third),
    ensures
        ({
            let one = state.after(name, "ok"@, false).after(name, first, true);
            let two = one.after(name, second, true);
            let three = two.after(name, third, true);
            &&& one.terminal_reason is None
            &&& two.terminal_reason is None
            &&& two.ends_with(name, third)
            &&& three.terminal_reason matches Some(reason) && (third.len() <= 1_000 ==> reason
                == "repeated rs-agent tool failure after 3 attempts: "@ + third)
        }),
{
    reveal_strlit("repeated rs-agent tool failure after ");
    reveal_strlit(" attempts: ");
    reveal_strlit("repeated rs-agent tool failure after 3 attempts: ");
    assert(decimal_text(3) =~= seq!['3']);
    assert("repeated rs-agent tool failure after "@ + decimal_text(3) + " attempts: "@
        =~= "repeated rs-agent tool failure after 3 attempts: "@);
}

/// The same error of two tools is not a repetition.
pub proof fn failures_of_two_tools_do_not_add_up(
    state: FailureState,
    name: Seq<char>,
    other: Seq<char>,
    content: Seq<char>,
)
    requires
        name != other,
        !is_fatal(content),
    ensures
        !state.after_failure(name, content).ends_with(other, content),
        state.after_failure(name, content).after_failure(other, content).consecutive == 1,
{
    let end = ":"@ + failure_signature(content);
    if call_signature(name, content) == call_signature(other, content) {
        assert(name + end =~= call_signature(name, content));
        assert(other + end =~= call_signature(other, content));
        assert((name + end).len() == (other + end).len());
        assert(name =~= (name + end).take(name.len() as int));
        assert(other =~= (other + end).take(other.len() as int));
    }
    different_failures_do_not_add_up(state, name, content, other, content);
}

/// A tool that succeeds neither ends a run nor takes back that it has to end.
pub proof fn successes_end_nothing(state: FailureState, name: Seq<char>, content: Seq<char>)
    ensures
        state.after(name, content, false).terminal_reason == state.terminal_reason,
        state.after(name, content, false).consecutive == 0,
{
}

/// Once a failure ended the run, no tool runs any more, and each is refused with the reason of the end;
/// before that every tool runs.
pub proof fn ended_runs_run_no_tool(
    state: FailureState,
    name: Seq<char>,
    content: Seq<char>,
    is_error: bool,
)
    requires
        state.terminal_reason is None,
    ensures
        FailureState::initial().refusal() is None,
        state.refusal() is None,
        state.announcement(name, content, is_error) == Some(true) <==> state.after(
            name,
            content,
            is_error,
        ).refusal() is Some,
        state.announcement(name, content, is_error) is None <==> state.after(
            name,
            content,
            is_error,
        ).refusal() is None,
        state.announcement(name, content, false) is None,
        state.after(name, content, is_error).refusal() == state.after(
            name,
            content,
            is_error,
        ).terminal_reason,
{
}

/// A failure that does not end the run leaves the reason why it has to end as it is, and one that does
/// replaces it.
pub proof fn reasons_are_those_of_the_last_end(
    state: FailureState,
    name: Seq<char>,
    content: Seq<char>,
)
    ensures
        !state.ends_with(name, content) ==> state.after(name, content, true).terminal_reason
            == state.terminal_reason,
        state.ends_with(name, content) && content.len() <= 1_000 ==> (state.after(
            name,
            content,
            true,
        ).terminal_reason matches Some(reason) && content.is_suffix_of(reason)),
{
    if state.ends_with(name, content) && content.len() <= 1_000 {
        let reason = state.after(name, content, true).terminal_reason->0;
        assert(content =~= reason.subrange(reason.len() - content.len(), reason.len() as int));
    }
}

}
