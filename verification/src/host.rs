//! The decisions of a run: what it needs before it starts, what the agent is told, and how it
//! ends.
use crate::args::{
    commandcode_request_context, missing_context, Args, ArgsText, CommandCodeRequestContext,
};
use crate::mcp::{fault_text, text_or_fault, McpError, Resource, ResourceText};
use crate::messages::{bool_literal, bool_text};
use crate::process::set_variable;
use crate::provider::{
    model_selection, model_selection_reads_back, parse_model, ProviderKind,
};
use crate::reader::{
    lemma_array, lemma_literal, lemma_names, lemma_object_of_five, lemma_read_alone, literal,
    member_text, read_json, stands_for, Tree,
};
use crate::results::{truncate_for_model, truncated, truncated_is_bounded};
use crate::text::{
    debug_text, is_blank, join, joined, joined_lists_join, opt_text, quote_debug, same_text,
    text_pairs, text_result, texts, trim, trimmed, with_message,
};
use vstd::prelude::*;
use vstd::string::*;

verus! {

/// The most characters of one document that the agent is told at the start.
pub const BOOTSTRAP_DOC_MAX_CHARS: usize = 24_000;

// ---------------------------------------------------------------------------------------------
// What a run needs
// ---------------------------------------------------------------------------------------------
/// The provider and the model of a run, with the facts that the provider is told.
#[derive(Clone, Debug, PartialEq, Eq)]
pub struct RunPlan {
    pub provider: ProviderKind,
    pub model: String,
    pub commandcode: Option<CommandCodeRequestContext>,
}

/// The content of a [`RunPlan`].
#[verifier::ext_equal]
pub struct PlanText {
    pub provider: ProviderKind,
    pub model: Seq<char>,
    pub commandcode: Option<HostFacts>,
}

/// The content of a [`CommandCodeRequestContext`].
#[verifier::ext_equal]
pub struct HostFacts {
    pub date: Seq<char>,
    pub environment: Seq<char>,
    pub thread_id: Seq<char>,
    pub project_slug: Seq<char>,
}

impl RunPlan {
    /// The content of the plan.
    pub open spec fn view(&self) -> PlanText {
        PlanText {
            provider: self.provider,
            model: self.model@,
            commandcode: match self.commandcode {
                Some(context) => Some(
                    HostFacts {
                        date: context.date@,
                        environment: context.environment@,
                        thread_id: context.thread_id@,
                        project_slug: context.project_slug@,
                    },
                ),
                None => None,
            },
        }
    }
}

/// Which provider and which model a run uses. Command Code has to be told the facts about the
/// host; OpenRouter is told none.
pub open spec fn planned(args: ArgsText) -> Result<PlanText, Seq<char>> {
    match model_selection(args.model) {
        Err(message) => Err(message),
        Ok((ProviderKind::OpenRouter, model)) => Ok(
            PlanText { provider: ProviderKind::OpenRouter, model, commandcode: None },
        ),
        Ok((ProviderKind::CommandCode, model)) => match missing_context(args) {
            Some(flag) => Err("commandcode models require "@ + flag),
            None => Ok(
                PlanText {
                    provider: ProviderKind::CommandCode,
                    model,
                    commandcode: Some(
                        HostFacts {
                            date: args.commandcode_date->0,
                            environment: args.commandcode_environment->0,
                            thread_id: args.commandcode_thread_id->0,
                            project_slug: args.commandcode_project_slug->0,
                        },
                    ),
                },
            ),
        },
    }
}

/// The content of a plan, or the message about it.
pub open spec fn plan_result(r: Result<RunPlan, String>) -> Result<PlanText, Seq<char>> {
    match r {
        Ok(plan) => Ok(plan@),
        Err(message) => Err(message@),
    }
}

/// Decides which provider and which model a run uses.
pub fn plan_run(args: &Args) -> (r: Result<RunPlan, String>)
    ensures
        plan_result(r) == planned(args@),
{
    let (provider, model) = match parse_model(args.model.as_str()) {
        Ok(selection) => selection,
        Err(message) => return Err(message),
    };
    match provider {
        ProviderKind::OpenRouter => Ok(RunPlan { provider, model, commandcode: None }),
        ProviderKind::CommandCode => match commandcode_request_context(args) {
            Ok(context) => Ok(RunPlan { provider, model, commandcode: Some(context) }),
            Err(message) => Err(message),
        },
    }
}

/// The secret of a provider, which has to be there and not blank.
pub open spec fn secret(name: Seq<char>, value: Option<Seq<char>>) -> Result<
    Seq<char>,
    Seq<char>,
> {
    match value {
        None => Err(name + " must be supplied by the caller's secret injector"@),
        Some(key) => if trimmed(key).len() == 0 {
            Err(name + " was empty"@)
        } else {
            Ok(key)
        },
    }
}

/// Takes the secret of a provider. `value` is what the environment variable of that name holds.
pub fn check_api_key(name: &str, value: Option<String>) -> (r: Result<String, String>)
    ensures
        text_result(r) == secret(name@, opt_text(value)),
{
    match value {
        None => {
            let mut message = String::new();
            message.append(name);
            message.append(" must be supplied by the caller's secret injector");
            assert(message@ =~= name@ + " must be supplied by the caller's secret injector"@);
            Err(message)
        },
        Some(key) => {
            if is_blank(key.as_str()) {
                let mut message = String::new();
                message.append(name);
                message.append(" was empty");
                assert(message@ =~= name@ + " was empty"@);
                Err(message)
            } else {
                Ok(key)
            }
        },
    }
}

/// The tools that a policy may declare.
pub open spec fn policy_tools() -> Seq<Seq<char>> {
    seq![
        "execute_code"@,
        "list_bots"@,
        "disconnect_bot"@,
        "rs_agent_list_resources"@,
        "rs_agent_read_resource"@,
    ]
}

/// The handler of a tool that a policy declares: the tool has to be one of those that a policy
/// may declare, and it has to have a handler.
pub open spec fn declared_handler(name: Seq<char>, handler: Option<Seq<char>>) -> Result<
    Seq<char>,
    Seq<char>,
> {
    if !policy_tools().contains(name) {
        Err("Runebench policy declared unsupported tool "@ + debug_text(name))
    } else {
        match handler {
            Some(source) => Ok(source),
            None => Err(
                "Runebench policy tool "@ + debug_text(name)
                    + " must declare a coroutine handler_source"@,
            ),
        }
    }
}

/// Whether a policy may declare a tool of that name.
fn is_policy_tool(name: &str) -> (r: bool)
    ensures
        r == policy_tools().contains(name@),
{
    let r = same_text(name, "execute_code") || same_text(name, "list_bots") || same_text(
        name,
        "disconnect_bot",
    ) || same_text(name, "rs_agent_list_resources") || same_text(name, "rs_agent_read_resource");
    proof {
        let tools = policy_tools();
        assert(tools[0] == "execute_code"@);
        assert(tools[1] == "list_bots"@);
        assert(tools[2] == "disconnect_bot"@);
        assert(tools[3] == "rs_agent_list_resources"@);
        assert(tools[4] == "rs_agent_read_resource"@);
    }
    r
}

/// Takes the handler of a tool that a policy declares.
pub fn check_declaration(name: &str, handler: &Option<String>) -> (r: Result<String, String>)
    ensures
        text_result(r) == declared_handler(name@, opt_text(*handler)),
{
    if !is_policy_tool(name) {
        let mut message = String::from_str("Runebench policy declared unsupported tool ");
        message.append(quote_debug(name).as_str());
        return Err(message);
    }
    match handler {
        Some(source) => Ok(source.clone()),
        None => {
            let mut message = String::from_str("Runebench policy tool ");
            message.append(quote_debug(name).as_str());
            message.append(" must declare a coroutine handler_source");
            Err(message)
        },
    }
}

/// The whole environment of the shell tools, by names and values: a fixed `PATH`, and no secret.
pub fn tool_environment() -> (r: Vec<(String, String)>)
    ensures
        text_pairs(r@) == seq![("PATH"@, "/root/.bun/bin:/usr/local/bin:/usr/bin:/bin"@)],
{
    let mut environment: Vec<(String, String)> = Vec::new();
    assert(text_pairs(environment@) =~= Seq::<(Seq<char>, Seq<char>)>::empty());
    set_variable(&mut environment, "PATH", "/root/.bun/bin:/usr/local/bin:/usr/bin:/bin");
    assert(text_pairs(environment@) =~= seq![
        ("PATH"@, "/root/.bun/bin:/usr/local/bin:/usr/bin:/bin"@),
    ]);
    environment
}

/// What a run has to do before the agent is at work.
#[derive(Clone, Copy, Debug, PartialEq, Eq, Structural)]
pub enum Preparation {
    /// Reading the policy file of that path.
    ReadPolicy,
    /// Loading the policy.
    LoadPolicy,
    /// Connecting to the rs-agent MCP server.
    Connect,
    /// Making the manifest of the rs-agent capability.
    MakeCapability,
    /// Binding the rs-agent capability.
    BindCapability,
    /// Making the tools of the workspace.
    MakeTools,
    /// Loading the default profile.
    LoadProfile,
    /// Binding the default profile to the tools.
    BindProfile,
    /// Making the handler of the tool of that name.
    MakeHandler,
    /// Writing the audit record.
    WriteAudit,
    /// Telling Command Code about the host.
    DescribeHost,
    /// Configuring Command Code.
    ConfigureProvider,
    /// Making the directory of the event log.
    MakeLogDirectory,
    /// Creating the event log.
    CreateLog,
    /// Starting the agent.
    StartAgent,
}

/// Why a run ends before the agent is at work: what it failed to do, on what, and why.
pub open spec fn preparation_failure(
    preparation: Preparation,
    subject: Seq<char>,
    error: Seq<char>,
) -> Seq<char> {
    match preparation {
        Preparation::ReadPolicy => "cannot read Luau policy "@ + subject + ": "@ + error,
        Preparation::LoadPolicy => error,
        Preparation::Connect => "cannot start rs-agent MCP client: "@ + error,
        Preparation::MakeCapability => error,
        Preparation::BindCapability => "cannot bind rs-agent MCP capability: "@ + error,
        Preparation::MakeTools => "cannot construct workspace tools: "@ + error,
        Preparation::LoadProfile => "cannot load pinned Pi default profile: "@ + error,
        Preparation::BindProfile => "pinned Pi profile did not bind: "@ + error,
        Preparation::MakeHandler => "cannot construct Luau handler for Runebench tool "@
            + debug_text(subject) + ": "@ + error,
        Preparation::WriteAudit => "cannot write agent-core audit: "@ + error,
        Preparation::DescribeHost => "invalid Command Code host context: "@ + error,
        Preparation::ConfigureProvider => "invalid Command Code configuration: "@ + error,
        Preparation::MakeLogDirectory => "cannot create event-log directory: "@ + error,
        Preparation::CreateLog => "cannot create event log: "@ + error,
        Preparation::StartAgent => "cannot start Runebench agent: "@ + error,
    }
}

/// Describes why a run ends before the agent is at work.
pub fn describe_failure(preparation: Preparation, subject: &str, error: &str) -> (r: String)
    ensures
        r@ == preparation_failure(preparation, subject@, error@),
{
    let what = match preparation {
        Preparation::LoadPolicy => return error.to_owned(),
        Preparation::MakeCapability => return error.to_owned(),
        Preparation::ReadPolicy => {
            let mut message = String::from_str("cannot read Luau policy ");
            message.append(subject);
            message.append(": ");
            message.append(error);
            return message;
        },
        Preparation::MakeHandler => {
            let mut message = String::from_str(
                "cannot construct Luau handler for Runebench tool ",
            );
            message.append(quote_debug(subject).as_str());
            message.append(": ");
            message.append(error);
            return message;
        },
        Preparation::Connect => "cannot start rs-agent MCP client: ",
        Preparation::BindCapability => "cannot bind rs-agent MCP capability: ",
        Preparation::MakeTools => "cannot construct workspace tools: ",
        Preparation::LoadProfile => "cannot load pinned Pi default profile: ",
        Preparation::BindProfile => "pinned Pi profile did not bind: ",
        Preparation::WriteAudit => "cannot write agent-core audit: ",
        Preparation::DescribeHost => "invalid Command Code host context: ",
        Preparation::ConfigureProvider => "invalid Command Code configuration: ",
        Preparation::MakeLogDirectory => "cannot create event-log directory: ",
        Preparation::CreateLog => "cannot create event log: ",
        Preparation::StartAgent => "cannot start Runebench agent: ",
    };
    let mut message = what.to_owned();
    message.append(error);
    message
}

// ---------------------------------------------------------------------------------------------
// What the agent is told
// ---------------------------------------------------------------------------------------------
/// The heading of a section, on a line of its own.
pub open spec fn heading_line(heading: Option<Seq<char>>) -> Seq<char> {
    match heading {
        Some(heading) => heading + "\n"@,
        None => Seq::empty(),
    }
}

/// A prompt with a section after it; a blank section is left out.
pub open spec fn with_section(
    prompt: Seq<char>,
    heading: Option<Seq<char>>,
    content: Seq<char>,
) -> Seq<char> {
    if trimmed(content).len() == 0 {
        prompt
    } else {
        prompt + "\n\n"@ + heading_line(heading) + trimmed(content)
    }
}

/// The characters of a string slice that may be absent.
pub open spec fn opt_str(s: Option<&str>) -> Option<Seq<char>> {
    match s {
        Some(s) => Some(s@),
        None => None,
    }
}

/// Appends a section to a prompt.
pub fn append_section(prompt: &mut String, heading: Option<&str>, content: &str)
    ensures
        final(prompt)@ == with_section(old(prompt)@, opt_str(heading), content@),
{
    if is_blank(content) {
        return ;
    }
    prompt.append("\n\n");
    let ghost before = prompt@;
    if let Some(heading) = heading {
        prompt.append(heading);
        prompt.append("\n");
    }
    assert(prompt@ =~= before + heading_line(opt_str(heading)));
    prompt.append(trim(content).as_str());
}

/// The system prompt of a run: that of the profile, what the policy adds to it, and the
/// documents.
pub open spec fn prompt_text(profile: Seq<char>, policy: Seq<char>, docs: Seq<char>) -> Seq<char> {
    with_section(
        with_section(profile, None, policy),
        Some("## Runebench API reference"@),
        docs,
    )
}

/// Makes the system prompt of a run.
pub fn system_prompt(profile: &str, policy: &str, docs: &str) -> (r: String)
    ensures
        r@ == prompt_text(profile@, policy@, docs@),
{
    let mut prompt = profile.to_owned();
    append_section(&mut prompt, None, policy);
    append_section(&mut prompt, Some("## Runebench API reference"), docs);
    prompt
}

/// What the prompt shows of a document.
pub open spec fn document_part(resource: ResourceText, content: Seq<char>) -> Seq<char> {
    "### "@ + (match resource.name {
        Some(name) => name,
        None => resource.uri,
    }) + "\n"@ + truncated(content, BOOTSTRAP_DOC_MAX_CHARS as nat)
}

/// What the prompt shows of the documents that were read, in order. Empty documents are left out,
/// and the first one that could not be read spoils the documents.
pub open spec fn document_parts(
    resources: Seq<Resource>,
    contents: Seq<Result<String, McpError>>,
) -> Result<Seq<Seq<char>>, Seq<char>>
    decreases contents.len(),
{
    if contents.len() == 0 {
        Ok(Seq::empty())
    } else {
        let i = contents.len() - 1;
        match document_parts(resources, contents.drop_last()) {
            Err(message) => Err(message),
            Ok(parts) => match text_or_fault(contents[i]) {
                Err(fault) => Err(
                    "cannot read rs-agent MCP resource "@ + debug_text(resources[i].uri@) + ": "@
                        + fault_text(fault),
                ),
                Ok(content) => Ok(
                    if content.len() == 0 {
                        parts
                    } else {
                        parts.push(document_part(resources[i]@, content))
                    },
                ),
            },
        }
    }
}

/// The documents that the agent is told at the start.
pub open spec fn documents(
    resources: Seq<Resource>,
    contents: Seq<Result<String, McpError>>,
) -> Result<Seq<char>, Seq<char>> {
    match document_parts(resources, contents) {
        Err(message) => Err(message),
        Ok(parts) => Ok(joined(parts, "\n\n"@)),
    }
}

/// Describes why the resources could not be listed.
pub fn listing_failure(error: &McpError) -> (r: String)
    ensures
        r@ == "cannot list rs-agent MCP resources: "@ + fault_text(error@),
{
    let mut message = String::from_str("cannot list rs-agent MCP resources: ");
    message.append(error.describe().as_str());
    message
}

/// Takes what the prompt shows of a document.
fn show_document(resource: &Resource, content: &str) -> (r: String)
    ensures
        r@ == document_part(resource@, content@),
{
    let mut part = String::from_str("### ");
    match &resource.name {
        Some(name) => part.append(name.as_str()),
        None => part.append(resource.uri.as_str()),
    }
    part.append("\n");
    part.append(truncate_for_model(content, BOOTSTRAP_DOC_MAX_CHARS).as_str());
    part
}

proof fn lemma_unreadable(
    resources: Seq<Resource>,
    contents: Seq<Result<String, McpError>>,
    n: int,
)
    requires
        0 <= n <= contents.len(),
        document_parts(resources, contents.take(n)) is Err,
    ensures
        document_parts(resources, contents) == document_parts(resources, contents.take(n)),
    decreases contents.len(),
{
    if n < contents.len() {
        assert(contents.drop_last().take(n) =~= contents.take(n));
        lemma_unreadable(resources, contents.drop_last(), n);
    } else {
        assert(contents.take(n) =~= contents);
    }
}

/// Puts the documents together that the agent is told at the start, where `contents` holds what
/// came of reading each resource, in order, up to the first that could not be read.
pub fn compose_documents(
    resources: &Vec<Resource>,
    contents: &Vec<Result<String, McpError>>,
) -> (r: Result<String, String>)
    requires
        contents@.len() <= resources@.len(),
    ensures
        text_result(r) == documents(resources@, contents@),
{
    let mut parts: Vec<String> = Vec::new();
    let mut i: usize = 0;
    assert(contents@.take(0) =~= Seq::<Result<String, McpError>>::empty());
    assert(texts(parts@) =~= Seq::<Seq<char>>::empty());
    while i < contents.len()
        invariant
            contents@.len() <= resources@.len(),
            i <= contents@.len(),
            document_parts(resources@, contents@.take(i as int)) == Ok::<Seq<Seq<char>>, Seq<char>>(
                texts(parts@),
            ),
        decreases contents@.len() - i,
    {
        proof {
            assert(contents@.take(i + 1).drop_last() =~= contents@.take(i as int));
            assert(contents@.take(i + 1)[i as int] == contents@[i as int]);
        }
        match &contents[i] {
            Ok(content) => {
                if !content.as_str().is_empty() {
                    let ghost before = parts@;
                    let part = show_document(&resources[i], content.as_str());
                    let ghost added = part@;
                    parts.push(part);
                    assert(texts(parts@) =~= texts(before).push(added));
                }
            },
            Err(error) => {
                let mut message = String::from_str("cannot read rs-agent MCP resource ");
                message.append(quote_debug(resources[i].uri.as_str()).as_str());
                message.append(": ");
                message.append(error.describe().as_str());
                proof {
                    lemma_unreadable(resources@, contents@, i + 1);
                }
                return Err(message);
            },
        }
        i = i + 1;
    }
    assert(contents@.take(contents@.len() as int) =~= contents@);
    Ok(join(&parts, "\n\n"))
}

/// Reads the documents one after the other, up to the first that cannot be read.
#[derive(Debug, PartialEq, Eq)]
pub struct DocumentReader {
    resources: Vec<Resource>,
    contents: Vec<Result<String, McpError>>,
}

impl DocumentReader {
    /// The resources that there are.
    pub closed spec fn listed(self) -> Seq<Resource> {
        self.resources@
    }

    /// What came of the resources that were read, in order.
    pub closed spec fn read(self) -> Seq<Result<String, McpError>> {
        self.contents@
    }

    #[verifier::type_invariant]
    closed spec fn within_the_list(self) -> bool {
        self.contents@.len() <= self.resources@.len()
    }

    /// The resource that is to be read next: none once all are read, or one could not be read.
    pub open spec fn wanted(self) -> Option<Seq<char>> {
        if self.read().len() < self.listed().len() && (self.read().len() == 0
            || self.read().last() is Ok) {
            Some(self.listed()[self.read().len() as int].uri@)
        } else {
            None
        }
    }

    /// A reader that has read nothing yet.
    pub fn new(resources: Vec<Resource>) -> (r: Self)
        ensures
            r.listed() == resources@,
            r.read().len() == 0,
    {
        DocumentReader { resources, contents: Vec::new() }
    }

    /// The address of the resource that is to be read next.
    pub fn next(&self) -> (r: Option<&str>)
        ensures
            opt_str(r) == self.wanted(),
    {
        let done: usize = self.contents.len();
        if done >= self.resources.len() {
            return None;
        }
        if done > 0 {
            if self.contents[done - 1].is_err() {
                return None;
            }
        }
        Some(self.resources[done].uri.as_str())
    }

    /// Takes what came of reading the next resource. Where none is to be read, it is dropped.
    pub fn add(&mut self, content: Result<String, McpError>)
        ensures
            final(self).listed() == old(self).listed(),
            final(self).read() == (if old(self).wanted() is Some {
                old(self).read().push(content)
            } else {
                old(self).read()
            }),
    {
        if self.next().is_some() {
            let mut contents: Vec<Result<String, McpError>> = Vec::new();
            std::mem::swap(&mut contents, &mut self.contents);
            contents.push(content);
            self.contents = contents;
        }
    }

    /// Puts the documents together.
    pub fn finish(&self) -> (r: Result<String, String>)
        ensures
            text_result(r) == documents(self.listed(), self.read()),
    {
        proof {
            use_type_invariant(self);
        }
        compose_documents(&self.resources, &self.contents)
    }
}

/// The documents, if they were loaded.
pub open spec fn docs_text(docs: Result<String, String>) -> Option<Seq<char>> {
    match docs {
        Ok(docs) => Some(docs@),
        Err(_) => None,
    }
}

/// The documents as far as they are there: a run goes on without them.
pub open spec fn loaded(docs: Option<Seq<char>>) -> Seq<char> {
    match docs {
        Some(docs) => docs,
        None => Seq::empty(),
    }
}

/// What a run is started with.
#[derive(Clone, Debug, PartialEq, Eq)]
pub struct Briefing {
    pub system_prompt: String,
    /// The audit record, which tells whether the documents are in the prompt.
    pub audit: String,
}

/// Makes the system prompt and the audit record of a run, whose documents may not have been
/// loaded.
pub fn brief(profile: &str, policy: &str, docs: &Result<String, String>) -> (r: Briefing)
    ensures
        r.system_prompt@ == prompt_text(profile@, policy@, loaded(docs_text(*docs))),
        r.audit@ == audit_text(docs is Ok),
{
    match docs {
        Ok(docs) => Briefing {
            system_prompt: system_prompt(profile, policy, docs.as_str()),
            audit: audit_record(true),
        },
        Err(_) => {
            let none = String::new();
            assert(none@ =~= Seq::<char>::empty());
            Briefing {
                system_prompt: system_prompt(profile, policy, none.as_str()),
                audit: audit_record(false),
            }
        },
    }
}

// ---------------------------------------------------------------------------------------------
// How a run ends
// ---------------------------------------------------------------------------------------------
/// The audit record of a run.
pub open spec fn audit_text(docs_loaded: bool) -> Seq<char> {
    "{\"policyLoaded\":true,\"docsLoaded\":"@ + bool_text(docs_loaded)
        + ",\"mcpServer\":\"rs-agent\",\"tools\":[\"execute_code\",\"list_bots\",\"disconnect_bot\"],\"bootstrapResources\":[\"rs_agent_list_resources\",\"rs_agent_read_resource\"]}\n"@
}

/// Makes the audit record of a run.
pub fn audit_record(docs_loaded: bool) -> (r: String)
    ensures
        r@ == audit_text(docs_loaded),
{
    let mut record = String::from_str("{\"policyLoaded\":true,\"docsLoaded\":");
    record.append(bool_literal(docs_loaded));
    record.append(
        ",\"mcpServer\":\"rs-agent\",\"tools\":[\"execute_code\",\"list_bots\",\"disconnect_bot\"],\"bootstrapResources\":[\"rs_agent_list_resources\",\"rs_agent_read_resource\"]}\n",
    );
    record
}

/// How the agent ended.
#[derive(Clone, Debug, PartialEq, Eq)]
pub enum AgentEnd {
    Finished,
    /// The agent was cancelled; what it says of that.
    Cancelled(String),
    /// The agent failed; what it says of that.
    Failed(String),
}

/// What a run comes to. To reach the deadline is a normal end: the agent is then cancelled, and
/// the world is judged as it stands.
pub open spec fn run_end(end: AgentEnd, deadline_expired: bool) -> Result<(), Seq<char>> {
    match end {
        AgentEnd::Finished => Ok(()),
        AgentEnd::Cancelled(error) => if deadline_expired {
            Ok(())
        } else {
            Err("pi-agent-core run failed: "@ + error@)
        },
        AgentEnd::Failed(error) => Err("pi-agent-core run failed: "@ + error@),
    }
}

/// Decides what a run comes to.
pub fn run_outcome(end: &AgentEnd, deadline_expired: bool) -> (r: Result<(), String>)
    ensures
        with_message(r) == run_end(*end, deadline_expired),
{
    let error = match end {
        AgentEnd::Finished => return Ok(()),
        AgentEnd::Cancelled(error) => {
            if deadline_expired {
                return Ok(());
            }
            error
        },
        AgentEnd::Failed(error) => error,
    };
    let mut message = String::from_str("pi-agent-core run failed: ");
    message.append(error.as_str());
    Err(message)
}

// ---------------------------------------------------------------------------------------------
// Laws
// ---------------------------------------------------------------------------------------------
/// A section only ever adds to a prompt: what was there stays at its start.
pub proof fn sections_keep_the_prompt(
    prompt: Seq<char>,
    heading: Option<Seq<char>>,
    content: Seq<char>,
)
    ensures
        prompt.is_prefix_of(with_section(prompt, heading, content)),
{
    assert(prompt =~= with_section(prompt, heading, content).subrange(0, prompt.len() as int));
}

/// The system prompt begins with that of the profile, whatever the policy and the documents add.
pub proof fn system_prompts_begin_with_the_profile(
    profile: Seq<char>,
    policy: Seq<char>,
    docs: Seq<char>,
)
    ensures
        profile.is_prefix_of(prompt_text(profile, policy, docs)),
{
    let first = with_section(profile, None, policy);
    let second = with_section(first, Some("## Runebench API reference"@), docs);
    sections_keep_the_prompt(profile, None, policy);
    sections_keep_the_prompt(first, Some("## Runebench API reference"@), docs);
    assert(profile =~= second.subrange(0, profile.len() as int));
}

/// What the prompt shows of a document is bounded, however long the document is.
pub proof fn documents_are_bounded(resource: ResourceText, content: Seq<char>)
    requires
        content.len() <= usize::MAX,
    ensures
        document_part(resource, content).len() <= BOOTSTRAP_DOC_MAX_CHARS + 5 + (
        match resource.name {
            Some(name) => name.len(),
            None => resource.uri.len(),
        }),
{
    reveal_strlit("### ");
    reveal_strlit("\n");
    truncated_is_bounded(content, BOOTSTRAP_DOC_MAX_CHARS as nat);
}

/// A policy can bring in no tool but the known ones, and none without a handler.
pub proof fn only_known_tools_are_declared(name: Seq<char>, handler: Option<Seq<char>>)
    ensures
        declared_handler(name, handler) is Ok <==> policy_tools().contains(name) && handler is Some,
{
}

/// A reader asks for no further document once one could not be read.
pub proof fn reading_ends_with_the_first_failure(reader: DocumentReader)
    requires
        reader.read().len() > 0,
        reader.read().last() is Err,
    ensures
        reader.wanted() is None,
        documents(reader.listed(), reader.read()) is Err,
{
}

/// A run is planned as the command line says: with the model that stands behind the namespace of
/// its provider, and for Command Code with the four facts that the command line states. OpenRouter
/// is told none of them.
pub proof fn runs_are_planned_as_asked(args: ArgsText, model: Seq<char>)
    requires
        trimmed(model).len() > 0,
    ensures
        args.model == "openrouter/"@ + model ==> planned(args) == Ok::<PlanText, Seq<char>>(
            PlanText { provider: ProviderKind::OpenRouter, model, commandcode: None },
        ),
        args.model == "commandcode/"@ + model ==> (match (
            args.commandcode_date,
            args.commandcode_environment,
            args.commandcode_thread_id,
            args.commandcode_project_slug,
        ) {
            (Some(date), Some(environment), Some(thread_id), Some(project_slug)) => if trimmed(
                date,
            ).len() > 0 && trimmed(environment).len() > 0 && trimmed(thread_id).len() > 0
                && trimmed(project_slug).len() > 0 {
                planned(args) == Ok::<PlanText, Seq<char>>(
                    PlanText {
                        provider: ProviderKind::CommandCode,
                        model,
                        commandcode: Some(
                            HostFacts { date, environment, thread_id, project_slug },
                        ),
                    },
                )
            } else {
                planned(args) is Err
            },
            _ => planned(args) is Err,
        }),
{
    model_selection_reads_back(args.model, ProviderKind::OpenRouter, model);
    model_selection_reads_back(args.model, ProviderKind::CommandCode, model);
}

/// The secret of a provider is taken as it is, exactly if it is there and not blank; what is said
/// of a missing one names the variable.
pub proof fn secrets_are_taken_as_they_are(name: Seq<char>, key: Seq<char>)
    ensures
        secret(name, None) == Err::<Seq<char>, Seq<char>>(
            name + " must be supplied by the caller's secret injector"@,
        ),
        trimmed(key).len() > 0 ==> secret(name, Some(key)) == Ok::<Seq<char>, Seq<char>>(key),
        trimmed(key).len() == 0 ==> secret(name, Some(key)) == Err::<Seq<char>, Seq<char>>(
            name + " was empty"@,
        ),
{
}

/// A policy may declare five tools and no other, each with a handler, which is taken as it is.
pub proof fn five_tools_may_be_declared(name: Seq<char>, source: Seq<char>)
    ensures
        ({
            let known = name == "execute_code"@ || name == "list_bots"@ || name == "disconnect_bot"@
                || name == "rs_agent_list_resources"@ || name == "rs_agent_read_resource"@;
            &&& known ==> declared_handler(name, Some(source)) == Ok::<Seq<char>, Seq<char>>(source)
            &&& !known ==> declared_handler(name, Some(source)) == Err::<Seq<char>, Seq<char>>(
                "Runebench policy declared unsupported tool "@ + debug_text(name),
            )
            &&& declared_handler(name, None) is Err
        }),
{
    let tools = policy_tools();
    assert(tools[0] == "execute_code"@);
    assert(tools[1] == "list_bots"@);
    assert(tools[2] == "disconnect_bot"@);
    assert(tools[3] == "rs_agent_list_resources"@);
    assert(tools[4] == "rs_agent_read_resource"@);
}

/// What is said of a preparation that failed ends with the error itself, and names what the
/// preparation was about.
pub proof fn failures_quote_the_error(
    preparation: Preparation,
    subject: Seq<char>,
    error: Seq<char>,
)
    ensures
        error.is_suffix_of(preparation_failure(preparation, subject, error)),
        preparation == Preparation::ReadPolicy ==> preparation_failure(preparation, subject, error)
            == "cannot read Luau policy "@ + subject + ": "@ + error,
        preparation == Preparation::MakeHandler ==> preparation_failure(preparation, subject, error)
            == "cannot construct Luau handler for Runebench tool "@ + debug_text(subject) + ": "@
            + error,
{
    let told = preparation_failure(preparation, subject, error);
    assert(error =~= told.subrange(told.len() - error.len(), told.len() as int));
}

/// The system prompt holds what the profile, the policy and the documents say, in this order, the
/// documents under their heading; what is blank is left out without a trace.
pub proof fn system_prompts_hold_everything(
    profile: Seq<char>,
    policy: Seq<char>,
    docs: Seq<char>,
)
    ensures
        prompt_text(profile, policy, docs) == profile + (if trimmed(policy).len() > 0 {
            "\n\n"@ + trimmed(policy)
        } else {
            Seq::empty()
        }) + (if trimmed(docs).len() > 0 {
            "\n\n## Runebench API reference\n"@ + trimmed(docs)
        } else {
            Seq::empty()
        }),
{
    reveal_strlit("\n\n");
    reveal_strlit("\n");
    reveal_strlit("## Runebench API reference");
    reveal_strlit("\n\n## Runebench API reference\n");
    assert("\n\n## Runebench API reference\n"@ =~= "\n\n"@ + "## Runebench API reference"@ + "\n"@);
    assert(prompt_text(profile, policy, docs) =~= profile + (if trimmed(policy).len() > 0 {
        "\n\n"@ + trimmed(policy)
    } else {
        Seq::empty()
    }) + (if trimmed(docs).len() > 0 {
        "\n\n## Runebench API reference\n"@ + trimmed(docs)
    } else {
        Seq::empty()
    }));
}

/// A document is shown under its name, or under its address where it has none, and whole up to
/// 24000 characters.
pub proof fn documents_are_shown_whole(resource: ResourceText, content: Seq<char>)
    ensures
        ({
            let title = match resource.name {
                Some(name) => name,
                None => resource.uri,
            };
            &&& content.len() <= 24_000 ==> document_part(resource, content) == "### "@ + title
                + "\n"@ + content
            &&& content.len() > 24_000 ==> document_part(resource, content) == "### "@ + title
                + "\n"@ + truncated(content, 24_000)
        }),
{
}

/// Every document adds to those before it: what was read is appended, with a blank line in
/// between, an empty document adds nothing, and one that cannot be read spoils them all with an
/// error that names it.
pub proof fn documents_add_up(
    resources: Seq<Resource>,
    contents: Seq<Result<String, McpError>>,
    next: Result<String, McpError>,
)
    requires
        contents.len() < resources.len(),
    ensures
        documents(resources, Seq::empty()) == Ok::<Seq<char>, Seq<char>>(Seq::empty()),
        documents(resources, contents) matches Err(message) ==> documents(
            resources,
            contents.push(next),
        ) == Err::<Seq<char>, Seq<char>>(message),
        documents(resources, contents) matches Ok(before) ==> match next {
            Err(error) => documents(resources, contents.push(next)) == Err::<Seq<char>, Seq<char>>(
                "cannot read rs-agent MCP resource "@ + debug_text(
                    resources[contents.len() as int].uri@,
                ) + ": "@ + fault_text(error@),
            ),
            Ok(content) => documents(resources, contents.push(next)) == Ok::<Seq<char>, Seq<char>>(
                if content@.len() == 0 {
                    before
                } else if before.len() == 0 {
                    document_part(resources[contents.len() as int]@, content@)
                } else {
                    before + "\n\n"@ + document_part(
                        resources[contents.len() as int]@,
                        content@,
                    )
                },
            ),
        },
{
    let longer = contents.push(next);
    assert(longer.drop_last() =~= contents);
    if let Ok(parts) = document_parts(resources, contents) {
        lemma_parts_are_not_empty(resources, contents);
        if parts.len() > 0 {
            assert(parts[parts.len() - 1].len() > 0);
        }
        if let Ok(content) = next {
            let part = document_part(resources[contents.len() as int]@, content@);
            joined_lists_join(parts, seq![part], part, "\n\n"@);
            assert(parts.push(part) =~= parts + seq![part]);
            if parts.len() == 0 {
                assert(parts + seq![part] =~= seq![part]);
            }
        }
    }
}

proof fn lemma_parts_are_not_empty(
    resources: Seq<Resource>,
    contents: Seq<Result<String, McpError>>,
)
    requires
        document_parts(resources, contents) is Ok,
    ensures
        forall|i: int|
            0 <= i < document_parts(resources, contents)->Ok_0.len() ==> (
            #[trigger] document_parts(resources, contents)->Ok_0[i]).len() > 0,
    decreases contents.len(),
{
    reveal_strlit("### ");
    if contents.len() > 0 {
        lemma_parts_are_not_empty(resources, contents.drop_last());
    }
}

/// The resources are read in the order of the list, each by its own address, until all are read or
/// one could not be.
pub proof fn documents_are_read_in_order(reader: DocumentReader)
    ensures
        reader.read().len() < reader.listed().len() && (reader.read().len() == 0
            || reader.read().last() is Ok) ==> reader.wanted() == Some(
            reader.listed()[reader.read().len() as int].uri@,
        ),
        reader.read().len() >= reader.listed().len() ==> reader.wanted() is None,
{
}

/// The audit record is read as what it tells: that the policy was loaded, whether the documents
/// were, and which server, tools and resources there are.
#[verifier::spinoff_prover]
#[verifier::rlimit(40)]
pub proof fn audit_records_read_back(docs_loaded: bool)
    ensures
        audit_text(docs_loaded).last() == '\n',
        read_json(audit_text(docs_loaded).drop_last()) == Some(
            Tree::Object(
                seq![
                    ("policyLoaded"@, Tree::Bool(true)),
                    ("docsLoaded"@, Tree::Bool(docs_loaded)),
                    ("mcpServer"@, Tree::Text("rs-agent"@)),
                    (
                        "tools"@,
                        Tree::Array(
                            seq![
                                Tree::Text("execute_code"@),
                                Tree::Text("list_bots"@),
                                Tree::Text("disconnect_bot"@),
                            ],
                        ),
                    ),
                    (
                        "bootstrapResources"@,
                        Tree::Array(
                            seq![
                                Tree::Text("rs_agent_list_resources"@),
                                Tree::Text("rs_agent_read_resource"@),
                            ],
                        ),
                    ),
                ],
            ),
        ),
{
    lemma_audit_text(docs_loaded);
    lemma_audit_object(docs_loaded);
    reveal_strlit("\n");
    let whole = audit_object(docs_loaded);
    assert(audit_text(docs_loaded).drop_last() =~= whole);
    let told = Tree::Object(
        seq![
            ("policyLoaded"@, Tree::Bool(true)),
            ("docsLoaded"@, Tree::Bool(docs_loaded)),
            ("mcpServer"@, Tree::Text("rs-agent"@)),
            ("tools"@, Tree::Array(audit_tool_trees())),
            ("bootstrapResources"@, Tree::Array(audit_resource_trees())),
        ],
    );
    lemma_read_alone(whole, told);
}

/// The audit record without its line break.
spec fn audit_object(docs_loaded: bool) -> Seq<char> {
    "{"@ + member_text("policyLoaded"@, "true"@) + ","@ + member_text(
        "docsLoaded"@,
        bool_text(docs_loaded),
    ) + ","@ + member_text("mcpServer"@, literal("rs-agent"@)) + ","@ + member_text(
        "tools"@,
        audit_tools(),
    ) + ","@ + member_text("bootstrapResources"@, audit_resources()) + "}"@
}

#[verifier::spinoff_prover]
#[verifier::rlimit(40)]
proof fn lemma_audit_text(docs_loaded: bool)
    ensures
        audit_text(docs_loaded) == audit_object(docs_loaded) + "\n"@,
{
    lemma_audit_tail();
    reveal_strlit("{\"policyLoaded\":true,\"docsLoaded\":");
    reveal_strlit("policyLoaded");
    reveal_strlit("docsLoaded");
    reveal_strlit("true");
    reveal_strlit("{");
    reveal_strlit(",");
    reveal_strlit(":");
    let flag = bool_text(docs_loaded);
    let head = "{"@ + member_text("policyLoaded"@, "true"@) + ","@ + literal("docsLoaded"@) + ":"@;
    assert("{\"policyLoaded\":true,\"docsLoaded\":"@ =~= head);
    assert(head + flag =~= "{"@ + member_text("policyLoaded"@, "true"@) + ","@ + member_text(
        "docsLoaded"@,
        flag,
    ));
    lemma_grouping(
        head + flag,
        member_text("mcpServer"@, literal("rs-agent"@)),
        member_text("tools"@, audit_tools()),
        member_text("bootstrapResources"@, audit_resources()),
    );
}

proof fn lemma_grouping(head: Seq<char>, a: Seq<char>, b: Seq<char>, c: Seq<char>)
    ensures
        head + (","@ + a + ","@ + b + ","@ + c + "}"@ + "\n"@) == head + ","@ + a + ","@ + b + ","@
            + c + "}"@ + "\n"@,
{
    assert(head + (","@ + a + ","@ + b + ","@ + c + "}"@ + "\n"@) =~= head + ","@ + a + ","@ + b
        + ","@ + c + "}"@ + "\n"@);
}

#[verifier::spinoff_prover]
#[verifier::rlimit(40)]
proof fn lemma_audit_object(docs_loaded: bool)
    ensures
        stands_for(
            audit_object(docs_loaded),
            Tree::Object(
                seq![
                    ("policyLoaded"@, Tree::Bool(true)),
                    ("docsLoaded"@, Tree::Bool(docs_loaded)),
                    ("mcpServer"@, Tree::Text("rs-agent"@)),
                    ("tools"@, Tree::Array(audit_tool_trees())),
                    ("bootstrapResources"@, Tree::Array(audit_resource_trees())),
                ],
            ),
        ),
{
    lemma_names();
    lemma_audit_tools();
    lemma_audit_resources();
    reveal_strlit("policyLoaded");
    reveal_strlit("docsLoaded");
    reveal_strlit("mcpServer");
    reveal_strlit("rs-agent");
    reveal_strlit("tools");
    reveal_strlit("bootstrapResources");
    lemma_literal("rs-agent"@);
    lemma_object_of_five(
        ("policyLoaded"@, "true"@, Tree::Bool(true)),
        ("docsLoaded"@, bool_text(docs_loaded), Tree::Bool(docs_loaded)),
        ("mcpServer"@, literal("rs-agent"@), Tree::Text("rs-agent"@)),
        ("tools"@, audit_tools(), Tree::Array(audit_tool_trees())),
        ("bootstrapResources"@, audit_resources(), Tree::Array(audit_resource_trees())),
    );
}

spec fn audit_tools() -> Seq<char> {
    "["@ + literal("execute_code"@) + ","@ + literal("list_bots"@) + ","@ + literal(
        "disconnect_bot"@,
    ) + "]"@
}

spec fn audit_tool_trees() -> Seq<Tree> {
    seq![
        Tree::Text("execute_code"@),
        Tree::Text("list_bots"@),
        Tree::Text("disconnect_bot"@),
    ]
}

spec fn audit_resources() -> Seq<char> {
    "["@ + literal("rs_agent_list_resources"@) + ","@ + literal("rs_agent_read_resource"@) + "]"@
}

spec fn audit_resource_trees() -> Seq<Tree> {
    seq![Tree::Text("rs_agent_list_resources"@), Tree::Text("rs_agent_read_resource"@)]
}

#[verifier::spinoff_prover]
#[verifier::rlimit(40)]
proof fn lemma_audit_tools()
    ensures
        stands_for(audit_tools(), Tree::Array(audit_tool_trees())),
{
    reveal_strlit("execute_code");
    reveal_strlit("list_bots");
    reveal_strlit("disconnect_bot");
    lemma_literal("execute_code"@);
    lemma_literal("list_bots"@);
    lemma_literal("disconnect_bot"@);
    let one = seq![literal("execute_code"@)];
    let two = one.push(literal("list_bots"@));
    let parts = two.push(literal("disconnect_bot"@));
    lemma_array(parts, audit_tool_trees());
    assert(parts.drop_last() =~= two);
    assert(two.drop_last() =~= one);
    assert(joined(one, ","@) == literal("execute_code"@));
    assert(joined(two, ","@) == literal("execute_code"@) + ","@ + literal("list_bots"@));
    assert("["@ + joined(parts, ","@) + "]"@ =~= audit_tools());
}

proof fn lemma_audit_resources()
    ensures
        stands_for(audit_resources(), Tree::Array(audit_resource_trees())),
{
    reveal_strlit("rs_agent_list_resources");
    reveal_strlit("rs_agent_read_resource");
    lemma_literal("rs_agent_list_resources"@);
    lemma_literal("rs_agent_read_resource"@);
    let one = seq![literal("rs_agent_list_resources"@)];
    let parts = one.push(literal("rs_agent_read_resource"@));
    lemma_array(parts, audit_resource_trees());
    assert(parts.drop_last() =~= one);
    assert(joined(one, ","@) == literal("rs_agent_list_resources"@));
    assert("["@ + joined(parts, ","@) + "]"@ =~= audit_resources());
}

#[verifier::spinoff_prover]
#[verifier::rlimit(40)]
proof fn lemma_audit_tail()
    ensures
        ",\"mcpServer\":\"rs-agent\",\"tools\":[\"execute_code\",\"list_bots\",\"disconnect_bot\"],\"bootstrapResources\":[\"rs_agent_list_resources\",\"rs_agent_read_resource\"]}\n"@
            == ","@ + member_text("mcpServer"@, literal("rs-agent"@)) + ","@ + member_text(
            "tools"@,
            audit_tools(),
        ) + ","@ + member_text("bootstrapResources"@, audit_resources()) + "}"@ + "\n"@,
{
    reveal_strlit("mcpServer");
    reveal_strlit("rs-agent");
    reveal_strlit("tools");
    reveal_strlit("bootstrapResources");
    reveal_strlit("execute_code");
    reveal_strlit("list_bots");
    reveal_strlit("disconnect_bot");
    reveal_strlit("rs_agent_list_resources");
    reveal_strlit("rs_agent_read_resource");
    reveal_strlit("[");
    reveal_strlit("]");
    reveal_strlit("}");
    reveal_strlit(",");
    reveal_strlit(":");
    reveal_strlit("\n");
    reveal_strlit(
        ",\"mcpServer\":\"rs-agent\",\"tools\":[\"execute_code\",\"list_bots\",\"disconnect_bot\"],\"bootstrapResources\":[\"rs_agent_list_resources\",\"rs_agent_read_resource\"]}\n",
    );
    assert(",\"mcpServer\":\"rs-agent\",\"tools\":[\"execute_code\",\"list_bots\",\"disconnect_bot\"],\"bootstrapResources\":[\"rs_agent_list_resources\",\"rs_agent_read_resource\"]}\n"@
        =~= ","@ + member_text("mcpServer"@, literal("rs-agent"@)) + ","@ + member_text(
        "tools"@,
        audit_tools(),
    ) + ","@ + member_text("bootstrapResources"@, audit_resources()) + "}"@ + "\n"@);
}

/// An agent that finished ends its run well, and so does one that was cancelled at the deadline.
/// Any other end fails the run, with what the agent said of it.
pub proof fn runs_end_as_the_agent_did(error: String, deadline_expired: bool)
    ensures
        run_end(AgentEnd::Finished, deadline_expired) is Ok,
        run_end(AgentEnd::Cancelled(error), true) is Ok,
        run_end(AgentEnd::Cancelled(error), false) == Err::<(), Seq<char>>(
            "pi-agent-core run failed: "@ + error@,
        ),
        run_end(AgentEnd::Failed(error), deadline_expired) == Err::<(), Seq<char>>(
            "pi-agent-core run failed: "@ + error@,
        ),
{
}

}
