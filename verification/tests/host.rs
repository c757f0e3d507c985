//! The command line, the provider, the prompt and the outcome of a run.
use runebench_pi_agent::args::{commandcode_request_context, Args};
use runebench_pi_agent::host::{
    append_section, audit_record, brief, check_api_key, check_declaration, compose_documents,
    describe_failure, listing_failure, plan_run, run_outcome, system_prompt, tool_environment,
    AgentEnd, DocumentReader, Preparation, BOOTSTRAP_DOC_MAX_CHARS,
};
use runebench_pi_agent::mcp::{McpError, Resource};
use runebench_pi_agent::provider::{parse_model, ProviderKind};

fn words(line: &[&str]) -> Vec<String> {
    line.iter().map(|word| (*word).to_owned()).collect()
}

const COMPLETE: [&str; 10] = [
    "--model",
    "openrouter/m",
    "--instruction",
    "do it",
    "--workspace",
    "/app",
    "--policy",
    "/policy.luau",
    "--log-jsonl",
    "/logs/a.jsonl",
];

fn parse_with(extra: &[&str]) -> Result<Args, String> {
    let mut line = words(&COMPLETE);
    line.extend(words(extra));
    Args::parse(&line)
}

#[test]
fn commandcode_namespace_requires_explicit_host_context() {
    let (provider, model) =
        parse_model("commandcode/poolside/laguna-s-2.1-free").expect("model parses");
    assert_eq!(provider, ProviderKind::CommandCode);
    assert_eq!(model, "poolside/laguna-s-2.1-free");
    assert!(parse_model("poolside/laguna-s-2.1-free").is_err());

    let args = Args {
        model: "commandcode/poolside/laguna-s-2.1-free".into(),
        instruction: "test".into(),
        workspace: "/app".into(),
        policy: "/policy.luau".into(),
        log_jsonl: "/logs/agent.jsonl".into(),
        run_deadline: None,
        commandcode_date: Some("2026-08-14".into()),
        commandcode_environment: Some("linux".into()),
        commandcode_thread_id: Some("b51a3243-2dd9-4c81-b659-a039645b7d4e".into()),
        commandcode_project_slug: Some("runebench".into()),
    };
    let context = commandcode_request_context(&args).expect("explicit context parses");
    assert_eq!(context.date, "2026-08-14");
    assert_eq!(context.environment, "linux");
    assert_eq!(context.project_slug, "runebench");
}

#[test]
fn every_missing_commandcode_fact_is_named() {
    let flags = [
        ("--commandcode-date", "2026-08-14"),
        ("--commandcode-environment", "linux"),
        ("--commandcode-thread-id", "t"),
        ("--commandcode-project-slug", "s"),
    ];
    for missing in 0..flags.len() {
        let mut extra = Vec::new();
        for (i, (flag, value)) in flags.iter().enumerate() {
            extra.push(*flag);
            extra.push(if i == missing { " \t" } else { *value });
        }
        let args = parse_with(&extra).expect("blank facts are accepted on the command line");
        assert_eq!(
            commandcode_request_context(&args),
            Err(format!("commandcode models require {}", flags[missing].0))
        );
    }
}

#[test]
fn arguments_are_read() {
    let args = parse_with(&["--deadline-seconds", "90", "--unknown", "x"]).expect("args parse");
    assert_eq!(args.model, "openrouter/m");
    assert_eq!(args.instruction, "do it");
    assert_eq!(args.workspace, "/app");
    assert_eq!(args.policy, "/policy.luau");
    assert_eq!(args.log_jsonl, "/logs/a.jsonl");
    assert_eq!(args.run_deadline, Some(90));
    assert_eq!(args.commandcode_date, None);
}

#[test]
fn the_order_of_flags_does_not_matter() {
    let mut swapped = COMPLETE;
    swapped.swap(2, 4);
    swapped.swap(3, 5);
    assert_eq!(Args::parse(&words(&swapped)), Args::parse(&words(&COMPLETE)));
}

#[test]
fn bad_command_lines_are_refused() {
    assert_eq!(
        Args::parse(&words(&["run\"it"])),
        Err("unexpected positional argument \"run\\\"it\"".to_owned())
    );
    assert_eq!(
        Args::parse(&words(&["--model"])),
        Err("missing value for --model".to_owned())
    );
    assert_eq!(
        parse_with(&["--model", "x"]),
        Err("argument --model must not repeat".to_owned())
    );
    assert_eq!(
        Args::parse(&words(&["--model", ""])),
        Err("missing required argument --model".to_owned())
    );
    for missing in [0, 2, 4, 6, 8] {
        let mut line = words(&COMPLETE);
        line.drain(missing..missing + 2);
        assert_eq!(
            Args::parse(&line),
            Err(format!("missing required argument {}", COMPLETE[missing]))
        );
    }
    for value in ["0", "-1", "1.5", "", "18446744073709551616"] {
        assert_eq!(
            parse_with(&["--deadline-seconds", value]),
            Err("--deadline-seconds must be a positive whole number of seconds".to_owned())
        );
    }
}

#[test]
fn help_is_asked_for_by_either_flag() {
    assert!(Args::wants_help(&words(&["--model", "-h"])));
    assert!(Args::wants_help(&words(&["--help"])));
    assert!(!Args::wants_help(&words(&["--helpful"])));
    assert!(Args::usage().starts_with("usage: runebench-pi-agent --model "));
}

#[test]
fn model_names_select_a_provider() {
    assert_eq!(
        parse_model("openrouter/a/b"),
        Ok((ProviderKind::OpenRouter, "a/b".to_owned()))
    );
    assert_eq!(
        parse_model("gpt"),
        Err("--model must use the openrouter/<model> or commandcode/<model> namespace".to_owned())
    );
    assert_eq!(
        parse_model("openrouter/ "),
        Err("--model must include a provider model name".to_owned())
    );
    assert_eq!(ProviderKind::OpenRouter.descriptor_name(), "openrouter");
    assert_eq!(ProviderKind::CommandCode.descriptor_name(), "command-code");
    assert_eq!(ProviderKind::OpenRouter.api_key_name(), "OPENROUTER_API_KEY");
    assert_eq!(ProviderKind::CommandCode.api_key_name(), "COMMANDCODE_API_KEY");
}

#[test]
fn runs_are_planned_by_their_model() {
    let args = parse_with(&[]).expect("args parse");
    let plan = plan_run(&args).expect("plan");
    assert_eq!(plan.provider, ProviderKind::OpenRouter);
    assert_eq!(plan.model, "m");
    assert_eq!(plan.commandcode, None);
    let mut other = args.clone();
    other.model = "commandcode/m".to_owned();
    assert_eq!(
        plan_run(&other),
        Err("commandcode models require --commandcode-date".to_owned())
    );
    other.commandcode_date = Some("d".to_owned());
    other.commandcode_environment = Some("e".to_owned());
    other.commandcode_thread_id = Some("t".to_owned());
    other.commandcode_project_slug = Some("p".to_owned());
    let context = plan_run(&other).expect("plan").commandcode.expect("context");
    assert_eq!(context.thread_id, "t");
    other.model = "m".to_owned();
    assert!(plan_run(&other).is_err());
}

#[test]
fn secrets_must_be_there() {
    assert_eq!(
        check_api_key("OPENROUTER_API_KEY", None),
        Err("OPENROUTER_API_KEY must be supplied by the caller's secret injector".to_owned())
    );
    assert_eq!(
        check_api_key("OPENROUTER_API_KEY", Some("\n ".to_owned())),
        Err("OPENROUTER_API_KEY was empty".to_owned())
    );
    assert_eq!(
        check_api_key("OPENROUTER_API_KEY", Some(" k ".to_owned())),
        Ok(" k ".to_owned())
    );
}

#[test]
fn policies_declare_known_tools_with_handlers() {
    let handler = Some("return function() end".to_owned());
    for name in [
        "execute_code",
        "list_bots",
        "disconnect_bot",
        "rs_agent_list_resources",
        "rs_agent_read_resource",
    ] {
        assert_eq!(
            check_declaration(name, &handler),
            Ok("return function() end".to_owned())
        );
    }
    assert_eq!(
        check_declaration("shell", &handler),
        Err("Runebench policy declared unsupported tool \"shell\"".to_owned())
    );
    assert_eq!(
        check_declaration("list_bots", &None),
        Err("Runebench policy tool \"list_bots\" must declare a coroutine handler_source".to_owned())
    );
}

#[test]
fn sections_are_appended_to_the_prompt() {
    let mut prompt = "base".to_owned();
    append_section(&mut prompt, Some("## H"), " \n");
    assert_eq!(prompt, "base");
    append_section(&mut prompt, None, " one ");
    append_section(&mut prompt, Some("## H"), "two\n");
    assert_eq!(prompt, "base\n\none\n\n## H\ntwo");
    assert_eq!(
        system_prompt("base", "policy", "docs"),
        "base\n\npolicy\n\n## Runebench API reference\ndocs"
    );
    assert_eq!(system_prompt("base", "", ""), "base");
}

fn resource(uri: &str, name: Option<&str>) -> Resource {
    Resource {
        uri: uri.to_owned(),
        name: name.map(str::to_owned),
        description: None,
        mime_type: None,
    }
}

#[test]
fn documents_are_put_together() {
    let resources = vec![
        resource("doc://a", Some("A")),
        resource("doc://b", None),
        resource("doc://c", None),
    ];
    let contents = vec![Ok("first".to_owned()), Ok(String::new()), Ok("third".to_owned())];
    assert_eq!(
        compose_documents(&resources, &contents),
        Ok("### A\nfirst\n\n### doc://c\nthird".to_owned())
    );
    let broken = vec![Ok("first".to_owned()), Err(McpError::Cancelled)];
    assert_eq!(
        compose_documents(&resources, &broken),
        Err("cannot read rs-agent MCP resource \"doc://b\": MCP operation cancelled".to_owned())
    );
    assert_eq!(compose_documents(&resources, &Vec::new()), Ok(String::new()));
    assert_eq!(
        listing_failure(&McpError::Cancelled),
        "cannot list rs-agent MCP resources: MCP operation cancelled"
    );
    let long = vec![Ok("z".repeat(30_000))];
    let shown = compose_documents(&resources, &long).expect("documents");
    assert_eq!(shown.chars().count(), BOOTSTRAP_DOC_MAX_CHARS + 6);
}

#[test]
fn documents_are_read_up_to_the_first_failure() {
    let resources = || {
        vec![
            resource("doc://a", Some("A")),
            resource("doc://b", None),
            resource("doc://c", None),
        ]
    };
    let mut reader = DocumentReader::new(resources());
    assert_eq!(reader.next(), Some("doc://a"));
    reader.add(Ok("first".to_owned()));
    assert_eq!(reader.next(), Some("doc://b"));
    reader.add(Err(McpError::Cancelled));
    assert_eq!(reader.next(), None);
    reader.add(Ok("late".to_owned()));
    assert_eq!(
        reader.finish(),
        Err("cannot read rs-agent MCP resource \"doc://b\": MCP operation cancelled".to_owned())
    );
    let mut reader = DocumentReader::new(resources());
    for text in ["1", "2", "3"] {
        reader.add(Ok(text.to_owned()));
    }
    assert_eq!(reader.next(), None);
    assert_eq!(
        reader.finish(),
        Ok("### A\n1\n\n### doc://b\n2\n\n### doc://c\n3".to_owned())
    );
}

#[test]
fn a_run_goes_on_without_its_documents() {
    let told = brief("base", "policy", &Ok("docs".to_owned()));
    assert_eq!(told.system_prompt, system_prompt("base", "policy", "docs"));
    assert_eq!(told.audit, audit_record(true));
    let untold = brief("base", "policy", &Err("no".to_owned()));
    assert_eq!(untold.system_prompt, "base\n\npolicy");
    assert_eq!(untold.audit, audit_record(false));
}

#[test]
fn the_audit_record_tells_of_the_documents() {
    assert_eq!(
        audit_record(false),
        "{\"policyLoaded\":true,\"docsLoaded\":false,\"mcpServer\":\"rs-agent\",\"tools\":[\"execute_code\",\"list_bots\",\"disconnect_bot\"],\"bootstrapResources\":[\"rs_agent_list_resources\",\"rs_agent_read_resource\"]}\n"
    );
    assert!(audit_record(true).contains("\"docsLoaded\":true,"));
}

#[test]
fn reaching_the_deadline_is_a_normal_end() {
    assert_eq!(run_outcome(&AgentEnd::Finished, false), Ok(()));
    assert_eq!(run_outcome(&AgentEnd::Finished, true), Ok(()));
    assert_eq!(run_outcome(&AgentEnd::Cancelled("cancelled".to_owned()), true), Ok(()));
    assert_eq!(
        run_outcome(&AgentEnd::Cancelled("cancelled".to_owned()), false),
        Err("pi-agent-core run failed: cancelled".to_owned())
    );
    assert_eq!(
        run_outcome(&AgentEnd::Failed("boom".to_owned()), true),
        Err("pi-agent-core run failed: boom".to_owned())
    );
}

#[test]
fn failures_before_the_start_are_described() {
    let cases = [
        (Preparation::ReadPolicy, "cannot read Luau policy s: e"),
        (Preparation::LoadPolicy, "e"),
        (Preparation::Connect, "cannot start rs-agent MCP client: e"),
        (Preparation::MakeCapability, "e"),
        (Preparation::BindCapability, "cannot bind rs-agent MCP capability: e"),
        (Preparation::MakeTools, "cannot construct workspace tools: e"),
        (Preparation::LoadProfile, "cannot load pinned Pi default profile: e"),
        (Preparation::BindProfile, "pinned Pi profile did not bind: e"),
        (Preparation::MakeHandler, "cannot construct Luau handler for Runebench tool \"s\": e"),
        (Preparation::WriteAudit, "cannot write agent-core audit: e"),
        (Preparation::DescribeHost, "invalid Command Code host context: e"),
        (Preparation::ConfigureProvider, "invalid Command Code configuration: e"),
        (Preparation::MakeLogDirectory, "cannot create event-log directory: e"),
        (Preparation::CreateLog, "cannot create event log: e"),
        (Preparation::StartAgent, "cannot start Runebench agent: e"),
    ];
    for (preparation, text) in cases {
        assert_eq!(describe_failure(preparation, "s", "e"), text);
    }
}

#[test]
fn shell_tools_get_a_path_and_no_secret() {
    assert_eq!(
        tool_environment(),
        vec![(
            "PATH".to_owned(),
            "/root/.bun/bin:/usr/local/bin:/usr/bin:/bin".to_owned()
        )]
    );
}
