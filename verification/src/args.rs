//! The command line of the host.
use crate::text::{
    debug_text, is_blank, opt_text, parse_unsigned, quote_debug, same_text, starts_with, texts,
    trimmed, unsigned_value,
};
use vstd::prelude::*;
use vstd::string::*;

verus! {

/// What the command line says.
#[derive(Clone, Debug, PartialEq, Eq)]
pub struct Args {
    /// The model with its provider namespace.
    pub model: String,
    /// The instruction for the agent.
    pub instruction: String,
    /// The path of the workspace directory.
    pub workspace: String,
    /// The path of the policy file.
    pub policy: String,
    /// The path of the event log.
    pub log_jsonl: String,
    /// After how many seconds the run is to end, if at all.
    pub run_deadline: Option<u64>,
    pub commandcode_date: Option<String>,
    pub commandcode_environment: Option<String>,
    pub commandcode_thread_id: Option<String>,
    pub commandcode_project_slug: Option<String>,
}

/// The content of [`Args`].
#[verifier::ext_equal]
pub struct ArgsText {
    pub model: Seq<char>,
    pub instruction: Seq<char>,
    pub workspace: Seq<char>,
    pub policy: Seq<char>,
    pub log_jsonl: Seq<char>,
    pub run_deadline: Option<u64>,
    pub commandcode_date: Option<Seq<char>>,
    pub commandcode_environment: Option<Seq<char>>,
    pub commandcode_thread_id: Option<Seq<char>>,
    pub commandcode_project_slug: Option<Seq<char>>,
}

impl Args {
    /// The content of the arguments.
    pub open spec fn view(&self) -> ArgsText {
        ArgsText {
            model: self.model@,
            instruction: self.instruction@,
            workspace: self.workspace@,
            policy: self.policy@,
            log_jsonl: self.log_jsonl@,
            run_deadline: self.run_deadline,
            commandcode_date: opt_text(self.commandcode_date),
            commandcode_environment: opt_text(self.commandcode_environment),
            commandcode_thread_id: opt_text(self.commandcode_thread_id),
            commandcode_project_slug: opt_text(self.commandcode_project_slug),
        }
    }
}

// ---------------------------------------------------------------------------------------------
// Flags and their values
// ---------------------------------------------------------------------------------------------
/// The values of the flags of a command line, which come on top of those already known: each
/// flag begins with two dashes, has a value and does not repeat.
pub open spec fn flag_values(
    arguments: Seq<Seq<char>>,
    known: Map<Seq<char>, Seq<char>>,
) -> Result<Map<Seq<char>, Seq<char>>, Seq<char>>
    decreases arguments.len(),
{
    if arguments.len() == 0 {
        Ok(known)
    } else if !"--"@.is_prefix_of(arguments[0]) {
        Err("unexpected positional argument "@ + debug_text(arguments[0]))
    } else if arguments.len() == 1 {
        Err("missing value for "@ + arguments[0])
    } else if known.contains_key(arguments[0]) {
        Err("argument "@ + arguments[0] + " must not repeat"@)
    } else {
        flag_values(arguments.skip(2), known.insert(arguments[0], arguments[1]))
    }
}

/// The value of a flag, if it was given.
pub open spec fn flag_value(values: Map<Seq<char>, Seq<char>>, flag: Seq<char>) -> Option<
    Seq<char>,
> {
    if values.contains_key(flag) {
        Some(values[flag])
    } else {
        None
    }
}

/// Whether a flag was given a value that is not empty.
pub open spec fn given(values: Map<Seq<char>, Seq<char>>, flag: Seq<char>) -> bool {
    values.contains_key(flag) && values[flag].len() > 0
}

/// The first required flag that was not given.
pub open spec fn missing_flag(values: Map<Seq<char>, Seq<char>>) -> Option<Seq<char>> {
    if !given(values, "--model"@) {
        Some("--model"@)
    } else if !given(values, "--instruction"@) {
        Some("--instruction"@)
    } else if !given(values, "--workspace"@) {
        Some("--workspace"@)
    } else if !given(values, "--policy"@) {
        Some("--policy"@)
    } else if !given(values, "--log-jsonl"@) {
        Some("--log-jsonl"@)
    } else {
        None
    }
}

/// The deadline in seconds: a positive whole number, if one was given.
pub open spec fn deadline(values: Map<Seq<char>, Seq<char>>) -> Result<Option<u64>, Seq<char>> {
    match flag_value(values, "--deadline-seconds"@) {
        None => Ok(None),
        Some(value) => match unsigned_value(value, u64::MAX as nat) {
            Some(seconds) => if seconds > 0 {
                Ok(Some(seconds as u64))
            } else {
                Err("--deadline-seconds must be a positive whole number of seconds"@)
            },
            None => Err("--deadline-seconds must be a positive whole number of seconds"@),
        },
    }
}

/// What the values of the flags say.
pub open spec fn args_of(values: Map<Seq<char>, Seq<char>>) -> Result<ArgsText, Seq<char>> {
    match deadline(values) {
        Err(message) => Err(message),
        Ok(run_deadline) => match missing_flag(values) {
            Some(flag) => Err("missing required argument "@ + flag),
            None => Ok(
                ArgsText {
                    model: values["--model"@],
                    instruction: values["--instruction"@],
                    workspace: values["--workspace"@],
                    policy: values["--policy"@],
                    log_jsonl: values["--log-jsonl"@],
                    run_deadline,
                    commandcode_date: flag_value(values, "--commandcode-date"@),
                    commandcode_environment: flag_value(values, "--commandcode-environment"@),
                    commandcode_thread_id: flag_value(values, "--commandcode-thread-id"@),
                    commandcode_project_slug: flag_value(values, "--commandcode-project-slug"@),
                },
            ),
        },
    }
}

/// What a command line says.
pub open spec fn parsed_args(arguments: Seq<Seq<char>>) -> Result<ArgsText, Seq<char>> {
    match flag_values(arguments, Map::empty()) {
        Ok(values) => args_of(values),
        Err(message) => Err(message),
    }
}

/// The content of parsed arguments.
pub open spec fn args_result(r: Result<Args, String>) -> Result<ArgsText, Seq<char>> {
    match r {
        Ok(args) => Ok(args@),
        Err(message) => Err(message@),
    }
}

/// The values of a list of flags.
spec fn table(entries: Seq<(String, String)>) -> Map<Seq<char>, Seq<char>>
    decreases entries.len(),
{
    if entries.len() == 0 {
        Map::empty()
    } else {
        table(entries.drop_last()).insert(entries.last().0@, entries.last().1@)
    }
}

/// Looks a flag up.
fn lookup(entries: &Vec<(String, String)>, flag: &str) -> (r: Option<String>)
    ensures
        opt_text(r) == flag_value(table(entries@), flag@),
{
    let mut i: usize = entries.len();
    assert(entries@.take(i as int) =~= entries@);
    while i > 0
        invariant
            i <= entries@.len(),
            flag_value(table(entries@), flag@) == flag_value(
                table(entries@.take(i as int)),
                flag@,
            ),
        decreases i,
    {
        proof {
            assert(entries@.take(i as int).drop_last() =~= entries@.take(i - 1));
            assert(entries@.take(i as int).last() == entries@[i - 1]);
        }
        if same_text(entries[i - 1].0.as_str(), flag) {
            return Some(entries[i - 1].1.clone());
        }
        i = i - 1;
    }
    None
}

/// Looks up a flag that must be given a value that is not empty.
fn required(entries: &Vec<(String, String)>, flag: &str) -> (r: Result<String, String>)
    ensures
        r is Ok <==> given(table(entries@), flag@),
        r matches Ok(value) ==> value@ == table(entries@)[flag@],
        r matches Err(message) ==> message@ == "missing required argument "@ + flag@,
{
    match lookup(entries, flag) {
        Some(value) => if !value.as_str().is_empty() {
            return Ok(value);
        },
        None => {},
    }
    let mut message = String::from_str("missing required argument ");
    message.append(flag);
    Err(message)
}

/// Reads the flags of a command line.
fn flags(arguments: &Vec<String>) -> (r: Result<Vec<(String, String)>, String>)
    ensures
        match r {
            Ok(entries) => flag_values(texts(arguments@), Map::empty()) == Ok::<
                Map<Seq<char>, Seq<char>>,
                Seq<char>,
            >(table(entries@)),
            Err(message) => flag_values(texts(arguments@), Map::empty()) == Err::<
                Map<Seq<char>, Seq<char>>,
                Seq<char>,
            >(message@),
        },
{
    let mut entries: Vec<(String, String)> = Vec::new();
    let mut i: usize = 0;
    let ghost all = texts(arguments@);
    assert(all.skip(0) =~= all);
    while i < arguments.len()
        invariant
            i <= arguments@.len(),
            all == texts(arguments@),
            flag_values(all, Map::empty()) == flag_values(all.skip(i as int), table(entries@)),
        decreases arguments@.len() - i,
    {
        let flag = &arguments[i];
        proof {
            assert(all.skip(i as int)[0] == flag@);
        }
        if !starts_with(flag.as_str(), "--") {
            let mut message = String::from_str("unexpected positional argument ");
            message.append(quote_debug(flag.as_str()).as_str());
            return Err(message);
        }
        if i + 1 == arguments.len() {
            let mut message = String::from_str("missing value for ");
            message.append(flag.as_str());
            return Err(message);
        }
        if lookup(&entries, flag.as_str()).is_some() {
            let mut message = String::from_str("argument ");
            message.append(flag.as_str());
            message.append(" must not repeat");
            return Err(message);
        }
        let ghost before = entries@;
        proof {
            assert(all.skip(i as int)[1] == arguments@[i + 1]@);
            assert(all.skip(i as int).skip(2) =~= all.skip(i + 2));
        }
        entries.push((flag.clone(), arguments[i + 1].clone()));
        assert(entries@.drop_last() =~= before);
        i = i + 2;
    }
    assert(all.skip(i as int) =~= Seq::<Seq<char>>::empty());
    Ok(entries)
}

impl Args {
    /// Reads the command line, given the arguments after the name of the program. Flags that
    /// mean nothing to the host are taken and ignored.
    pub fn parse(arguments: &Vec<String>) -> (r: Result<Args, String>)
        ensures
            args_result(r) == parsed_args(texts(arguments@)),
    {
        let values = match flags(arguments) {
            Ok(values) => values,
            Err(message) => return Err(message),
        };
        let run_deadline: Option<u64> = match lookup(&values, "--deadline-seconds") {
            None => None,
            Some(value) => match parse_unsigned(value.as_str(), u64::MAX) {
                Some(seconds) if seconds > 0 => Some(seconds),
                _ => return Err(
                    String::from_str(
                        "--deadline-seconds must be a positive whole number of seconds",
                    ),
                ),
            },
        };
        let commandcode_date = lookup(&values, "--commandcode-date");
        let commandcode_environment = lookup(&values, "--commandcode-environment");
        let commandcode_thread_id = lookup(&values, "--commandcode-thread-id");
        let commandcode_project_slug = lookup(&values, "--commandcode-project-slug");
        let model = match required(&values, "--model") {
            Ok(value) => value,
            Err(message) => return Err(message),
        };
        let instruction = match required(&values, "--instruction") {
            Ok(value) => value,
            Err(message) => return Err(message),
        };
        let workspace = match required(&values, "--workspace") {
            Ok(value) => value,
            Err(message) => return Err(message),
        };
        let policy = match required(&values, "--policy") {
            Ok(value) => value,
            Err(message) => return Err(message),
        };
        let log_jsonl = match required(&values, "--log-jsonl") {
            Ok(value) => value,
            Err(message) => return Err(message),
        };
        Ok(
            Args {
                model,
                instruction,
                workspace,
                policy,
                log_jsonl,
                run_deadline,
                commandcode_date,
                commandcode_environment,
                commandcode_thread_id,
                commandcode_project_slug,
            },
        )
    }

    /// The usage line.
    pub fn usage() -> (r: &'static str)
        ensures
            r@
                == "usage: runebench-pi-agent --model <openrouter/model|commandcode/model> --instruction <text> --workspace <dir> --policy <file.luau> --log-jsonl <file> [--deadline-seconds <positive-seconds>] [--commandcode-date <YYYY-MM-DD> --commandcode-environment <platform> --commandcode-thread-id <UUID> --commandcode-project-slug <slug>]"@,
    {
        "usage: runebench-pi-agent --model <openrouter/model|commandcode/model> --instruction <text> --workspace <dir> --policy <file.luau> --log-jsonl <file> [--deadline-seconds <positive-seconds>] [--commandcode-date <YYYY-MM-DD> --commandcode-environment <platform> --commandcode-thread-id <UUID> --commandcode-project-slug <slug>]"
    }

    /// Whether the command line asks for the usage line, wherever it does.
    pub fn wants_help(arguments: &Vec<String>) -> (r: bool)
        ensures
            r == (texts(arguments@).contains("--help"@) || texts(arguments@).contains("-h"@)),
    {
        let mut i: usize = 0;
        while i < arguments.len()
            invariant
                i <= arguments@.len(),
                forall|j: int|
                    0 <= j < i ==> texts(arguments@)[j] != "--help"@ && #[trigger] texts(
                        arguments@,
                    )[j] != "-h"@,
            decreases arguments@.len() - i,
        {
            proof {
                assert(texts(arguments@)[i as int] == arguments@[i as int]@);
            }
            if same_text(arguments[i].as_str(), "--help") || same_text(
                arguments[i].as_str(),
                "-h",
            ) {
                return true;
            }
            i = i + 1;
        }
        false
    }
}

// ---------------------------------------------------------------------------------------------
// Command Code
// ---------------------------------------------------------------------------------------------
/// The facts about the host that Command Code is told.
#[derive(Clone, Debug, PartialEq, Eq)]
pub struct CommandCodeRequestContext {
    pub date: String,
    pub environment: String,
    pub thread_id: String,
    pub project_slug: String,
}

/// Whether an optional argument is there and not blank.
pub open spec fn stated(value: Option<Seq<char>>) -> bool {
    value matches Some(text) && trimmed(text).len() > 0
}

/// The first flag of the Command Code facts that is missing or blank.
pub open spec fn missing_context(args: ArgsText) -> Option<Seq<char>> {
    if !stated(args.commandcode_date) {
        Some("--commandcode-date"@)
    } else if !stated(args.commandcode_environment) {
        Some("--commandcode-environment"@)
    } else if !stated(args.commandcode_thread_id) {
        Some("--commandcode-thread-id"@)
    } else if !stated(args.commandcode_project_slug) {
        Some("--commandcode-project-slug"@)
    } else {
        None
    }
}

/// An argument that Command Code models require.
fn required_context(value: &Option<String>, flag: &str) -> (r: Result<String, String>)
    ensures
        r is Ok <==> stated(opt_text(*value)),
        r matches Ok(text) ==> opt_text(*value) == Some(text@),
        r matches Err(message) ==> message@ == "commandcode models require "@ + flag@,
{
    if let Some(text) = value {
        if !is_blank(text.as_str()) {
            return Ok(text.clone());
        }
    }
    let mut message = String::from_str("commandcode models require ");
    message.append(flag);
    Err(message)
}

/// The facts for Command Code, each of which has to be stated on the command line.
pub fn commandcode_request_context(args: &Args) -> (r: Result<CommandCodeRequestContext, String>)
    ensures
        match missing_context(args@) {
            Some(flag) => r matches Err(message) && message@ == "commandcode models require "@
                + flag,
            None => r matches Ok(context) && args@.commandcode_date == Some(context.date@)
                && args@.commandcode_environment == Some(context.environment@)
                && args@.commandcode_thread_id == Some(context.thread_id@)
                && args@.commandcode_project_slug == Some(context.project_slug@),
        },
{
    let date = match required_context(&args.commandcode_date, "--commandcode-date") {
        Ok(value) => value,
        Err(message) => return Err(message),
    };
    let environment = match required_context(
        &args.commandcode_environment,
        "--commandcode-environment",
    ) {
        Ok(value) => value,
        Err(message) => return Err(message),
    };
    let thread_id = match required_context(&args.commandcode_thread_id, "--commandcode-thread-id") {
        Ok(value) => value,
        Err(message) => return Err(message),
    };
    let project_slug = match required_context(
        &args.commandcode_project_slug,
        "--commandcode-project-slug",
    ) {
        Ok(value) => value,
        Err(message) => return Err(message),
    };
    Ok(CommandCodeRequestContext { date, environment, thread_id, project_slug })
}

// ---------------------------------------------------------------------------------------------
// Laws
// ---------------------------------------------------------------------------------------------
/// A command line that is accepted names a model, an instruction, a workspace, a policy and a
/// log, and a deadline that it sets is positive.
pub proof fn accepted_arguments_are_complete(arguments: Seq<Seq<char>>)
    requires
        parsed_args(arguments) is Ok,
    ensures
        ({
            let args = parsed_args(arguments)->Ok_0;
            &&& args.model.len() > 0
            &&& args.instruction.len() > 0
            &&& args.workspace.len() > 0
            &&& args.policy.len() > 0
            &&& args.log_jsonl.len() > 0
            &&& args.run_deadline matches Some(seconds) ==> seconds > 0
        }),
{
}

proof fn lemma_swapped_flags(
    before: Seq<Seq<char>>,
    a: Seq<Seq<char>>,
    b: Seq<Seq<char>>,
    rest: Seq<Seq<char>>,
    known: Map<Seq<char>, Seq<char>>,
)
    requires
        before.len() % 2 == 0,
        a.len() == 2,
        b.len() == 2,
        flag_values(before + a + b + rest, known) is Ok,
    ensures
        flag_values(before + b + a + rest, known) == flag_values(before + a + b + rest, known),
    decreases before.len(),
{
    let left = before + a + b + rest;
    let right = before + b + a + rest;
    if before.len() == 0 {
        reveal_with_fuel(flag_values, 3);
        assert(left.skip(2).skip(2) =~= rest);
        assert(right.skip(2).skip(2) =~= rest);
        assert(left[0] == a[0] && left[1] == a[1]);
        assert(left.skip(2)[0] == b[0] && left.skip(2)[1] == b[1]);
        assert(right[0] == b[0] && right[1] == b[1]);
        assert(right.skip(2)[0] == a[0] && right.skip(2)[1] == a[1]);
        assert(known.insert(a[0], a[1]).insert(b[0], b[1]) =~= known.insert(b[0], b[1]).insert(
            a[0],
            a[1],
        ));
    } else {
        let shorter = before.skip(2);
        assert(left[0] == before[0] && left[1] == before[1]);
        assert(right[0] == before[0] && right[1] == before[1]);
        assert(left.skip(2) =~= shorter + a + b + rest);
        assert(right.skip(2) =~= shorter + b + a + rest);
        lemma_swapped_flags(shorter, a, b, rest, known.insert(before[0], before[1]));
    }
}

/// The order of the flags does not matter: in an accepted command line any two neighbouring flags
/// may change places, each with its value.
pub proof fn flag_order_does_not_matter(
    before: Seq<Seq<char>>,
    first: Seq<char>,
    first_value: Seq<char>,
    second: Seq<char>,
    second_value: Seq<char>,
    rest: Seq<Seq<char>>,
)
    requires
        before.len() % 2 == 0,
        parsed_args(before + seq![first, first_value] + seq![second, second_value] + rest) is Ok,
    ensures
        parsed_args(before + seq![second, second_value] + seq![first, first_value] + rest)
            == parsed_args(before + seq![first, first_value] + seq![second, second_value] + rest),
{
    lemma_swapped_flags(
        before,
        seq![first, first_value],
        seq![second, second_value],
        rest,
        Map::empty(),
    );
}

/// What is known of the values of accepted flags.
proof fn lemma_flag_values(arguments: Seq<Seq<char>>, known: Map<Seq<char>, Seq<char>>)
    requires
        flag_values(arguments, known) is Ok,
    ensures
        arguments.len() % 2 == 0,
        forall|i: int|
            0 <= i < arguments.len() && i % 2 == 0 ==> {
                let values = flag_values(arguments, known)->Ok_0;
                &&& "--"@.is_prefix_of(#[trigger] arguments[i])
                &&& values.contains_key(arguments[i])
                &&& values[arguments[i]] == arguments[i + 1]
                &&& !known.contains_key(arguments[i])
            },
        forall|flag: Seq<char>| #[trigger]
            known.contains_key(flag) ==> flag_values(arguments, known)->Ok_0.contains_key(flag)
                && flag_values(arguments, known)->Ok_0[flag] == known[flag],
        forall|flag: Seq<char>| #[trigger]
            flag_values(arguments, known)->Ok_0.contains_key(flag) ==> known.contains_key(flag)
                || exists|i: int|
                0 <= i < arguments.len() && i % 2 == 0 && #[trigger] arguments[i] == flag,
        forall|i: int, j: int|
            0 <= i < j < arguments.len() && i % 2 == 0 && j % 2 == 0 ==> #[trigger] arguments[i]
                != #[trigger] arguments[j],
    decreases arguments.len(),
{
    if arguments.len() > 0 {
        let rest = arguments.skip(2);
        let more = known.insert(arguments[0], arguments[1]);
        let values = flag_values(arguments, known)->Ok_0;
        assert(values == flag_values(rest, more)->Ok_0);
        lemma_flag_values(rest, more);
        assert(more.contains_key(arguments[0]));
        assert(values.contains_key(arguments[0]) && values[arguments[0]] == arguments[1]);
        assert forall|flag: Seq<char>| #[trigger] known.contains_key(flag) implies values.contains_key(
            flag,
        ) && values[flag] == known[flag] by {
            assert(more.contains_key(flag));
        }
        assert forall|i: int| 0 <= i < arguments.len() && i % 2 == 0 implies {
            &&& "--"@.is_prefix_of(#[trigger] arguments[i])
            &&& values.contains_key(arguments[i])
            &&& values[arguments[i]] == arguments[i + 1]
            &&& !known.contains_key(arguments[i])
        } by {
            if i > 0 {
                assert(rest[i - 2] == arguments[i]);
                assert(rest[i - 2 + 1] == arguments[i + 1]);
            }
        }
        assert forall|flag: Seq<char>| #[trigger]
            values.contains_key(flag) implies known.contains_key(flag) || exists|i: int|
            0 <= i < arguments.len() && i % 2 == 0 && #[trigger] arguments[i] == flag by {
            if !known.contains_key(flag) {
                if flag == arguments[0] {
                    assert(arguments[0] == flag);
                } else {
                    let i = choose|i: int|
                        0 <= i < rest.len() && i % 2 == 0 && #[trigger] rest[i] == flag;
                    assert(arguments[i + 2] == flag);
                }
            }
        }
        assert forall|i: int, j: int|
            0 <= i < j < arguments.len() && i % 2 == 0 && j % 2 == 0 implies #[trigger] arguments[i]
            != #[trigger] arguments[j] by {
            assert(rest[j - 2] == arguments[j]);
            if i > 0 {
                assert(rest[i - 2] == arguments[i]);
            }
        }
    }
}

/// An accepted command line is made of flags that begin with two dashes, each with a value and none
/// twice.
pub proof fn accepted_command_lines_are_flags_with_values(arguments: Seq<Seq<char>>, i: int, j: int)
    requires
        parsed_args(arguments) is Ok,
        i % 2 == 0,
        j % 2 == 0,
    ensures
        arguments.len() % 2 == 0,
        0 <= i < arguments.len() ==> "--"@.is_prefix_of(arguments[i]),
        0 <= i < j < arguments.len() ==> arguments[i] != arguments[j],
{
    lemma_flag_values(arguments, Map::empty());
}

/// Every flag sets its own field to the value behind it, wherever it stands on the command line.
pub proof fn flags_set_their_fields(arguments: Seq<Seq<char>>, i: int)
    requires
        parsed_args(arguments) is Ok,
        0 <= i < arguments.len(),
        i % 2 == 0,
    ensures
        ({
            let args = parsed_args(arguments)->Ok_0;
            let (flag, value) = (arguments[i], arguments[i + 1]);
            &&& flag == "--model"@ ==> args.model == value
            &&& flag == "--instruction"@ ==> args.instruction == value
            &&& flag == "--workspace"@ ==> args.workspace == value
            &&& flag == "--policy"@ ==> args.policy == value
            &&& flag == "--log-jsonl"@ ==> args.log_jsonl == value
            &&& flag == "--deadline-seconds"@ ==> (args.run_deadline matches Some(seconds)
                && unsigned_value(value, u64::MAX as nat) == Some(seconds as nat))
            &&& flag == "--commandcode-date"@ ==> args.commandcode_date == Some(value)
            &&& flag == "--commandcode-environment"@ ==> args.commandcode_environment == Some(value)
            &&& flag == "--commandcode-thread-id"@ ==> args.commandcode_thread_id == Some(value)
            &&& flag == "--commandcode-project-slug"@ ==> args.commandcode_project_slug == Some(value)
        }),
{
    lemma_flag_values(arguments, Map::empty());
}

/// A flag that is not on the command line sets nothing.
pub proof fn absent_flags_set_nothing(arguments: Seq<Seq<char>>)
    requires
        parsed_args(arguments) is Ok,
    ensures
        ({
            let args = parsed_args(arguments)->Ok_0;
            &&& !arguments.contains("--deadline-seconds"@) ==> args.run_deadline is None
            &&& !arguments.contains("--commandcode-date"@) ==> args.commandcode_date is None
            &&& !arguments.contains("--commandcode-environment"@) ==> args.commandcode_environment is None
            &&& !arguments.contains("--commandcode-thread-id"@) ==> args.commandcode_thread_id is None
            &&& !arguments.contains("--commandcode-project-slug"@) ==> args.commandcode_project_slug is None
        }),
{
    lemma_flag_values(arguments, Map::empty());
    let values = flag_values(arguments, Map::empty())->Ok_0;
    assert forall|flag: Seq<char>| !arguments.contains(flag) implies !#[trigger] values.contains_key(
        flag,
    ) by {
        if values.contains_key(flag) {
            let i = choose|i: int|
                0 <= i < arguments.len() && i % 2 == 0 && #[trigger] arguments[i] == flag;
            assert(arguments.contains(arguments[i]));
        }
    }
}

proof fn lemma_flags_are_accepted(arguments: Seq<Seq<char>>, known: Map<Seq<char>, Seq<char>>)
    requires
        arguments.len() % 2 == 0,
        forall|i: int|
            0 <= i < arguments.len() && i % 2 == 0 ==> "--"@.is_prefix_of(#[trigger] arguments[i])
                && !known.contains_key(arguments[i]),
        forall|i: int, j: int|
            0 <= i < j < arguments.len() && i % 2 == 0 && j % 2 == 0 ==> #[trigger] arguments[i]
                != #[trigger] arguments[j],
    ensures
        flag_values(arguments, known) is Ok,
    decreases arguments.len(),
{
    if arguments.len() > 0 {
        let rest = arguments.skip(2);
        let more = known.insert(arguments[0], arguments[1]);
        assert("--"@.is_prefix_of(arguments[0]));
        assert forall|i: int| 0 <= i < rest.len() && i % 2 == 0 implies "--"@.is_prefix_of(
            #[trigger] rest[i],
        ) && !more.contains_key(rest[i]) by {
            assert(rest[i] == arguments[i + 2]);
            assert(arguments[0] != arguments[i + 2]);
        }
        assert forall|i: int, j: int|
            0 <= i < j < rest.len() && i % 2 == 0 && j % 2 == 0 implies #[trigger] rest[i]
            != #[trigger] rest[j] by {
            assert(rest[i] == arguments[i + 2]);
            assert(rest[j] == arguments[j + 2]);
        }
        lemma_flags_are_accepted(rest, more);
    }
}

/// A command line is accepted if it is made of flags with values, none twice, among them the five
/// required ones with values that are not empty, and a deadline, if there is one, that is a positive
/// number. Flags that mean nothing to the host do no harm.
pub proof fn complete_command_lines_are_accepted(
    arguments: Seq<Seq<char>>,
    places: (int, int, int, int, int),
)
    requires
        arguments.len() % 2 == 0,
        forall|i: int|
            0 <= i < arguments.len() && i % 2 == 0 ==> "--"@.is_prefix_of(#[trigger] arguments[i]),
        forall|i: int, j: int|
            0 <= i < j < arguments.len() && i % 2 == 0 && j % 2 == 0 ==> #[trigger] arguments[i]
                != #[trigger] arguments[j],
        0 <= places.0 < arguments.len() && places.0 % 2 == 0,
        arguments[places.0] == "--model"@,
        arguments[places.0 + 1].len() > 0,
        0 <= places.1 < arguments.len() && places.1 % 2 == 0,
        arguments[places.1] == "--instruction"@,
        arguments[places.1 + 1].len() > 0,
        0 <= places.2 < arguments.len() && places.2 % 2 == 0,
        arguments[places.2] == "--workspace"@,
        arguments[places.2 + 1].len() > 0,
        0 <= places.3 < arguments.len() && places.3 % 2 == 0,
        arguments[places.3] == "--policy"@,
        arguments[places.3 + 1].len() > 0,
        0 <= places.4 < arguments.len() && places.4 % 2 == 0,
        arguments[places.4] == "--log-jsonl"@,
        arguments[places.4 + 1].len() > 0,
        forall|i: int|
            0 <= i < arguments.len() && i % 2 == 0 && #[trigger] arguments[i]
                == "--deadline-seconds"@ ==> (unsigned_value(arguments[i + 1], u64::MAX as nat)
                matches Some(n) && n > 0),
    ensures
        parsed_args(arguments) is Ok,
{
    lemma_flags_are_accepted(arguments, Map::empty());
    lemma_flag_values(arguments, Map::empty());
    let values = flag_values(arguments, Map::empty())->Ok_0;
    if values.contains_key("--deadline-seconds"@) {
        let i = choose|i: int|
            0 <= i < arguments.len() && i % 2 == 0 && #[trigger] arguments[i]
                == "--deadline-seconds"@;
        assert(values[arguments[i]] == arguments[i + 1]);
    }
    assert(given(values, arguments[places.0]));
    assert(given(values, arguments[places.1]));
    assert(given(values, arguments[places.2]));
    assert(given(values, arguments[places.3]));
    assert(given(values, arguments[places.4]));
}

/// Command Code models need four facts, each of which has to be stated and not blank.
pub proof fn four_facts_are_required(args: ArgsText)
    ensures
        missing_context(args) is None <==> (args.commandcode_date matches Some(a) && trimmed(a).len()
            > 0) && (args.commandcode_environment matches Some(b) && trimmed(b).len() > 0) && (
        args.commandcode_thread_id matches Some(c) && trimmed(c).len() > 0) && (
        args.commandcode_project_slug matches Some(d) && trimmed(d).len() > 0),
{
}

}
