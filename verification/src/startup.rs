//! The course of a run from the command line to its end.
//!
//! As elsewhere, the startup decides and the host acts: the step of a [`Startup`] tells the host
//! what to do next, and the host hands back what came of it as a [`StartupEvent`].
use crate::args::Args;
use crate::host::{
    audit_text, brief, check_api_key, check_declaration, declared_handler, describe_failure,
    docs_text, five_tools_may_be_declared, loaded, plan_run, planned, preparation_failure, prompt_text, run_end, run_outcome,
    secret, AgentEnd, Briefing, PlanText, Preparation, RunPlan,
};
use crate::text::{opt_text, trimmed, with_message};
use vstd::prelude::*;
use vstd::string::*;

verus! {

/// A tool that a policy declares.
#[derive(Clone, Debug, PartialEq, Eq)]
pub struct ToolDeclaration {
    pub name: String,
    pub handler_source: Option<String>,
}

/// What the host is to do next.
#[derive(Debug, PartialEq, Eq)]
pub enum Step {
    /// Read the environment variable that holds the secret of the provider.
    ReadKey,
    /// Prepare something.
    Prepare(Preparation),
    /// Load the documents.
    LoadDocuments,
    /// Let the agent work to its end.
    Drive,
    /// The run is over.
    Over(Result<(), String>),
}

/// What came of a step.
#[derive(Debug, PartialEq, Eq)]
pub enum StartupEvent {
    /// What the environment variable holds, if it is there.
    Key(Option<String>),
    /// The policy was loaded: the tools that it declares, and what it adds to the prompt.
    Policy { declarations: Vec<ToolDeclaration>, prompt: String },
    /// The documents, or why there are none.
    Documents(Result<String, String>),
    /// The profile was loaded: its prompt.
    Profile { prompt: String },
    /// Anything else was done.
    Done,
    /// Something could not be done.
    Failed(String),
    /// The event log has no directory.
    NoDirectory,
    /// The agent has ended.
    Ended { end: AgentEnd, deadline_expired: bool },
}

/// The state of a run.
#[derive(Debug, PartialEq, Eq)]
pub struct Startup {
    plan: RunPlan,
    policy_path: String,
    api_key: String,
    declarations: Vec<ToolDeclaration>,
    policy_prompt: String,
    profile_prompt: String,
    docs: Result<String, String>,
    handler: usize,
    briefing: Briefing,
    step: Step,
}

/// The content of a [`Step`].
#[verifier::ext_equal]
pub enum StepText {
    ReadKey,
    Prepare(Preparation),
    LoadDocuments,
    Drive,
    Over(Result<(), Seq<char>>),
}

impl Step {
    /// The content of the step.
    pub open spec fn view(&self) -> StepText {
        match self {
            Step::ReadKey => StepText::ReadKey,
            Step::Prepare(preparation) => StepText::Prepare(*preparation),
            Step::LoadDocuments => StepText::LoadDocuments,
            Step::Drive => StepText::Drive,
            Step::Over(r) => StepText::Over(with_message(*r)),
        }
    }
}

/// The content of a [`Startup`].
#[verifier::ext_equal]
pub struct StartupState {
    pub plan: PlanText,
    pub policy_path: Seq<char>,
    pub api_key: Seq<char>,
    /// The names and the handlers of the declared tools.
    pub declarations: Seq<(Seq<char>, Option<Seq<char>>)>,
    pub policy_prompt: Seq<char>,
    pub profile_prompt: Seq<char>,
    /// The documents, if they were loaded.
    pub docs: Option<Seq<char>>,
    /// The declaration whose handler is being made.
    pub handler: nat,
    pub system_prompt: Seq<char>,
    pub audit: Seq<char>,
    pub step: StepText,
}

/// The contents of a list of declarations.
pub open spec fn declarations_view(declarations: Seq<ToolDeclaration>) -> Seq<
    (Seq<char>, Option<Seq<char>>),
> {
    declarations.map_values(
        |declaration: ToolDeclaration| (declaration.name@, opt_text(declaration.handler_source)),
    )
}

impl StartupState {
    /// Whether the first `n` declarations are acceptable.
    pub open spec fn accepted(self, n: int) -> bool {
        forall|i: int|
            0 <= i < n ==> #[trigger] declared_handler(
                self.declarations[i].0,
                self.declarations[i].1,
            ) is Ok
    }

    /// Whether the agent was briefed: with the prompts of the profile and of the policy and with
    /// the documents, where the audit record tells whether these were loaded.
    pub open spec fn briefed(self) -> bool {
        &&& self.system_prompt == prompt_text(
            self.profile_prompt,
            self.policy_prompt,
            loaded(self.docs),
        )
        &&& self.audit == audit_text(self.docs is Some)
    }

    /// Whether the state is one that a run can be in: the secret of the provider is known once
    /// it was read, a declaration is passed only if it is acceptable, and the agent is briefed
    /// before anything is written.
    pub open spec fn sound(self) -> bool {
        &&& (self.step is ReadKey || self.step is Over || trimmed(self.api_key).len() > 0)
        &&& (position(StepText::Prepare(Preparation::WriteAudit)) <= position(self.step)
            <= position(StepText::Drive) ==> self.briefed())
        &&& match self.step {
            StepText::Prepare(Preparation::MakeHandler) => self.handler < self.declarations.len()
                && self.accepted(self.handler + 1int),
            StepText::Prepare(preparation) => position(self.step) > position(
                StepText::Prepare(Preparation::MakeHandler),
            ) ==> self.accepted(self.declarations.len() as int),
            StepText::Drive => self.accepted(self.declarations.len() as int),
            StepText::Over(Ok(_)) => self.accepted(self.declarations.len() as int),
            _ => true,
        }
    }

    /// The state with another step.
    pub open spec fn at(self, step: StepText) -> StartupState {
        StartupState {
            plan: self.plan,
            policy_path: self.policy_path,
            api_key: self.api_key,
            declarations: self.declarations,
            policy_prompt: self.policy_prompt,
            profile_prompt: self.profile_prompt,
            docs: self.docs,
            handler: self.handler,
            system_prompt: self.system_prompt,
            audit: self.audit,
            step,
        }
    }

    /// The state after all declarations before the i-th were dealt with: the handler of the i-th
    /// is next, or the briefing where there is no i-th.
    pub open spec fn handlers_from(self, i: nat) -> StartupState {
        if i < self.declarations.len() {
            match declared_handler(self.declarations[i as int].0, self.declarations[i as int].1) {
                Err(message) => self.at(StepText::Over(Err(message))),
                Ok(_) => StartupState {
                    handler: i,
                    ..self.at(StepText::Prepare(Preparation::MakeHandler))
                },
            }
        } else {
            StartupState {
                system_prompt: prompt_text(
                    self.profile_prompt,
                    self.policy_prompt,
                    loaded(self.docs),
                ),
                audit: audit_text(self.docs is Some),
                ..self.at(StepText::Prepare(Preparation::WriteAudit))
            }
        }
    }

    /// The state after something was prepared.
    pub open spec fn prepared(self, preparation: Preparation) -> StartupState {
        match preparation {
            Preparation::ReadPolicy => self.at(StepText::Prepare(Preparation::LoadPolicy)),
            Preparation::LoadPolicy => self,
            Preparation::Connect => self.at(StepText::LoadDocuments),
            Preparation::MakeCapability => self.at(StepText::Prepare(Preparation::BindCapability)),
            Preparation::BindCapability => self.at(StepText::Prepare(Preparation::MakeTools)),
            Preparation::MakeTools => self.at(StepText::Prepare(Preparation::LoadProfile)),
            Preparation::LoadProfile => self,
            Preparation::BindProfile => self.handlers_from(0),
            Preparation::MakeHandler => self.handlers_from(self.handler + 1),
            Preparation::WriteAudit => self.at(
                StepText::Prepare(
                    if self.plan.commandcode is Some {
                        Preparation::DescribeHost
                    } else {
                        Preparation::MakeLogDirectory
                    },
                ),
            ),
            Preparation::DescribeHost => self.at(
                StepText::Prepare(Preparation::ConfigureProvider),
            ),
            Preparation::ConfigureProvider => self.at(
                StepText::Prepare(Preparation::MakeLogDirectory),
            ),
            Preparation::MakeLogDirectory => self.at(StepText::Prepare(Preparation::CreateLog)),
            Preparation::CreateLog => self.at(StepText::Prepare(Preparation::StartAgent)),
            Preparation::StartAgent => self.at(StepText::Drive),
        }
    }

    /// What a preparation is about: the policy file, or the tool whose handler is made.
    pub open spec fn subject(self, preparation: Preparation) -> Seq<char> {
        match preparation {
            Preparation::ReadPolicy => self.policy_path,
            Preparation::MakeHandler => self.declarations[self.handler as int].0,
            _ => Seq::empty(),
        }
    }

    /// The state after a step. An event that does not belong to the step changes nothing.
    pub open spec fn after(self, event: StartupEvent) -> StartupState {
        match (self.step, event) {
            (StepText::ReadKey, StartupEvent::Key(value)) => match secret(
                self.plan.provider.key_variable(),
                opt_text(value),
            ) {
                Err(message) => self.at(StepText::Over(Err(message))),
                Ok(key) => StartupState {
                    api_key: key,
                    ..self.at(StepText::Prepare(Preparation::ReadPolicy))
                },
            },
            (
                StepText::Prepare(Preparation::LoadPolicy),
                StartupEvent::Policy { declarations, prompt },
            ) => StartupState {
                declarations: declarations_view(declarations@),
                policy_prompt: prompt@,
                ..self.at(StepText::Prepare(Preparation::Connect))
            },
            (StepText::LoadDocuments, StartupEvent::Documents(docs)) => StartupState {
                docs: docs_text(docs),
                ..self.at(StepText::Prepare(Preparation::MakeCapability))
            },
            (
                StepText::Prepare(Preparation::LoadProfile),
                StartupEvent::Profile { prompt },
            ) => StartupState {
                profile_prompt: prompt@,
                ..self.at(StepText::Prepare(Preparation::BindProfile))
            },
            (StepText::Prepare(preparation), StartupEvent::Done) => self.prepared(preparation),
            (StepText::Prepare(preparation), StartupEvent::Failed(error)) => self.at(
                StepText::Over(
                    Err(preparation_failure(preparation, self.subject(preparation), error@)),
                ),
            ),
            (StepText::Prepare(preparation), StartupEvent::NoDirectory) => if preparation
                == Preparation::WriteAudit || preparation == Preparation::MakeLogDirectory {
                self.at(StepText::Over(Err("event-log path has no parent"@)))
            } else {
                self
            },
            (StepText::Drive, StartupEvent::Ended { end, deadline_expired }) => self.at(
                StepText::Over(run_end(end, deadline_expired)),
            ),
            _ => self,
        }
    }
}

/// The place of a step in the course of a run.
pub open spec fn position(step: StepText) -> int {
    match step {
        StepText::ReadKey => 0,
        StepText::Prepare(Preparation::ReadPolicy) => 1,
        StepText::Prepare(Preparation::LoadPolicy) => 2,
        StepText::Prepare(Preparation::Connect) => 3,
        StepText::LoadDocuments => 4,
        StepText::Prepare(Preparation::MakeCapability) => 5,
        StepText::Prepare(Preparation::BindCapability) => 6,
        StepText::Prepare(Preparation::MakeTools) => 7,
        StepText::Prepare(Preparation::LoadProfile) => 8,
        StepText::Prepare(Preparation::BindProfile) => 9,
        StepText::Prepare(Preparation::MakeHandler) => 10,
        StepText::Prepare(Preparation::WriteAudit) => 11,
        StepText::Prepare(Preparation::DescribeHost) => 12,
        StepText::Prepare(Preparation::ConfigureProvider) => 13,
        StepText::Prepare(Preparation::MakeLogDirectory) => 14,
        StepText::Prepare(Preparation::CreateLog) => 15,
        StepText::Prepare(Preparation::StartAgent) => 16,
        StepText::Drive => 17,
        StepText::Over(_) => 18,
    }
}

/// How a run begins: which provider and which model it uses is decided before anything is done.
pub open spec fn first_state(plan: PlanText, policy_path: Seq<char>) -> StartupState {
    StartupState {
        plan,
        policy_path,
        api_key: Seq::empty(),
        declarations: Seq::empty(),
        policy_prompt: Seq::empty(),
        profile_prompt: Seq::empty(),
        docs: None,
        handler: 0,
        system_prompt: Seq::empty(),
        audit: Seq::empty(),
        step: StepText::ReadKey,
    }
}

impl Startup {
    /// The content of the state.
    pub closed spec fn view(&self) -> StartupState {
        StartupState {
            plan: self.plan@,
            policy_path: self.policy_path@,
            api_key: self.api_key@,
            declarations: declarations_view(self.declarations@),
            policy_prompt: self.policy_prompt@,
            profile_prompt: self.profile_prompt@,
            docs: docs_text(self.docs),
            handler: self.handler as nat,
            system_prompt: self.briefing.system_prompt@,
            audit: self.briefing.audit@,
            step: self.step@,
        }
    }

    #[verifier::type_invariant]
    closed spec fn is_sound(self) -> bool {
        self@.sound()
    }

    /// Begins a run: decides which provider and which model it uses, or why there can be none.
    pub fn begin(args: &Args) -> (r: Result<Startup, String>)
        ensures
            match r {
                Ok(startup) => planned(args@) == Ok::<PlanText, Seq<char>>(startup@.plan)
                    && startup@ == first_state(startup@.plan, args@.policy),
                Err(message) => planned(args@) == Err::<PlanText, Seq<char>>(message@),
            },
    {
        let plan = match plan_run(args) {
            Ok(plan) => plan,
            Err(message) => return Err(message),
        };
        let startup = Startup {
            plan,
            policy_path: args.policy.clone(),
            api_key: String::new(),
            declarations: Vec::new(),
            policy_prompt: String::new(),
            profile_prompt: String::new(),
            docs: Err(String::new()),
            handler: 0,
            briefing: Briefing { system_prompt: String::new(), audit: String::new() },
            step: Step::ReadKey,
        };
        assert(startup@ =~= first_state(startup@.plan, args@.policy));
        Ok(startup)
    }

    /// What the host is to do next.
    pub fn step(&self) -> (r: &Step)
        ensures
            r@ == self@.step,
    {
        &self.step
    }

    /// The provider and the model of the run.
    pub fn plan(&self) -> (r: &RunPlan)
        ensures
            r@ == self@.plan,
    {
        &self.plan
    }

    /// The secret of the provider, once it was read.
    pub fn api_key(&self) -> (r: &str)
        ensures
            r@ == self@.api_key,
    {
        self.api_key.as_str()
    }

    /// The declaration whose handler is to be made, with its place in the policy, while one is.
    pub fn declaration(&self) -> (r: Option<(usize, &ToolDeclaration)>)
        ensures
            self@.step == StepText::Prepare(Preparation::MakeHandler) ==> (r matches Some(
                (index, declaration),
            ) && index == self@.handler && (declaration.name@, opt_text(declaration.handler_source))
                == self@.declarations[index as int]),
            self@.step != StepText::Prepare(Preparation::MakeHandler) ==> r is None,
    {
        proof {
            use_type_invariant(self);
        }
        match self.step {
            Step::Prepare(Preparation::MakeHandler) => {
                Some((self.handler, &self.declarations[self.handler]))
            },
            _ => None,
        }
    }

    /// The system prompt and the audit record, once all declarations were accepted.
    pub fn briefing(&self) -> (r: &Briefing)
        ensures
            r.system_prompt@ == self@.system_prompt,
            r.audit@ == self@.audit,
    {
        &self.briefing
    }

    /// Ends the run with a message.
    fn over(self, message: String) -> (r: Startup)
        ensures
            r@ == self@.at(StepText::Over(Err(message@))),
    {
        Startup { step: Step::Over(Err(message)), ..self }
    }

    /// Goes to the handler of the i-th declaration, or to the briefing where there is no i-th.
    fn go_to_handler(self, i: usize) -> (r: Startup)
        requires
            i <= self@.declarations.len(),
            self@.accepted(i as int),
            trimmed(self@.api_key).len() > 0,
        ensures
            r@ == self@.handlers_from(i as nat),
    {
        if i < self.declarations.len() {
            let declaration = &self.declarations[i];
            match check_declaration(declaration.name.as_str(), &declaration.handler_source) {
                Err(message) => self.over(message),
                Ok(_) => Startup {
                    handler: i,
                    step: Step::Prepare(Preparation::MakeHandler),
                    ..self
                },
            }
        } else {
            let briefing = brief(
                self.profile_prompt.as_str(),
                self.policy_prompt.as_str(),
                &self.docs,
            );
            Startup { briefing, step: Step::Prepare(Preparation::WriteAudit), ..self }
        }
    }

    /// Goes on after something was prepared.
    fn go_on(self, preparation: Preparation) -> (r: Startup)
        requires
            self@.step == StepText::Prepare(preparation),
        ensures
            r@ == self@.prepared(preparation),
    {
        proof {
            use_type_invariant(&self);
        }
        let next = match preparation {
            Preparation::ReadPolicy => Step::Prepare(Preparation::LoadPolicy),
            Preparation::LoadPolicy => return self,
            Preparation::Connect => Step::LoadDocuments,
            Preparation::MakeCapability => Step::Prepare(Preparation::BindCapability),
            Preparation::BindCapability => Step::Prepare(Preparation::MakeTools),
            Preparation::MakeTools => Step::Prepare(Preparation::LoadProfile),
            Preparation::LoadProfile => return self,
            Preparation::BindProfile => return self.go_to_handler(0),
            Preparation::MakeHandler => {
                let total: usize = self.declarations.len();
                assert(self.handler < total);
                let later: usize = self.handler + 1;
                return self.go_to_handler(later);
            },
            Preparation::WriteAudit => Step::Prepare(
                if self.plan.commandcode.is_some() {
                    Preparation::DescribeHost
                } else {
                    Preparation::MakeLogDirectory
                },
            ),
            Preparation::DescribeHost => Step::Prepare(Preparation::ConfigureProvider),
            Preparation::ConfigureProvider => Step::Prepare(Preparation::MakeLogDirectory),
            Preparation::MakeLogDirectory => Step::Prepare(Preparation::CreateLog),
            Preparation::CreateLog => Step::Prepare(Preparation::StartAgent),
            Preparation::StartAgent => Step::Drive,
        };
        Startup { step: next, ..self }
    }

    /// Ends a run that failed to prepare something.
    fn give_up(self, preparation: Preparation, error: &str) -> (r: Startup)
        requires
            self@.step == StepText::Prepare(preparation),
        ensures
            r@ == self@.at(
                StepText::Over(
                    Err(preparation_failure(preparation, self@.subject(preparation), error@)),
                ),
            ),
    {
        proof {
            use_type_invariant(&self);
        }
        let message = match preparation {
            Preparation::ReadPolicy => describe_failure(
                preparation,
                self.policy_path.as_str(),
                error,
            ),
            Preparation::MakeHandler => describe_failure(
                preparation,
                self.declarations[self.handler].name.as_str(),
                error,
            ),
            _ => {
                let none = String::new();
                assert(none@ =~= Seq::<char>::empty());
                describe_failure(preparation, none.as_str(), error)
            },
        };
        self.over(message)
    }

    /// Goes on after the host did what it was asked for.
    pub fn advance(self, event: StartupEvent) -> (r: Startup)
        ensures
            r@ == self@.after(event),
            r@.sound(),
    {
        let r = self.take(event);
        proof {
            use_type_invariant(&r);
        }
        r
    }

    /// Takes an event of the host.
    fn take(self, event: StartupEvent) -> (r: Startup)
        ensures
            r@ == self@.after(event),
    {
        proof {
            use_type_invariant(&self);
        }
        let preparation = match &self.step {
            Step::ReadKey => {
                return match event {
                    StartupEvent::Key(value) => match check_api_key(
                        self.plan.provider.api_key_name(),
                        value,
                    ) {
                        Ok(key) => Startup {
                            api_key: key,
                            step: Step::Prepare(Preparation::ReadPolicy),
                            ..self
                        },
                        Err(message) => self.over(message),
                    },
                    _ => self,
                };
            },
            Step::LoadDocuments => {
                return match event {
                    StartupEvent::Documents(docs) => Startup {
                        docs,
                        step: Step::Prepare(Preparation::MakeCapability),
                        ..self
                    },
                    _ => self,
                };
            },
            Step::Drive => {
                return match event {
                    StartupEvent::Ended { end, deadline_expired } => Startup {
                        step: Step::Over(run_outcome(&end, deadline_expired)),
                        ..self
                    },
                    _ => self,
                };
            },
            Step::Over(_) => return self,
            Step::Prepare(preparation) => *preparation,
        };
        match event {
            StartupEvent::Done => self.go_on(preparation),
            StartupEvent::Failed(error) => self.give_up(preparation, error.as_str()),
            StartupEvent::NoDirectory => {
                if preparation == Preparation::WriteAudit || preparation
                    == Preparation::MakeLogDirectory {
                    self.over(String::from_str("event-log path has no parent"))
                } else {
                    self
                }
            },
            StartupEvent::Policy { declarations, prompt } => {
                if preparation == Preparation::LoadPolicy {
                    Startup {
                        declarations,
                        policy_prompt: prompt,
                        step: Step::Prepare(Preparation::Connect),
                        ..self
                    }
                } else {
                    self
                }
            },
            StartupEvent::Profile { prompt } => {
                if preparation == Preparation::LoadProfile {
                    Startup {
                        profile_prompt: prompt,
                        step: Step::Prepare(Preparation::BindProfile),
                        ..self
                    }
                } else {
                    self
                }
            },
            _ => self,
        }
    }
}

// ---------------------------------------------------------------------------------------------
// Laws
// ---------------------------------------------------------------------------------------------
/// A run is in a sound state from its beginning, and every step keeps it so.
pub proof fn runs_stay_sound(
    plan: PlanText,
    policy_path: Seq<char>,
    state: StartupState,
    event: StartupEvent,
)
    requires
        state.sound(),
    ensures
        first_state(plan, policy_path).sound(),
        state.after(event).sound(),
{
}

/// The audit record is written, and the event log created, only after every tool that the policy
/// declares was accepted.
pub proof fn audits_follow_accepted_declarations(
    state: StartupState,
    event: StartupEvent,
    i: int,
)
    requires
        state.sound(),
        position(StepText::Prepare(Preparation::WriteAudit)) <= position(state.after(event).step)
            <= position(StepText::Drive),
        0 <= i < state.after(event).declarations.len(),
    ensures
        declared_handler(
            state.after(event).declarations[i].0,
            state.after(event).declarations[i].1,
        ) is Ok,
{
    runs_stay_sound(state.plan, state.policy_path, state, event);
    assert(state.after(event).accepted(state.after(event).declarations.len() as int));
}

/// The steps of a run come in one order: no step goes back, and none is left out but those that
/// a run does not need. Without declared tools there is no handler to make, and OpenRouter is
/// told nothing about the host.
pub proof fn steps_come_in_order(state: StartupState, event: StartupEvent)
    ensures
        ({
            let next = state.after(event);
            &&& position(state.step) <= position(next.step)
            &&& next.step is Over || position(next.step) <= position(state.step) + 1 || (state.step
                == StepText::Prepare(Preparation::BindProfile) && next.step == StepText::Prepare(
                Preparation::WriteAudit,
            ) && state.declarations.len() == 0) || (state.step == StepText::Prepare(
                Preparation::WriteAudit,
            ) && next.step == StepText::Prepare(Preparation::MakeLogDirectory)
                && state.plan.commandcode is None)
        }),
{
}

/// A run goes on without its documents.
pub proof fn missing_documents_do_not_end_a_run(state: StartupState, why: String)
    requires
        state.step is LoadDocuments,
    ensures
        state.after(StartupEvent::Documents(Err(why))).step == StepText::Prepare(
            Preparation::MakeCapability,
        ),
        state.after(StartupEvent::Documents(Err(why))).docs is None,
{
}

/// The documents stay as they were loaded. From the audit record on, to the end of the agent, the
/// system prompt is made of them and of the two other prompts, and the record tells whether there
/// were any.
pub proof fn briefings_tell_what_was_loaded(state: StartupState, event: StartupEvent)
    requires
        state.sound(),
    ensures
        !(state.step is LoadDocuments) ==> state.after(event).docs == state.docs,
        position(StepText::Prepare(Preparation::WriteAudit)) <= position(state.after(event).step)
            <= position(StepText::Drive) ==> {
            &&& state.after(event).audit == audit_text(state.after(event).docs is Some)
            &&& state.after(event).system_prompt == prompt_text(
                state.after(event).profile_prompt,
                state.after(event).policy_prompt,
                loaded(state.after(event).docs),
            )
        },
{
    runs_stay_sound(state.plan, state.policy_path, state, event);
}

/// Whatever else could not be prepared ends the run at once, with the reason.
pub proof fn failed_preparations_end_a_run(
    state: StartupState,
    preparation: Preparation,
    error: String,
)
    requires
        state.step == StepText::Prepare(preparation),
    ensures
        state.after(StartupEvent::Failed(error)).step == StepText::Over(
            Err(preparation_failure(preparation, state.subject(preparation), error@)),
        ),
{
}

/// A run begins as the command line plans it, and reads the secret of its provider first. A secret
/// that is not blank is kept as it is, and the policy is read next; without one the run is over.
pub proof fn runs_begin_with_the_secret(
    plan: PlanText,
    policy_path: Seq<char>,
    state: StartupState,
    key: String,
)
    requires
        state.step is ReadKey,
    ensures
        first_state(plan, policy_path).step is ReadKey,
        first_state(plan, policy_path).plan == plan,
        first_state(plan, policy_path).policy_path == policy_path,
        ({
            let kept = state.after(StartupEvent::Key(Some(key)));
            &&& trimmed(key@).len() > 0 ==> kept.api_key == key@ && kept.step == StepText::Prepare(
                Preparation::ReadPolicy,
            )
            &&& trimmed(key@).len() == 0 ==> kept.step == StepText::Over(
                Err(state.plan.provider.key_variable() + " was empty"@),
            )
        }),
        state.after(StartupEvent::Key(None)).step == StepText::Over(
            Err(
                state.plan.provider.key_variable()
                    + " must be supplied by the caller's secret injector"@,
            ),
        ),
{
}

/// What a run is told it keeps: the tools that the policy declares with their handlers, in order,
/// what the policy and the profile add to the prompt, and the documents.
pub proof fn runs_keep_what_they_are_told(
    state: StartupState,
    declarations: Vec<ToolDeclaration>,
    prompt: String,
    docs: String,
    i: int,
)
    ensures
        state.step == StepText::Prepare(Preparation::LoadPolicy) ==> ({
            let next = state.after(StartupEvent::Policy { declarations, prompt });
            &&& next.declarations.len() == declarations@.len()
            &&& 0 <= i < declarations@.len() ==> next.declarations[i].0 == declarations@[i].name@
                && (match declarations@[i].handler_source {
                Some(source) => next.declarations[i].1 == Some(source@),
                None => next.declarations[i].1 is None,
            })
            &&& next.policy_prompt == prompt@
            &&& next.step == StepText::Prepare(Preparation::Connect)
        }),
        state.step == StepText::Prepare(Preparation::LoadProfile) ==> ({
            let next = state.after(StartupEvent::Profile { prompt });
            &&& next.profile_prompt == prompt@
            &&& next.step == StepText::Prepare(Preparation::BindProfile)
        }),
        state.step is LoadDocuments ==> ({
            let next = state.after(StartupEvent::Documents(Ok(docs)));
            &&& next.docs == Some(docs@)
            &&& next.step == StepText::Prepare(Preparation::MakeCapability)
        }),
{
}

/// Nothing that a run was told is changed by a later event: each is set by its own event alone.
pub proof fn runs_forget_nothing(state: StartupState, event: StartupEvent)
    ensures
        ({
            let next = state.after(event);
            &&& next.plan == state.plan
            &&& next.policy_path == state.policy_path
            &&& !(event is Key) ==> next.api_key == state.api_key
            &&& !(event is Policy) ==> next.declarations == state.declarations
                && next.policy_prompt == state.policy_prompt
            &&& !(event is Documents) ==> next.docs == state.docs
            &&& !(event is Profile) ==> next.profile_prompt == state.profile_prompt
            &&& state.step is Over ==> next == state
        }),
{
}

/// The handlers are made in the order of the declarations, one after the other, and each is made
/// only for a tool that may be declared; after the last one the audit record is written.
pub proof fn handlers_are_made_in_order(state: StartupState, first: bool)
    requires
        state.step == StepText::Prepare(
            if first {
                Preparation::BindProfile
            } else {
                Preparation::MakeHandler
            },
        ),
    ensures
        ({
            let i = if first {
                0
            } else {
                state.handler + 1
            };
            let next = state.after(StartupEvent::Done);
            if i < state.declarations.len() {
                let (name, handler) = state.declarations[i as int];
                let known = name == "execute_code"@ || name == "list_bots"@ || name
                    == "disconnect_bot"@ || name == "rs_agent_list_resources"@ || name
                    == "rs_agent_read_resource"@;
                &&& known && handler is Some ==> next.step == StepText::Prepare(
                    Preparation::MakeHandler,
                ) && next.handler == i
                &&& !(known && handler is Some) ==> next.step matches StepText::Over(Err(_))
            } else {
                next.step == StepText::Prepare(Preparation::WriteAudit)
            }
        }),
{
    let i: nat = if first {
        0
    } else {
        state.handler + 1
    };
    if i < state.declarations.len() {
        let (name, handler) = state.declarations[i as int];
        if let Some(source) = handler {
            five_tools_may_be_declared(name, source);
        } else {
            five_tools_may_be_declared(name, Seq::empty());
        }
    }
}

/// A run is over when its agent has ended, and ends as the agent did: well where the agent finished
/// or was cancelled at the deadline, and else with what the agent said.
pub proof fn runs_are_over_with_the_agent(
    state: StartupState,
    error: String,
    deadline_expired: bool,
)
    requires
        state.step is Drive,
    ensures
        state.after(StartupEvent::Ended { end: AgentEnd::Finished, deadline_expired }).step
            == StepText::Over(Ok(())),
        state.after(
            StartupEvent::Ended { end: AgentEnd::Cancelled(error), deadline_expired: true },
        ).step == StepText::Over(Ok(())),
        state.after(
            StartupEvent::Ended { end: AgentEnd::Cancelled(error), deadline_expired: false },
        ).step == StepText::Over(Err("pi-agent-core run failed: "@ + error@)),
        state.after(StartupEvent::Ended { end: AgentEnd::Failed(error), deadline_expired }).step
            == StepText::Over(Err("pi-agent-core run failed: "@ + error@)),
{
}

/// What was prepared is followed by what comes next, and Command Code alone is told about the host
/// and configured.
pub proof fn preparations_follow_each_other(state: StartupState, preparation: Preparation)
    requires
        state.step == StepText::Prepare(preparation),
    ensures
        ({
            let next = state.after(StartupEvent::Done).step;
            &&& preparation == Preparation::ReadPolicy ==> next == StepText::Prepare(
                Preparation::LoadPolicy,
            )
            &&& preparation == Preparation::Connect ==> next is LoadDocuments
            &&& preparation == Preparation::MakeCapability ==> next == StepText::Prepare(
                Preparation::BindCapability,
            )
            &&& preparation == Preparation::BindCapability ==> next == StepText::Prepare(
                Preparation::MakeTools,
            )
            &&& preparation == Preparation::MakeTools ==> next == StepText::Prepare(
                Preparation::LoadProfile,
            )
            &&& preparation == Preparation::WriteAudit && state.plan.commandcode is Some ==> next
                == StepText::Prepare(Preparation::DescribeHost)
            &&& preparation == Preparation::WriteAudit && state.plan.commandcode is None ==> next
                == StepText::Prepare(Preparation::MakeLogDirectory)
            &&& preparation == Preparation::DescribeHost ==> next == StepText::Prepare(
                Preparation::ConfigureProvider,
            )
            &&& preparation == Preparation::ConfigureProvider ==> next == StepText::Prepare(
                Preparation::MakeLogDirectory,
            )
            &&& preparation == Preparation::MakeLogDirectory ==> next == StepText::Prepare(
                Preparation::CreateLog,
            )
            &&& preparation == Preparation::CreateLog ==> next == StepText::Prepare(
                Preparation::StartAgent,
            )
            &&& preparation == Preparation::StartAgent ==> next is Drive
        }),
{
}

/// An event log without a directory ends the run where the directory is needed, and nowhere else.
pub proof fn logs_need_a_directory(state: StartupState)
    ensures
        state.step == StepText::Prepare(Preparation::WriteAudit) || state.step == StepText::Prepare(
            Preparation::MakeLogDirectory,
        ) ==> state.after(StartupEvent::NoDirectory).step == StepText::Over(
            Err("event-log path has no parent"@),
        ),
        !(state.step == StepText::Prepare(Preparation::WriteAudit) || state.step
            == StepText::Prepare(Preparation::MakeLogDirectory)) ==> state.after(
            StartupEvent::NoDirectory,
        ) == state,
{
}

}
