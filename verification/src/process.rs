//! Child processes of the host: where their output is captured, how long they are waited for,
//! and when a run has used up its time.
use crate::text::{decimal, decimal_text, numerals_read_back, text_pairs, texts};
use vstd::prelude::*;
use vstd::string::*;

verus! {

/// How many names are tried for one capture file.
pub const CAPTURE_ATTEMPTS: u32 = 16;

// ---------------------------------------------------------------------------------------------
// Starting a child
// ---------------------------------------------------------------------------------------------
/// A child process to start.
#[derive(Clone, Debug, PartialEq, Eq)]
pub struct Launch {
    pub program: String,
    pub arguments: Vec<String>,
    /// The whole environment of the child, by names and values: it gets no variable of the
    /// host's own.
    pub environment: Vec<(String, String)>,
}

/// The content of a [`Launch`].
#[verifier::ext_equal]
pub struct LaunchText {
    pub program: Seq<char>,
    pub arguments: Seq<Seq<char>>,
    pub environment: Seq<(Seq<char>, Seq<char>)>,
}

impl Launch {
    /// The content of the launch.
    pub open spec fn view(&self) -> LaunchText {
        LaunchText {
            program: self.program@,
            arguments: texts(self.arguments@),
            environment: text_pairs(self.environment@),
        }
    }
}

/// Adds a variable to an environment.
pub(crate) fn set_variable(environment: &mut Vec<(String, String)>, name: &str, value: &str)
    ensures
        text_pairs(final(environment)@) == text_pairs(old(environment)@).push((name@, value@)),
{
    let ghost before = environment@;
    environment.push((name.to_owned(), value.to_owned()));
    assert(text_pairs(environment@) =~= text_pairs(before).push((name@, value@)));
}

/// Adds an argument to a command line.
pub(crate) fn add_argument(arguments: &mut Vec<String>, argument: &str)
    ensures
        texts(final(arguments)@) == texts(old(arguments)@).push(argument@),
{
    let ghost before = arguments@;
    arguments.push(argument.to_owned());
    assert(texts(arguments@) =~= texts(before).push(argument@));
}

// ---------------------------------------------------------------------------------------------
// Capture files
// ---------------------------------------------------------------------------------------------
/// The file name of the capture of one stream of a child process.
pub open spec fn capture_file_name(
    operation: Seq<char>,
    process_id: nat,
    sequence: nat,
    stream: Seq<char>,
) -> Seq<char> {
    "pi-agent-runebench-"@ + operation + "-"@ + decimal_text(process_id) + "-"@ + decimal_text(
        sequence,
    ) + "-"@ + stream
}

/// Names the capture of one stream of a child process.
pub fn capture_name(operation: &str, process_id: u32, sequence: u64, stream: &str) -> (r: String)
    ensures
        r@ == capture_file_name(operation@, process_id as nat, sequence as nat, stream@),
{
    let mut name = String::from_str("pi-agent-runebench-");
    name.append(operation);
    name.append("-");
    name.append(decimal(process_id as u64).as_str());
    name.append("-");
    name.append(decimal(sequence).as_str());
    name.append("-");
    name.append(stream);
    name
}

/// What came of creating a file that must not exist yet.
#[derive(Debug, PartialEq, Eq)]
pub enum CreateOutcome {
    Created,
    AlreadyExists,
    Failed(String),
}

/// What to do about a capture file after an attempt to create it.
#[derive(Debug, PartialEq, Eq)]
pub enum CaptureStep {
    /// The file is there: use it.
    Use,
    /// The name was taken: try the next one.
    Retry,
    /// No file can be had, for the given reason.
    GiveUp(CaptureFailure),
}

/// Why there is no capture file.
#[derive(Debug, PartialEq, Eq)]
pub enum CaptureFailure {
    /// The file could not be created.
    Refused(String),
    /// Every name that was tried was taken.
    Exhausted,
}

/// Whether a step follows from an attempt to create a capture file.
pub open spec fn decides_on_capture(
    step: CaptureStep,
    attempts: int,
    outcome: CreateOutcome,
) -> bool {
    match outcome {
        CreateOutcome::Created => step is Use,
        CreateOutcome::AlreadyExists => if attempts < CAPTURE_ATTEMPTS {
            step is Retry
        } else {
            step matches CaptureStep::GiveUp(CaptureFailure::Exhausted)
        },
        CreateOutcome::Failed(message) => step == CaptureStep::GiveUp(
            CaptureFailure::Refused(message),
        ),
    }
}

/// Decides on the outcome of an attempt to create a capture file, where `attempts` attempts were
/// made with this one.
pub fn capture_step(attempts: u32, outcome: CreateOutcome) -> (r: CaptureStep)
    ensures
        r is Use <==> outcome is Created,
        r is Retry <==> outcome is AlreadyExists && attempts < CAPTURE_ATTEMPTS,
        decides_on_capture(r, attempts as int, outcome),
        r matches CaptureStep::GiveUp(failure) ==> {
            match outcome {
                CreateOutcome::Failed(message) => failure == CaptureFailure::Refused(message),
                _ => failure is Exhausted,
            }
        },
{
    match outcome {
        CreateOutcome::Created => CaptureStep::Use,
        CreateOutcome::AlreadyExists => if attempts < CAPTURE_ATTEMPTS {
            CaptureStep::Retry
        } else {
            CaptureStep::GiveUp(CaptureFailure::Exhausted)
        },
        CreateOutcome::Failed(message) => CaptureStep::GiveUp(CaptureFailure::Refused(message)),
    }
}

/// What the host says of a capture file that it could not have.
pub open spec fn capture_message(operation: Seq<char>, failure: CaptureFailure) -> Seq<char> {
    match failure {
        CaptureFailure::Refused(message) => "cannot create private "@ + operation + " capture: "@
            + message@,
        CaptureFailure::Exhausted => "cannot allocate a unique private "@ + operation
            + " capture after 16 attempts"@,
    }
}

/// Describes why the host has no capture file.
pub fn describe_capture_failure(operation: &str, failure: &CaptureFailure) -> (r: String)
    ensures
        r@ == capture_message(operation@, *failure),
{
    match failure {
        CaptureFailure::Refused(message) => {
            let mut text = String::from_str("cannot create private ");
            text.append(operation);
            text.append(" capture: ");
            text.append(message.as_str());
            text
        },
        CaptureFailure::Exhausted => {
            let mut text = String::from_str("cannot allocate a unique private ");
            text.append(operation);
            text.append(" capture after 16 attempts");
            text
        },
    }
}

proof fn lemma_numeral_before_dash(a: nat, b: nat, x: Seq<char>, y: Seq<char>)
    requires
        decimal_text(a) + "-"@ + x == decimal_text(b) + "-"@ + y,
    ensures
        a == b,
        x == y,
{
    reveal_strlit("-");
    let (s, t) = (decimal_text(a), decimal_text(b));
    numerals_read_back(a);
    numerals_read_back(b);
    let left = s + "-"@ + x;
    let right = t + "-"@ + y;
    if s.len() < t.len() {
        assert(left[s.len() as int] == '-');
        assert(right[s.len() as int] == t[s.len() as int]);
    } else if t.len() < s.len() {
        assert(right[t.len() as int] == '-');
        assert(left[t.len() as int] == s[t.len() as int]);
    }
    assert(s =~= left.take(s.len() as int));
    assert(t =~= right.take(t.len() as int));
    assert(x =~= left.skip(s.len() as int + 1));
    assert(y =~= right.skip(t.len() as int + 1));
}

/// Two captures of one stream have the same name only if they have the same number in the same
/// process: a process that counts up never names two captures alike.
pub proof fn capture_names_are_distinct(
    operation: Seq<char>,
    stream: Seq<char>,
    process_a: nat,
    process_b: nat,
    sequence_a: nat,
    sequence_b: nat,
)
    requires
        capture_file_name(operation, process_a, sequence_a, stream) == capture_file_name(
            operation,
            process_b,
            sequence_b,
            stream,
        ),
    ensures
        process_a == process_b,
        sequence_a == sequence_b,
{
    let prefix = "pi-agent-runebench-"@ + operation + "-"@;
    let rest_a = decimal_text(sequence_a) + "-"@ + stream;
    let rest_b = decimal_text(sequence_b) + "-"@ + stream;
    let tail_a = decimal_text(process_a) + "-"@ + rest_a;
    let tail_b = decimal_text(process_b) + "-"@ + rest_b;
    let name_a = capture_file_name(operation, process_a, sequence_a, stream);
    let name_b = capture_file_name(operation, process_b, sequence_b, stream);
    assert(name_a =~= prefix + tail_a);
    assert(name_b =~= prefix + tail_b);
    assert(tail_a =~= name_a.skip(prefix.len() as int));
    assert(tail_b =~= name_b.skip(prefix.len() as int));
    lemma_numeral_before_dash(process_a, process_b, rest_a, rest_b);
    lemma_numeral_before_dash(sequence_a, sequence_b, stream, stream);
}

// ---------------------------------------------------------------------------------------------
// Waiting for a child
// ---------------------------------------------------------------------------------------------
/// What was seen of a child process.
#[derive(Debug, PartialEq, Eq)]
pub enum ChildEvent {
    /// The child is still running.
    Running,
    /// The child has exited, and its status was read.
    Exited,
    /// The status of the child could not be read.
    PollFailed(String),
    /// The child was killed, or had exited already.
    Killed,
    /// The child could not be killed.
    KillFailed(String),
    /// The killed child was reaped.
    Reaped,
    /// The killed child could not be reaped.
    ReapFailed(String),
}

/// What to do next about a child process.
#[derive(Debug, PartialEq, Eq)]
pub enum ChildAction {
    /// Wait a little, and look again.
    Sleep,
    /// Kill the child.
    Kill,
    /// Reap the killed child.
    Reap,
    /// The child is gone; `cancelled` tells whether that is the host's doing.
    Finish { cancelled: bool },
    /// The wait ends without a status.
    Fail(String),
}

/// Whether an action is the answer to an event. A running child is left alone unless the run was
/// cancelled; then it is killed and reaped.
pub open spec fn answers(action: ChildAction, event: ChildEvent, cancelled: bool) -> bool {
    match event {
        ChildEvent::Running => action == (if cancelled {
            ChildAction::Kill
        } else {
            ChildAction::Sleep
        }),
        ChildEvent::Exited => action == (ChildAction::Finish { cancelled: false }),
        ChildEvent::PollFailed(error) => action matches ChildAction::Fail(message) && message@
            == "child status could not be read: "@ + error@,
        ChildEvent::Killed => action is Reap,
        ChildEvent::KillFailed(error) => action matches ChildAction::Fail(message) && message@
            == "cancelled child could not be killed: "@ + error@,
        ChildEvent::Reaped => action == (ChildAction::Finish { cancelled: true }),
        ChildEvent::ReapFailed(error) => action matches ChildAction::Fail(message) && message@
            == "cancelled child could not be reaped: "@ + error@,
    }
}

/// Decides what to do next about a child process.
pub fn next_child_action(event: ChildEvent, cancelled: bool) -> (r: ChildAction)
    ensures
        answers(r, event, cancelled),
{
    match event {
        ChildEvent::Running => if cancelled {
            ChildAction::Kill
        } else {
            ChildAction::Sleep
        },
        ChildEvent::Exited => ChildAction::Finish { cancelled: false },
        ChildEvent::PollFailed(error) => {
            let mut message = String::from_str("child status could not be read: ");
            message.append(error.as_str());
            ChildAction::Fail(message)
        },
        ChildEvent::Killed => ChildAction::Reap,
        ChildEvent::KillFailed(error) => {
            let mut message = String::from_str("cancelled child could not be killed: ");
            message.append(error.as_str());
            ChildAction::Fail(message)
        },
        ChildEvent::Reaped => ChildAction::Finish { cancelled: true },
        ChildEvent::ReapFailed(error) => {
            let mut message = String::from_str("cancelled child could not be reaped: ");
            message.append(error.as_str());
            ChildAction::Fail(message)
        },
    }
}

/// Whether an event can follow an action: looking at a child, killing it and reaping it each
/// have their own outcomes.
pub open spec fn may_follow(event: ChildEvent, action: ChildAction) -> bool {
    match action {
        ChildAction::Sleep => event is Running || event is Exited || event is PollFailed,
        ChildAction::Kill => event is Killed || event is KillFailed,
        ChildAction::Reap => event is Reaped || event is ReapFailed,
        _ => false,
    }
}

/// Whether a list of events and actions is the course of a wait: every action answers its event,
/// and every event can follow the action before it. `cancelled[i]` tells whether the run was
/// cancelled at the time of the i-th event.
pub open spec fn is_wait(
    events: Seq<ChildEvent>,
    actions: Seq<ChildAction>,
    cancelled: Seq<bool>,
) -> bool {
    &&& events.len() == actions.len() == cancelled.len()
    &&& events.len() > 0
    &&& may_follow(events[0], ChildAction::Sleep)
    &&& forall|i: int|
        0 <= i < events.len() ==> answers(#[trigger] actions[i], events[i], cancelled[i])
    &&& forall|i: int|
        1 <= i < events.len() ==> may_follow(#[trigger] events[i], actions[i - 1])
}

/// A wait that ends as cancelled saw the cancellation while the child was running, and killed
/// and reaped the child after that.
pub proof fn cancelled_waits_reap_the_child(
    events: Seq<ChildEvent>,
    actions: Seq<ChildAction>,
    cancelled: Seq<bool>,
)
    requires
        is_wait(events, actions, cancelled),
        actions.last() == (ChildAction::Finish { cancelled: true }),
    ensures
        events.len() >= 3,
        events[events.len() - 3] is Running && cancelled[events.len() - 3],
        actions[events.len() - 3] is Kill,
        events[events.len() - 2] is Killed && actions[events.len() - 2] is Reap,
        events.last() is Reaped,
{
    let n = events.len() as int;
    assert(answers(actions[n - 1], events[n - 1], cancelled[n - 1]));
    assert(events[n - 1] is Reaped);
    assert(may_follow(events[n - 1], actions[n - 2]));
    assert(answers(actions[n - 2], events[n - 2], cancelled[n - 2]));
    assert(events[n - 2] is Killed);
    assert(may_follow(events[n - 2], actions[n - 3]));
    assert(answers(actions[n - 3], events[n - 3], cancelled[n - 3]));
}

/// A child is never killed in a run that was not cancelled.
pub proof fn uncancelled_waits_leave_the_child_alone(
    events: Seq<ChildEvent>,
    actions: Seq<ChildAction>,
    cancelled: Seq<bool>,
    i: int,
)
    requires
        is_wait(events, actions, cancelled),
        forall|j: int| 0 <= j < cancelled.len() ==> !cancelled[j],
        0 <= i < actions.len(),
    ensures
        !(actions[i] is Kill),
        !(actions[i] is Reap),
    decreases i,
{
    assert(answers(actions[i], events[i], cancelled[i]));
    if i > 0 {
        uncancelled_waits_leave_the_child_alone(events, actions, cancelled, i - 1);
        assert(may_follow(events[i], actions[i - 1]));
    }
}

// ---------------------------------------------------------------------------------------------
// Deadlines
// ---------------------------------------------------------------------------------------------
/// The deadline of a run: a guard that cancels the run when its time is up, unless it was
/// disarmed before.
#[derive(Debug, PartialEq, Eq)]
pub struct DeadlineGuard {
    pub disarmed: bool,
    pub expired: bool,
}

/// The guard after its wait, and whether the run is to be cancelled for it.
pub open spec fn settled_guard(guard: DeadlineGuard, timed_out: bool) -> (DeadlineGuard, bool) {
    if guard.disarmed || guard.expired || !timed_out {
        (guard, false)
    } else {
        (DeadlineGuard { disarmed: guard.disarmed, expired: true }, true)
    }
}

/// The guard after it was ended.
pub open spec fn disarmed_guard(guard: DeadlineGuard) -> DeadlineGuard {
    DeadlineGuard { disarmed: true, expired: guard.expired }
}

impl DeadlineGuard {
    /// A guard that waits for its time.
    pub fn arm() -> (r: Self)
        ensures
            !r.disarmed,
            !r.expired,
    {
        DeadlineGuard { disarmed: false, expired: false }
    }

    /// Whether the time was up before the guard was disarmed.
    pub fn expired(&self) -> (r: bool)
        ensures
            r == self.expired,
    {
        self.expired
    }

    /// Ends the guard: from now on it does not expire any more.
    pub fn disarm(&mut self)
        ensures
            final(self).disarmed,
            final(self).expired == old(self).expired,
            *final(self) == disarmed_guard(*old(self)),
    {
        self.disarmed = true;
    }

    /// Settles the wait of the guard, where `timed_out` tells whether its time was up. Tells
    /// whether the run is to be cancelled, which it is at most once.
    pub fn settle(&mut self, timed_out: bool) -> (r: bool)
        ensures
            r == (!old(self).disarmed && !old(self).expired && timed_out),
            final(self).disarmed == old(self).disarmed,
            final(self).expired == (old(self).expired || r),
            (*final(self), r) == settled_guard(*old(self), timed_out),
    {
        if !self.disarmed && !self.expired && timed_out {
            self.expired = true;
            true
        } else {
            false
        }
    }
}

/// Each thing that is seen of a child has one answer: a child that runs is killed exactly if the run
/// was cancelled, one that was killed is reaped, one that has exited by itself is never counted as
/// cancelled, and what cannot be done is told with the reason.
pub proof fn children_are_answered(
    action: ChildAction,
    event: ChildEvent,
    cancelled: bool,
)
    requires
        answers(action, event, cancelled),
    ensures
        event is Running && cancelled ==> action is Kill,
        event is Running && !cancelled ==> action is Sleep,
        event is Exited ==> action == (ChildAction::Finish { cancelled: false }),
        event is Killed ==> action is Reap,
        event is Reaped ==> action == (ChildAction::Finish { cancelled: true }),
        event matches ChildEvent::PollFailed(error) ==> (action matches ChildAction::Fail(message)
            && error@.is_suffix_of(message@)),
        event matches ChildEvent::KillFailed(error) ==> (action matches ChildAction::Fail(message)
            && error@.is_suffix_of(message@)),
        event matches ChildEvent::ReapFailed(error) ==> (action matches ChildAction::Fail(message)
            && error@.is_suffix_of(message@)),
{
    if let ChildAction::Fail(message) = action {
        let told = message@;
        match event {
            ChildEvent::PollFailed(error) => {
                assert(error@ =~= told.subrange(told.len() - error@.len(), told.len() as int));
            },
            ChildEvent::KillFailed(error) => {
                assert(error@ =~= told.subrange(told.len() - error@.len(), told.len() as int));
            },
            ChildEvent::ReapFailed(error) => {
                assert(error@ =~= told.subrange(told.len() - error@.len(), told.len() as int));
            },
            _ => {},
        }
    }
}

/// The name of a capture tells what it is of: the operation, the process, the number and the
/// stream.
pub proof fn captures_are_named_after_their_use(
    operation: Seq<char>,
    process_id: nat,
    sequence: nat,
    stream: Seq<char>,
)
    ensures
        ("pi-agent-runebench-"@ + operation + "-"@).is_prefix_of(
            capture_file_name(operation, process_id, sequence, stream),
        ),
        ("-"@ + decimal_text(process_id) + "-"@ + decimal_text(sequence) + "-"@
            + stream).is_suffix_of(capture_file_name(operation, process_id, sequence, stream)),
{
    let name = capture_file_name(operation, process_id, sequence, stream);
    let start = "pi-agent-runebench-"@ + operation + "-"@;
    let end = "-"@ + decimal_text(process_id) + "-"@ + decimal_text(sequence) + "-"@ + stream;
    reveal_strlit("-");
    assert(start =~= name.subrange(0, start.len() as int));
    assert(end =~= name.subrange(name.len() - end.len(), name.len() as int));
}

/// A capture file is used where it was created, up to sixteen names are tried where the name is taken,
/// and what refuses the file ends the attempts with the reason.
pub proof fn sixteen_names_are_tried(step: CaptureStep, attempts: int, outcome: CreateOutcome)
    requires
        decides_on_capture(step, attempts, outcome),
    ensures
        outcome is Created <==> step is Use,
        outcome is AlreadyExists && attempts < 16 <==> step is Retry,
        outcome is AlreadyExists && attempts >= 16 ==> (step matches CaptureStep::GiveUp(failure)
            && failure is Exhausted),
        outcome matches CreateOutcome::Failed(message) ==> (step matches CaptureStep::GiveUp(failure)
            && failure == CaptureFailure::Refused(message)),
{
}

/// A guard cancels the run when its time is up, once: not before its time, not a second time, and not
/// after it was disarmed. That its time was up stays known when it is disarmed.
pub proof fn deadlines_cancel_once(guard: DeadlineGuard)
    ensures
        !guard.disarmed && !guard.expired ==> settled_guard(guard, true).1 && settled_guard(
            guard,
            true,
        ).0.expired,
        !settled_guard(guard, false).1 && settled_guard(guard, false).0 == guard,
        !settled_guard(settled_guard(guard, true).0, true).1,
        !settled_guard(disarmed_guard(guard), true).1,
        settled_guard(disarmed_guard(guard), true).0 == disarmed_guard(guard),
        disarmed_guard(guard).expired == guard.expired,
        disarmed_guard(guard).disarmed,
{
}

}
