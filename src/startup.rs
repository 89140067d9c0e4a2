//! The start-up sequence as a state machine: the host runtime reports what
//! happened, the machine answers with the next thing to do.
use vstd::prelude::*;
use crate::severity::{build_level, retains, select_level};

verus! {

/// Where the start-up sequence stands.
#[derive(PartialEq, Eq, Structural, Clone, Copy, Debug)]
pub enum Stage {
    /// The verbosity is chosen; the runtime has not called setup yet.
    Configured,
    /// The logging plugin was handed to the runtime for registration.
    AwaitingLogger,
    /// The logger is up and the start-up record was handed out.
    Announcing,
    /// Setup is over: the runtime's loop owns the process.
    Running,
    /// The logger could not be registered: start-up is abandoned.
    Failed,
}

/// What the runtime reports back to the start-up sequence.
#[derive(Debug)]
pub enum Event {
    /// The runtime called the setup hook.
    SetupCalled,
    /// The logging plugin was registered.
    LoggerRegistered,
    /// Registering the logging plugin failed, for the reason given.
    LoggerFailed(String),
    /// The record of the last `Log` action was written.
    Logged,
}

/// What the start-up sequence asks the runtime to do next.
#[derive(Debug)]
pub enum Action {
    /// Register the logging plugin, set to this verbosity.
    RegisterLogger(log::LevelFilter),
    /// Write a log record of this severity with this text.
    Log(log::Level, &'static str),
    /// End setup successfully: the runtime's loop takes over.
    EnterRunLoop,
    /// End setup with this error: the process stops before any window opens.
    Abort(String),
    /// Nothing to do for this event.
    Wait,
}

/// The start-up sequence: its stage and the verbosity the build chose.
#[derive(Debug)]
pub struct Startup {
    pub stage: Stage,
    pub level: log::LevelFilter,
}

/// The text of the informational record written once the logger is up.
pub open spec fn started_text() -> &'static str {
    "Mushin started"
}

/// The text of the informational record written once the logger is up.
pub fn started_message() -> (r: &'static str)
    ensures
        r == started_text(),
{
    "Mushin started"
}

/// The state a build starts in.
pub open spec fn initial(debug_build: bool) -> Startup {
    Startup { stage: Stage::Configured, level: build_level(debug_build) }
}

/// One step: the next state and the action for an event. An event that does
/// not fit the stage changes nothing and asks for nothing.
pub open spec fn transition(s: Startup, e: Event) -> (Startup, Action) {
    match (s.stage, e) {
        (Stage::Configured, Event::SetupCalled) => (
            Startup { stage: Stage::AwaitingLogger, ..s },
            Action::RegisterLogger(s.level),
        ),
        (Stage::AwaitingLogger, Event::LoggerRegistered) => (
            Startup { stage: Stage::Announcing, ..s },
            Action::Log(log::Level::Info, started_text()),
        ),
        (Stage::AwaitingLogger, Event::LoggerFailed(reason)) => (
            Startup { stage: Stage::Failed, ..s },
            Action::Abort(reason),
        ),
        (Stage::Announcing, Event::Logged) => (
            Startup { stage: Stage::Running, ..s },
            Action::EnterRunLoop,
        ),
        _ => (s, Action::Wait),
    }
}

/// The state reached and the actions asked for when `events` arrive in
/// order, starting from `s`.
pub open spec fn replay(s: Startup, events: Seq<Event>) -> (Startup, Seq<Action>)
    decreases events.len(),
{
    if events.len() == 0 {
        (s, Seq::empty())
    } else {
        let (mid, acts) = replay(s, events.drop_last());
        let (next, a) = transition(mid, events.last());
        (next, acts.push(a))
    }
}

/// How many of `acts` ask for a log record.
pub open spec fn records(acts: Seq<Action>) -> nat
    decreases acts.len(),
{
    if acts.len() == 0 {
        0
    } else {
        records(acts.drop_last()) + if acts.last() is Log {
            1nat
        } else {
            0nat
        }
    }
}

/// How many records a run from the initial state has asked for by the time
/// it stands at `stage`.
spec fn records_at(stage: Stage) -> nat {
    match stage {
        Stage::Announcing | Stage::Running => 1,
        _ => 0,
    }
}

/// Each action of a replay is the answer to its own event in the state that
/// the events before it led to.
proof fn lemma_replay_prefix(s: Startup, events: Seq<Event>, i: int)
    requires
        0 <= i < events.len(),
    ensures
        replay(s, events).1.len() == events.len(),
        replay(s, events).1[i] == transition(replay(s, events.take(i)).0, events[i]).1,
    decreases events.len(),
{
    let front = events.drop_last();
    if i < front.len() {
        lemma_replay_prefix(s, front, i);
        assert(front.take(i) =~= events.take(i));
    } else {
        assert(front =~= events.take(i));
        if front.len() > 0 {
            lemma_replay_prefix(s, front, 0);
        } else {
            assert(replay(s, front).1.len() == 0);
        }
    }
}

/// What holds of every run from the initial state of a build.
proof fn lemma_replay_invariant(debug_build: bool, events: Seq<Event>)
    ensures
        ({
            let (s, acts) = replay(initial(debug_build), events);
            &&& acts.len() == events.len()
            &&& s.level == build_level(debug_build)
            &&& records(acts) == records_at(s.stage)
            &&& forall|i: int|
                0 <= i < acts.len() && acts[i] is Log ==> acts[i] == Action::Log(
                    log::Level::Info,
                    started_text(),
                )
            &&& forall|i: int|
                0 <= i < acts.len() && acts[i] is EnterRunLoop ==> s.stage == Stage::Running
                    && records(acts.take(i)) == 1
            &&& forall|i: int| 0 <= i < acts.len() && acts[i] is Abort ==> s.stage == Stage::Failed
        }),
    decreases events.len(),
{
    if events.len() > 0 {
        let front = events.drop_last();
        lemma_replay_invariant(debug_build, front);
        let (mid, before) = replay(initial(debug_build), front);
        let acts = replay(initial(debug_build), events).1;
        assert(acts.drop_last() =~= before);
        assert(acts.take(before.len() as int) =~= before);
        assert forall|i: int| 0 <= i < before.len() implies acts.take(i) =~= before.take(i) by {}
    }
}

/// A registration failure stops start-up for good: in any run of a build, an
/// `Abort` answers exactly a `LoggerFailed` that arrives while the logger is
/// awaited, and once one has been asked for, the runtime's loop is never
/// entered, neither before nor after it.
pub proof fn lemma_failed_logger_never_runs(debug_build: bool, events: Seq<Event>)
    ensures
        ({
            let acts = replay(initial(debug_build), events).1;
            &&& forall|i: int|
                0 <= i < events.len() ==> (acts[i] is Abort <==> (events[i] is LoggerFailed
                    && replay(initial(debug_build), events.take(i)).0.stage
                    == Stage::AwaitingLogger))
            &&& forall|i: int, j: int|
                0 <= i < acts.len() && 0 <= j < acts.len() && acts[i] is Abort ==> !(
                acts[j] is EnterRunLoop)
        }),
{
    lemma_replay_invariant(debug_build, events);
    let acts = replay(initial(debug_build), events).1;
    assert forall|i: int| 0 <= i < events.len() implies ((#[trigger] acts[i]) is Abort <==> (
    events[i] is LoggerFailed && replay(initial(debug_build), events.take(i)).0.stage
        == Stage::AwaitingLogger)) by {
        lemma_replay_prefix(initial(debug_build), events, i);
    }
}

/// Before the runtime's loop takes over, exactly one log record has been
/// asked for, the informational start-up record; a debug build keeps it and a
/// release build drops it.
pub proof fn lemma_started_recorded_once(debug_build: bool, events: Seq<Event>)
    ensures
        retains(build_level(debug_build), log::Level::Info) == debug_build,
        ({
            let acts = replay(initial(debug_build), events).1;
            forall|k: int|
                0 <= k < acts.len() && acts[k] is EnterRunLoop ==> {
                    &&& records(acts.take(k)) == 1
                    &&& forall|i: int|
                        0 <= i < k && acts[i] is Log ==> acts[i] == Action::Log(
                            log::Level::Info,
                            started_text(),
                        )
                }
        }),
{
    lemma_replay_invariant(debug_build, events);
}

impl Startup {
    /// The start-up sequence of a debug build (`true`) or a release build.
    pub fn new(debug_build: bool) -> (r: Startup)
        ensures
            r == initial(debug_build),
    {
        Startup { stage: Stage::Configured, level: select_level(debug_build) }
    }

    /// Takes one event and returns the action it calls for.
    pub fn step(&mut self, event: Event) -> (a: Action)
        ensures
            (*final(self), a) == transition(*old(self), event),
    {
        match (self.stage, event) {
            (Stage::Configured, Event::SetupCalled) => {
                self.stage = Stage::AwaitingLogger;
                Action::RegisterLogger(self.level)
            },
            (Stage::AwaitingLogger, Event::LoggerRegistered) => {
                self.stage = Stage::Announcing;
                Action::Log(log::Level::Info, started_message())
            },
            (Stage::AwaitingLogger, Event::LoggerFailed(reason)) => {
                self.stage = Stage::Failed;
                Action::Abort(reason)
            },
            (Stage::Announcing, Event::Logged) => {
                self.stage = Stage::Running;
                Action::EnterRunLoop
            },
            _ => Action::Wait,
        }
    }
}

} // verus!
