//! The run-state machine.
//!
//! The host sequences: locate the entry script, validate the script
//! directory, execute the entry script, then call the script's `update`
//! callback once per frame.  A failure at any stage moves to a terminal
//! `Error` state carrying a human-readable message; from then on the host
//! only renders that message and never runs script code again.
//!
//! The machine is pure decision logic: the surrounding binary performs the
//! outside work that the current state calls for (a filesystem probe, the
//! analyzer subprocess, an interpreter call) and hands the observed outcome
//! back as an [`Event`].

use vstd::prelude::*;
use crate::diagnostics::analysis_clean;
use vstd::utf8::encode_utf8;

verus! {

/// The host's run state.  Transitions are one-directional toward `Error`,
/// which is terminal for the rest of the process lifetime.
#[derive(Debug)]
pub enum RunState {
    Uninitialized,
    Validating,
    Executing,
    Running,
    Error { message: String },
}

/// What one per-frame attempt to drive the script observed: the `update`
/// callback ran, was absent from the API namespace, or raised an error.
#[derive(Debug)]
pub enum FrameOutcome {
    UpdateOk,
    UpdateMissing,
    UpdateFailed { error: String },
}

/// An observation handed back by the surrounding binary after it performed
/// the outside work that the current state called for.
#[derive(Debug)]
pub enum Event {
    /// Whether the entry script exists in the script directory.
    EntryScript { found: bool },
    /// The raw standard output of the static analyzer.
    Analysis { output: String },
    /// The interpreter's verdict on evaluating the entry script:
    /// `None` on success, the interpreter's error text otherwise.
    Execution { failure: Option<String> },
    /// The outcome of one per-frame callback invocation.
    Frame { outcome: FrameOutcome },
}

/// The outside work the machine asks for in each state.
#[derive(Debug, Clone, Copy, PartialEq, Eq, Structural)]
pub enum Action {
    CheckEntryScript,
    RunValidation,
    ExecuteEntryScript,
    CallUpdate,
    ShowError,
}

/// A state stripped of its message, for stating laws over whole runs.
#[derive(Debug, Clone, Copy, PartialEq, Eq, Structural)]
pub enum StateKind {
    Uninitialized,
    Validating,
    Executing,
    Running,
    Failed,
}

/// A frame outcome stripped of its message.
#[derive(Debug, Clone, Copy, PartialEq, Eq, Structural)]
pub enum FrameKind {
    Completed,
    Missing,
    Failed,
}

/// An event stripped of its text, keeping only what the transition reads.
#[derive(Debug, Clone, Copy, PartialEq, Eq, Structural)]
pub enum EventKind {
    EntryScript { found: bool },
    Analysis { clean: bool },
    Execution { ok: bool },
    Frame { outcome: FrameKind },
}

pub open spec fn state_kind(s: RunState) -> StateKind {
    match s {
        RunState::Uninitialized => StateKind::Uninitialized,
        RunState::Validating => StateKind::Validating,
        RunState::Executing => StateKind::Executing,
        RunState::Running => StateKind::Running,
        RunState::Error { .. } => StateKind::Failed,
    }
}

pub open spec fn event_kind(e: Event) -> EventKind {
    match e {
        Event::EntryScript { found } => EventKind::EntryScript { found },
        Event::Analysis { output } => EventKind::Analysis {
            clean: analysis_clean(encode_utf8(output@)),
        },
        Event::Execution { failure } => EventKind::Execution { ok: failure is None },
        Event::Frame { outcome } => EventKind::Frame {
            outcome: match outcome {
                FrameOutcome::UpdateOk => FrameKind::Completed,
                FrameOutcome::UpdateMissing => FrameKind::Missing,
                FrameOutcome::UpdateFailed { .. } => FrameKind::Failed,
            },
        },
    }
}

/// The transition relation, on kinds.  An event that does not answer the
/// state's pending action changes nothing.
pub open spec fn step_kind(s: StateKind, e: EventKind) -> StateKind {
    match (s, e) {
        (StateKind::Uninitialized, EventKind::EntryScript { found }) => if found {
            StateKind::Validating
        } else {
            StateKind::Failed
        },
        (StateKind::Validating, EventKind::Analysis { clean }) => if clean {
            StateKind::Executing
        } else {
            StateKind::Failed
        },
        (StateKind::Executing, EventKind::Execution { ok }) => if ok {
            StateKind::Running
        } else {
            StateKind::Failed
        },
        (StateKind::Running, EventKind::Frame { outcome }) => match outcome {
            FrameKind::Completed => StateKind::Running,
            FrameKind::Missing => StateKind::Failed,
            FrameKind::Failed => StateKind::Failed,
        },
        _ => s,
    }
}

/// Whether the event answers the action pending in this state.
pub open spec fn event_expected(s: RunState, e: Event) -> bool {
    match (state_kind(s), event_kind(e)) {
        (StateKind::Uninitialized, EventKind::EntryScript { .. }) => true,
        (StateKind::Validating, EventKind::Analysis { .. }) => true,
        (StateKind::Executing, EventKind::Execution { .. }) => true,
        (StateKind::Running, EventKind::Frame { .. }) => true,
        _ => false,
    }
}

/// The outside work to perform in each state.
pub open spec fn action_for(k: StateKind) -> Action {
    match k {
        StateKind::Uninitialized => Action::CheckEntryScript,
        StateKind::Validating => Action::RunValidation,
        StateKind::Executing => Action::ExecuteEntryScript,
        StateKind::Running => Action::CallUpdate,
        StateKind::Failed => Action::ShowError,
    }
}

pub open spec fn missing_entry_message() -> Seq<char> {
    "main.lua not found."@
}

pub open spec fn missing_update_message() -> Seq<char> {
    "Update function not found."@
}

impl RunState {
    /// The state a fresh host starts in.
    pub fn initial() -> (s: RunState)
        ensures
            s is Uninitialized,
    {
        RunState::Uninitialized
    }

    /// The outside work this state calls for.
    pub fn next_action(&self) -> (a: Action)
        ensures
            a == action_for(state_kind(*self)),
    {
        match self {
            RunState::Uninitialized => Action::CheckEntryScript,
            RunState::Validating => Action::RunValidation,
            RunState::Executing => Action::ExecuteEntryScript,
            RunState::Running => Action::CallUpdate,
            RunState::Error { .. } => Action::ShowError,
        }
    }

    /// The message to render, when the state is the terminal error state.
    pub fn error_message(&self) -> (m: Option<&String>)
        ensures
            match *self {
                RunState::Error { message } => m matches Some(x) && *x == message,
                _ => m is None,
            },
    {
        match self {
            RunState::Error { message } => Some(message),
            _ => None,
        }
    }

    /// Advance the machine by one observation.
    ///
    /// On its kind the step follows [`step_kind`]; the clauses below pin the
    /// message each failure carries: the fixed text for a missing entry
    /// script or a missing `update` callback, the full raw analyzer output
    /// for failed validation, and the interpreter's error text for a failed
    /// load or a failed frame.  An out-of-sequence event, and any event once
    /// the error state is reached, changes nothing.
    pub fn step(self, event: Event) -> (next: RunState)
        ensures
            state_kind(next) == step_kind(state_kind(self), event_kind(event)),
            self is Error ==> next == self,
            !event_expected(self, event) ==> next == self,
            self is Uninitialized ==> (event matches Event::EntryScript { found: false } ==> (
            next matches RunState::Error { message } && message@ == missing_entry_message())),
            self is Validating ==> (event matches Event::Analysis { output } ==> (!analysis_clean(
                encode_utf8(output@),
            ) ==> (next matches RunState::Error { message } && message == output))),
            self is Executing ==> (event matches Event::Execution { failure: Some(err) } ==> (
            next matches RunState::Error { message } && message == err)),
            self is Running ==> (event matches Event::Frame {
                outcome: FrameOutcome::UpdateMissing,
            } ==> (next matches RunState::Error { message } && message@
                == missing_update_message())),
            self is Running ==> (event matches Event::Frame {
                outcome: FrameOutcome::UpdateFailed { error },
            } ==> (next matches RunState::Error { message } && message == error)),
    {
        match self {
            RunState::Uninitialized => match event {
                Event::EntryScript { found } => {
                    if found {
                        RunState::Validating
                    } else {
                        RunState::Error { message: "main.lua not found.".to_owned() }
                    }
                },
                _ => RunState::Uninitialized,
            },
            RunState::Validating => match event {
                Event::Analysis { output } => {
                    let clean = crate::diagnostics::analysis_clean_exec(
                        output.as_str().as_bytes(),
                    );
                    if clean {
                        RunState::Executing
                    } else {
                        RunState::Error { message: output }
                    }
                },
                _ => RunState::Validating,
            },
            RunState::Executing => match event {
                Event::Execution { failure } => match failure {
                    None => RunState::Running,
                    Some(err) => RunState::Error { message: err },
                },
                _ => RunState::Executing,
            },
            RunState::Running => match event {
                Event::Frame { outcome } => match outcome {
                    FrameOutcome::UpdateOk => RunState::Running,
                    FrameOutcome::UpdateMissing => RunState::Error {
                        message: "Update function not found.".to_owned(),
                    },
                    FrameOutcome::UpdateFailed { error } => RunState::Error { message: error },
                },
                _ => RunState::Running,
            },
            RunState::Error { message } => RunState::Error { message },
        }
    }
}

/// The state after the first `i` observations of a run that starts
/// uninitialized, on kinds.
pub open spec fn trace_at(events: Seq<EventKind>, i: int) -> StateKind
    decreases i when i >= 0
{
    if i <= 0 {
        StateKind::Uninitialized
    } else {
        step_kind(trace_at(events, i - 1), events[i - 1])
    }
}

/// The error state is terminal: once a run has failed, it is failed after
/// every later observation, whatever the observations are.
pub proof fn lemma_failed_is_terminal(events: Seq<EventKind>, j: int, i: int)
    requires
        0 <= j <= i,
        trace_at(events, j) == StateKind::Failed,
    ensures
        trace_at(events, i) == StateKind::Failed,
    decreases i - j,
{
    if i > j {
        lemma_failed_is_terminal(events, j, i - 1);
    }
}

/// A run whose first observation reports the entry script missing is failed
/// from then on, so validation is never requested: the analyzer and the
/// formatter never run.
pub proof fn lemma_missing_entry_never_validates(events: Seq<EventKind>)
    requires
        events.len() >= 1,
        events[0] == (EventKind::EntryScript { found: false }),
    ensures
        forall|i: int|
            1 <= i <= events.len() ==> trace_at(events, i) == StateKind::Failed,
        forall|i: int|
            0 <= i <= events.len() ==> action_for(trace_at(events, i)) != Action::RunValidation,
{
    assert(trace_at(events, 0) == StateKind::Uninitialized);
    assert(trace_at(events, 1) == StateKind::Failed);
    assert forall|i: int| 1 <= i <= events.len() implies trace_at(events, i)
        == StateKind::Failed by {
        lemma_failed_is_terminal(events, 1, i);
    }
}

/// A run that finds the entry script but fails validation is failed from
/// then on, so the entry script is never executed.
pub proof fn lemma_dirty_analysis_never_executes(events: Seq<EventKind>)
    requires
        events.len() >= 2,
        events[0] == (EventKind::EntryScript { found: true }),
        events[1] == (EventKind::Analysis { clean: false }),
    ensures
        forall|i: int|
            2 <= i <= events.len() ==> trace_at(events, i) == StateKind::Failed,
        forall|i: int|
            0 <= i <= events.len() ==> action_for(trace_at(events, i))
                != Action::ExecuteEntryScript,
{
    assert(trace_at(events, 0) == StateKind::Uninitialized);
    assert(trace_at(events, 1) == StateKind::Validating);
    assert(trace_at(events, 2) == StateKind::Failed);
    assert forall|i: int| 2 <= i <= events.len() implies trace_at(events, i)
        == StateKind::Failed by {
        lemma_failed_is_terminal(events, 2, i);
    }
}

/// A running script that keeps completing its frame callback keeps the host
/// running: frames that succeed never leave the running state.
pub proof fn lemma_running_persists(events: Seq<EventKind>, j: int, i: int)
    requires
        0 <= j <= i <= events.len(),
        trace_at(events, j) == StateKind::Running,
        forall|k: int|
            j <= k < i ==> events[k] == (EventKind::Frame { outcome: FrameKind::Completed }),
    ensures
        trace_at(events, i) == StateKind::Running,
    decreases i - j,
{
    if i > j {
        lemma_running_persists(events, j, i - 1);
    }
}

} // verus!
