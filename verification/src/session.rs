//! The session lifecycle state machine.
//!
//! One session is one run of the host process: create the isolated context,
//! open the database inside it, run the interactive loop, close the
//! database, destroy the context, exit.  The machine is driven by events —
//! the outcome of the previous action — and answers each event with the
//! next state and the next action.  The surrounding process performs the
//! action (a boundary call, a terminal read, teardown) and feeds the
//! outcome back in as the next event; it makes no decision of its own.
//!
//! Transitions are strictly forward and every boundary call is gated on the
//! success of the step before it.  A transport-layer failure on any
//! boundary call is fatal to the whole session: no further boundary call is
//! issued, and only the context destruction still owed is performed.

use vstd::prelude::*;
use crate::command::{classify_line, line_class, LineClass};
use crate::status::{AppStatus, BoundaryStatus};

verus! {

/// How the session ended, pending from the moment the end is decided until
/// the process exits.
#[derive(Clone, Copy, Debug, PartialEq, Eq, Structural)]
pub enum Outcome {
    /// The loop ended by request (exit literal or end of input) and the
    /// close call succeeded on both layers.
    Success,
    /// The process arguments were rejected; no session was started.
    UsageRejected,
    /// The isolated context could not be created.
    CreateFailed,
    /// A boundary call failed at the transport layer.
    TransportFailed,
    /// The open-database call completed but the operation failed.
    OpenRejected,
    /// The close-database call completed but the operation failed.
    CloseFailed,
    /// A terminal read failed; the session was wound down normally.
    InputFailed,
}

/// The outcome of one attempt to read a line from the controlling
/// terminal.
#[derive(Debug, PartialEq, Eq)]
pub enum ReadOutcome {
    /// The input stream ended cleanly.
    EndOfInput,
    /// The read itself failed.
    Failed,
    /// One line was read, terminator included.
    Line { text: String },
}

/// An event: the outcome of the action the machine asked for last.
#[derive(Debug, PartialEq, Eq)]
pub enum Event {
    /// The process started with `arg_count` arguments (program name
    /// included) and `db_name` as the database argument, empty if there
    /// was none.
    Started { arg_count: usize, db_name: String },
    /// The attempt to create the isolated context finished.
    CreateResult { created: bool },
    /// The open-database boundary call returned.
    OpenResult { status: BoundaryStatus },
    /// The prompt-and-read of one terminal line finished.
    LineRead { read: ReadOutcome },
    /// The execute-statement boundary call returned.
    ExecuteResult { status: BoundaryStatus },
    /// The close-database boundary call returned.
    CloseResult { status: BoundaryStatus },
    /// The isolated context has been destroyed.
    DestroyDone,
}

/// What the machine asks the surrounding process to do next.
#[derive(Debug, PartialEq, Eq)]
pub enum Action {
    /// Create the isolated context.
    CreateContext,
    /// Issue the open-database boundary call with `name` as the database
    /// name, passed through unchanged.
    OpenDatabase { name: String },
    /// Show the prompt and read one line.
    PromptAndRead,
    /// Issue the execute-statement boundary call with `text`, one input
    /// line passed through unchanged.
    ExecuteStatement { text: String },
    /// Issue the close-database boundary call.
    CloseDatabase,
    /// Destroy the isolated context.
    DestroyContext,
    /// The session is over: report `outcome` and exit.
    Exit { outcome: Outcome },
}

/// The lifecycle state, which also records which event is expected next.
#[derive(Debug, PartialEq, Eq)]
pub enum SessionState {
    /// Process start; nothing exists yet.
    Uninitialized,
    /// Context creation has been requested; `db_name` is kept for the
    /// open call that follows.
    Creating { db_name: String },
    /// The context exists and the open-database call has been issued.
    Created,
    /// The database is open; the interactive loop is running.
    DatabaseOpen,
    /// The close-database call has been issued.  `clean` is false when
    /// the loop was ended by a failed terminal read.
    Closing { clean: bool },
    /// Context destruction has been requested; `outcome` is how the
    /// session ended.
    Destroying { outcome: Outcome },
    /// Terminal: the context existed and has been destroyed.
    Destroyed { outcome: Outcome },
    /// Terminal: the session ended before a context ever existed.
    Refused { outcome: Outcome },
}

/// Whether `event` is the outcome of the action that `state` is waiting
/// on.  The two terminal states wait on nothing.  In `DatabaseOpen` both a
/// line read and an execute result are accepted, since the loop alternates
/// between the two.
pub open spec fn expects(state: SessionState, event: Event) -> bool {
    match (state, event) {
        (SessionState::Uninitialized, Event::Started { .. }) => true,
        (SessionState::Creating { .. }, Event::CreateResult { .. }) => true,
        (SessionState::Created, Event::OpenResult { .. }) => true,
        (SessionState::DatabaseOpen, Event::LineRead { .. }) => true,
        (SessionState::DatabaseOpen, Event::ExecuteResult { .. }) => true,
        (SessionState::Closing { .. }, Event::CloseResult { .. }) => true,
        (SessionState::Destroying { .. }, Event::DestroyDone) => true,
        _ => false,
    }
}

/// The transition function: the state and action that follow `event` in
/// `state`.  This is the whole decision logic of the session:
///
/// - arguments other than exactly one database name are rejected before
///   anything is created;
/// - every boundary call requires the success of the step before it;
/// - an open-database failure on either layer is fatal, but the context,
///   already created, is still destroyed;
/// - an execute-statement application failure is not fatal: the loop asks
///   for the next line;
/// - a transport failure anywhere is fatal and forbids every further
///   boundary call, so teardown skips the close call;
/// - once a context was created, every path leads through exactly one
///   `DestroyContext`, issued after the close result (if any) is in.
///
/// The function is total; on a pairing of state and event that `expects`
/// refuses — which a driver that feeds back the outcome of the action it
/// was asked for never produces — it falls through to refusing the
/// session.
pub open spec fn spec_step(state: SessionState, event: Event) -> (SessionState, Action) {
    match (state, event) {
        (SessionState::Uninitialized, Event::Started { arg_count, db_name }) => {
            if arg_count == 2 {
                (SessionState::Creating { db_name }, Action::CreateContext)
            } else {
                (
                    SessionState::Refused { outcome: Outcome::UsageRejected },
                    Action::Exit { outcome: Outcome::UsageRejected },
                )
            }
        },
        (SessionState::Creating { db_name }, Event::CreateResult { created }) => {
            if created {
                (SessionState::Created, Action::OpenDatabase { name: db_name })
            } else {
                (
                    SessionState::Refused { outcome: Outcome::CreateFailed },
                    Action::Exit { outcome: Outcome::CreateFailed },
                )
            }
        },
        (SessionState::Created, Event::OpenResult { status }) => {
            match status {
                BoundaryStatus::TransportFailure => (
                    SessionState::Destroying { outcome: Outcome::TransportFailed },
                    Action::DestroyContext,
                ),
                BoundaryStatus::Completed { app: AppStatus::Failure } => (
                    SessionState::Destroying { outcome: Outcome::OpenRejected },
                    Action::DestroyContext,
                ),
                BoundaryStatus::Completed { app: AppStatus::Success } => (
                    SessionState::DatabaseOpen,
                    Action::PromptAndRead,
                ),
            }
        },
        (SessionState::DatabaseOpen, Event::LineRead { read }) => {
            match read {
                ReadOutcome::EndOfInput => (
                    SessionState::Closing { clean: true },
                    Action::CloseDatabase,
                ),
                ReadOutcome::Failed => (
                    SessionState::Closing { clean: false },
                    Action::CloseDatabase,
                ),
                ReadOutcome::Line { text } => {
                    match line_class(text@) {
                        LineClass::Blank => (SessionState::DatabaseOpen, Action::PromptAndRead),
                        LineClass::ExitRequest => (
                            SessionState::Closing { clean: true },
                            Action::CloseDatabase,
                        ),
                        LineClass::Statement => (
                            SessionState::DatabaseOpen,
                            Action::ExecuteStatement { text },
                        ),
                    }
                },
            }
        },
        (SessionState::DatabaseOpen, Event::ExecuteResult { status }) => {
            match status {
                BoundaryStatus::TransportFailure => (
                    SessionState::Destroying { outcome: Outcome::TransportFailed },
                    Action::DestroyContext,
                ),
                // An execute failure is the statement's own failure, already
                // reported through the callback surface: the loop goes on.
                BoundaryStatus::Completed { .. } => (
                    SessionState::DatabaseOpen,
                    Action::PromptAndRead,
                ),
            }
        },
        (SessionState::Closing { clean }, Event::CloseResult { status }) => {
            let outcome = match status {
                BoundaryStatus::TransportFailure => Outcome::TransportFailed,
                BoundaryStatus::Completed { app: AppStatus::Failure } => Outcome::CloseFailed,
                BoundaryStatus::Completed { app: AppStatus::Success } => {
                    if clean {
                        Outcome::Success
                    } else {
                        Outcome::InputFailed
                    }
                },
            };
            (SessionState::Destroying { outcome }, Action::DestroyContext)
        },
        (SessionState::Destroying { outcome }, Event::DestroyDone) => (
            SessionState::Destroyed { outcome },
            Action::Exit { outcome },
        ),
        _ => (SessionState::Refused { outcome: Outcome::UsageRejected }, Action::Exit {
            outcome: Outcome::UsageRejected,
        }),
    }
}

/// Advance the session by one event.  The caller performs the returned
/// action and feeds its outcome back in as the next event.
pub fn step(state: SessionState, event: Event) -> (r: (SessionState, Action))
    requires
        expects(state, event),
    ensures
        r == spec_step(state, event),
{
    match (state, event) {
        (SessionState::Uninitialized, Event::Started { arg_count, db_name }) => {
            if arg_count == 2 {
                (SessionState::Creating { db_name }, Action::CreateContext)
            } else {
                (
                    SessionState::Refused { outcome: Outcome::UsageRejected },
                    Action::Exit { outcome: Outcome::UsageRejected },
                )
            }
        },
        (SessionState::Creating { db_name }, Event::CreateResult { created }) => {
            if created {
                (SessionState::Created, Action::OpenDatabase { name: db_name })
            } else {
                (
                    SessionState::Refused { outcome: Outcome::CreateFailed },
                    Action::Exit { outcome: Outcome::CreateFailed },
                )
            }
        },
        (SessionState::Created, Event::OpenResult { status }) => {
            match status {
                BoundaryStatus::TransportFailure => (
                    SessionState::Destroying { outcome: Outcome::TransportFailed },
                    Action::DestroyContext,
                ),
                BoundaryStatus::Completed { app: AppStatus::Failure } => (
                    SessionState::Destroying { outcome: Outcome::OpenRejected },
                    Action::DestroyContext,
                ),
                BoundaryStatus::Completed { app: AppStatus::Success } => (
                    SessionState::DatabaseOpen,
                    Action::PromptAndRead,
                ),
            }
        },
        (SessionState::DatabaseOpen, Event::LineRead { read }) => {
            match read {
                ReadOutcome::EndOfInput => (
                    SessionState::Closing { clean: true },
                    Action::CloseDatabase,
                ),
                ReadOutcome::Failed => (
                    SessionState::Closing { clean: false },
                    Action::CloseDatabase,
                ),
                ReadOutcome::Line { text } => {
                    match classify_line(&text) {
                        LineClass::Blank => (SessionState::DatabaseOpen, Action::PromptAndRead),
                        LineClass::ExitRequest => (
                            SessionState::Closing { clean: true },
                            Action::CloseDatabase,
                        ),
                        LineClass::Statement => (
                            SessionState::DatabaseOpen,
                            Action::ExecuteStatement { text },
                        ),
                    }
                },
            }
        },
        (SessionState::DatabaseOpen, Event::ExecuteResult { status }) => {
            match status {
                BoundaryStatus::TransportFailure => (
                    SessionState::Destroying { outcome: Outcome::TransportFailed },
                    Action::DestroyContext,
                ),
                BoundaryStatus::Completed { .. } => (
                    SessionState::DatabaseOpen,
                    Action::PromptAndRead,
                ),
            }
        },
        (SessionState::Closing { clean }, Event::CloseResult { status }) => {
            let outcome = match status {
                BoundaryStatus::TransportFailure => Outcome::TransportFailed,
                BoundaryStatus::Completed { app: AppStatus::Failure } => Outcome::CloseFailed,
                BoundaryStatus::Completed { app: AppStatus::Success } => {
                    if clean {
                        Outcome::Success
                    } else {
                        Outcome::InputFailed
                    }
                },
            };
            (SessionState::Destroying { outcome }, Action::DestroyContext)
        },
        (SessionState::Destroying { outcome }, Event::DestroyDone) => (
            SessionState::Destroyed { outcome },
            Action::Exit { outcome },
        ),
        _ => vstd::pervasive::unreached(),
    }
}

/// Whether the session is over and the process exits with a failure code.
/// A failed terminal read winds the session down normally and is not a
/// process failure.
pub open spec fn outcome_is_failure(outcome: Outcome) -> bool {
    match outcome {
        Outcome::Success => false,
        Outcome::InputFailed => false,
        _ => true,
    }
}

/// The process exit code for an outcome: zero for a session that ended by
/// request and wound down in order, one otherwise.
pub fn exit_code(outcome: Outcome) -> (code: i32)
    ensures
        code == 0 <==> !outcome_is_failure(outcome),
        code == 0 || code == 1,
{
    match outcome {
        Outcome::Success => 0,
        Outcome::InputFailed => 0,
        _ => 1,
    }
}

} // verus!
