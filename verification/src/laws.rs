//! Properties of whole session runs.
//!
//! A run is a sequence of events fed to the state machine from some
//! starting state; it induces a sequence of actions and a final state.
//! The lemmas here state the session-wide guarantees: once a context was
//! created it is destroyed exactly once on every exit path, no boundary
//! call is ever issued after teardown has begun (in particular after any
//! transport failure), rejected arguments lead to a run with no boundary
//! call and no context creation at all, and the database name reaches the
//! open call unchanged.

use vstd::prelude::*;
use crate::session::{expects, spec_step, Action, Event, Outcome, ReadOutcome, SessionState};
use crate::status::{AppStatus, BoundaryStatus};

verus! {

/// The state after feeding `events`, one by one, from `state`.
pub open spec fn run_state(state: SessionState, events: Seq<Event>) -> SessionState
    decreases events.len(),
{
    if events.len() == 0 {
        state
    } else {
        run_state(spec_step(state, events[0]).0, events.drop_first())
    }
}

/// Whether every event of `events` is the one its state is waiting on.
/// The driving process always feeds the outcome of the action it was just
/// asked to perform, so its runs are accepted by construction.
pub open spec fn accepted_from(state: SessionState, events: Seq<Event>) -> bool
    decreases events.len(),
{
    events.len() == 0 || (expects(state, events[0]) && accepted_from(
        spec_step(state, events[0]).0,
        events.drop_first(),
    ))
}

/// The actions the machine asks for along the run, in order.
pub open spec fn actions_from(state: SessionState, events: Seq<Event>) -> Seq<Action>
    decreases events.len(),
{
    if events.len() == 0 {
        Seq::empty()
    } else {
        seq![spec_step(state, events[0]).1] + actions_from(
            spec_step(state, events[0]).0,
            events.drop_first(),
        )
    }
}

/// An action that crosses into the isolated context.
pub open spec fn is_boundary_action(action: Action) -> bool {
    ||| action is OpenDatabase
    ||| action is ExecuteStatement
    ||| action is CloseDatabase
}

/// States in which the isolated context exists and has not been destroyed.
pub open spec fn context_exists(state: SessionState) -> bool {
    ||| state is Created
    ||| state is DatabaseOpen
    ||| state is Closing
    ||| state is Destroying
}

/// States from which no further event is accepted.
pub open spec fn is_terminal(state: SessionState) -> bool {
    state is Destroyed || state is Refused
}

/// States in which the session is already over: the only thing left, if
/// anything, is destruction and exit.
pub open spec fn in_teardown(state: SessionState) -> bool {
    state is Destroying || state is Destroyed || state is Refused
}

/// How many destruction requests the machine has issued to reach `state`:
/// one exactly from the moment destruction is requested.
pub open spec fn destroys_recorded(state: SessionState) -> nat {
    if state is Destroying || state is Destroyed {
        1
    } else {
        0
    }
}

/// How many of `actions` are context destructions.
pub open spec fn destroy_count(actions: Seq<Action>) -> nat
    decreases actions.len(),
{
    if actions.len() == 0 {
        0
    } else {
        (if actions[0] is DestroyContext {
            1nat
        } else {
            0nat
        }) + destroy_count(actions.drop_first())
    }
}

/// Whether the run passes through a state in which the context exists.
pub open spec fn context_ever(state: SessionState, events: Seq<Event>) -> bool
    decreases events.len(),
{
    context_exists(state) || (events.len() > 0 && context_ever(
        spec_step(state, events[0]).0,
        events.drop_first(),
    ))
}

/// Every action of `actions` is an exit report.
pub open spec fn all_exits(actions: Seq<Action>) -> bool {
    forall|i: int| 0 <= i < actions.len() ==> (#[trigger] actions[i]) is Exit
}

/// No action of `actions` is an open-database call.
pub open spec fn no_open_action(actions: Seq<Action>) -> bool {
    forall|i: int| 0 <= i < actions.len() ==> !((#[trigger] actions[i]) is OpenDatabase)
}

/// Every open-database call among `actions` carries `db_name`.
pub open spec fn open_names_are(actions: Seq<Action>, db_name: String) -> bool {
    forall|i: int|
        0 <= i < actions.len() ==> ((#[trigger] actions[i]) matches Action::OpenDatabase { name }
            ==> name == db_name)
}

/// How far along its lifecycle the session has come.  The two ways of
/// being over — with the context destroyed, or refused before a context
/// existed — are equally final.
pub open spec fn lifecycle_rank(state: SessionState) -> nat {
    match state {
        SessionState::Uninitialized => 0,
        SessionState::Creating { .. } => 1,
        SessionState::Created => 2,
        SessionState::DatabaseOpen => 3,
        SessionState::Closing { .. } => 4,
        SessionState::Destroying { .. } => 5,
        SessionState::Destroyed { .. } => 6,
        SessionState::Refused { .. } => 6,
    }
}

/// Transitions are strictly forward: no step ever returns the session to
/// an earlier lifecycle stage.  The one stage a step may stay in is the
/// interactive loop itself.
pub proof fn lemma_transitions_forward(state: SessionState, event: Event)
    requires
        expects(state, event),
    ensures
        lifecycle_rank(spec_step(state, event).0) >= lifecycle_rank(state),
        lifecycle_rank(spec_step(state, event).0) == lifecycle_rank(state) ==> state
            is DatabaseOpen,
{
}

/// Every boundary call is gated on the success of the preceding lifecycle
/// step: the machine asks to open the database only once the context was
/// created, and to execute or close only once the database was opened —
/// that is, only from the very states that the preceding call's success
/// establishes.
pub proof fn lemma_calls_gated(state: SessionState, event: Event)
    requires
        expects(state, event),
    ensures
        spec_step(state, event).1 is CreateContext ==> state is Uninitialized,
        spec_step(state, event).1 is OpenDatabase ==> state is Creating && event == (
        Event::CreateResult { created: true }),
        spec_step(state, event).1 is ExecuteStatement ==> state is DatabaseOpen,
        spec_step(state, event).1 is CloseDatabase ==> state is DatabaseOpen,
        spec_step(state, event).1 is DestroyContext ==> context_exists(state),
{
}

/// Indexing into a sequence with one action put in front.
proof fn lemma_cons_index(action: Action, rest: Seq<Action>)
    ensures
        (seq![action] + rest).len() == 1 + rest.len(),
        (seq![action] + rest)[0] == action,
        forall|i: int| 1 <= i < 1 + rest.len() ==> (seq![action] + rest)[i] == rest[i - 1],
{
}

/// One step changes the recorded destruction count exactly when it asks
/// for a destruction: destruction is requested on the transition into
/// `Destroying` and never again.
proof fn lemma_step_destroy(state: SessionState, event: Event)
    requires
        expects(state, event),
    ensures
        destroys_recorded(spec_step(state, event).0) == destroys_recorded(state) + (
        if spec_step(state, event).1 is DestroyContext {
            1nat
        } else {
            0nat
        }),
{
}

/// Along an accepted run, the destructions asked for are exactly the
/// difference of the recorded counts: never more than one in total, and
/// exactly one once the run reaches the destroying or destroyed state.
pub proof fn lemma_destroy_accounting(state: SessionState, events: Seq<Event>)
    requires
        accepted_from(state, events),
    ensures
        destroy_count(actions_from(state, events)) + destroys_recorded(state)
            == destroys_recorded(run_state(state, events)),
    decreases events.len(),
{
    if events.len() > 0 {
        let head = spec_step(state, events[0]).1;
        let mid = spec_step(state, events[0]).0;
        let rest = actions_from(mid, events.drop_first());
        lemma_step_destroy(state, events[0]);
        lemma_destroy_accounting(mid, events.drop_first());
        lemma_cons_index(head, rest);
        assert((seq![head] + rest).drop_first() =~= rest);
    }
}

/// One step never loses the context without destroying it: from a state
/// in which the context exists, the run stays in such a state or ends up
/// destroyed.
proof fn lemma_step_keeps_context(state: SessionState, event: Event)
    requires
        expects(state, event),
        context_exists(state) || state is Destroyed,
    ensures
        context_exists(spec_step(state, event).0) || spec_step(state, event).0 is Destroyed,
{
}

/// Along an accepted run, once the context exists it exists until it is
/// destroyed; in particular the run can never end in `Refused`.
proof fn lemma_run_keeps_context(state: SessionState, events: Seq<Event>)
    requires
        accepted_from(state, events),
        context_exists(state) || state is Destroyed,
    ensures
        context_exists(run_state(state, events)) || run_state(state, events) is Destroyed,
    decreases events.len(),
{
    if events.len() > 0 {
        lemma_step_keeps_context(state, events[0]);
        lemma_run_keeps_context(spec_step(state, events[0]).0, events.drop_first());
    }
}

/// If an accepted run ever holds the context, its final state holds the
/// context still or has destroyed it.
proof fn lemma_context_ever_final(state: SessionState, events: Seq<Event>)
    requires
        accepted_from(state, events),
        context_ever(state, events),
    ensures
        context_exists(run_state(state, events)) || run_state(state, events) is Destroyed,
    decreases events.len(),
{
    if context_exists(state) {
        lemma_run_keeps_context(state, events);
    } else {
        lemma_context_ever_final(spec_step(state, events[0]).0, events.drop_first());
    }
}

/// Lifecycle completeness: a complete run — one that has reached a state
/// accepting no further event — that ever created the isolated context
/// has destroyed it, and has asked for exactly one destruction along the
/// way, whichever exit path it took.
pub proof fn lemma_lifecycle_completeness(events: Seq<Event>)
    requires
        accepted_from(SessionState::Uninitialized, events),
        context_ever(SessionState::Uninitialized, events),
        is_terminal(run_state(SessionState::Uninitialized, events)),
    ensures
        run_state(SessionState::Uninitialized, events) is Destroyed,
        destroy_count(actions_from(SessionState::Uninitialized, events)) == 1,
{
    lemma_context_ever_final(SessionState::Uninitialized, events);
    lemma_destroy_accounting(SessionState::Uninitialized, events);
}

/// A run never asks for the destruction of the context more than once,
/// complete or not.
pub proof fn lemma_destroy_at_most_once(events: Seq<Event>)
    requires
        accepted_from(SessionState::Uninitialized, events),
    ensures
        destroy_count(actions_from(SessionState::Uninitialized, events)) <= 1,
{
    lemma_destroy_accounting(SessionState::Uninitialized, events);
}

/// One step out of teardown stays in teardown and asks for nothing but
/// the exit report.
proof fn lemma_step_teardown(state: SessionState, event: Event)
    requires
        expects(state, event),
        state is Destroying,
    ensures
        spec_step(state, event).0 is Destroyed,
        spec_step(state, event).1 is Exit,
{
}

/// Once teardown has begun, the machine never again asks for a boundary
/// call, a context creation, or a read: every further action is the exit
/// report.
pub proof fn lemma_teardown_emits_only_exit(state: SessionState, events: Seq<Event>)
    requires
        accepted_from(state, events),
        in_teardown(state),
    ensures
        all_exits(actions_from(state, events)),
        forall|i: int|
            0 <= i < actions_from(state, events).len() ==> !is_boundary_action(
                #[trigger] actions_from(state, events)[i],
            ),
    decreases events.len(),
{
    if events.len() > 0 {
        let head = spec_step(state, events[0]).1;
        let mid = spec_step(state, events[0]).0;
        let rest = actions_from(mid, events.drop_first());
        lemma_step_teardown(state, events[0]);
        lemma_teardown_emits_only_exit(mid, events.drop_first());
        lemma_cons_index(head, rest);
        assert forall|i: int| 0 <= i < (seq![head] + rest).len() implies (#[trigger] (seq![head]
            + rest)[i]) is Exit by {
            if i > 0 {
                assert((seq![head] + rest)[i] == rest[i - 1]);
            }
        }
    }
}

/// An event that reports a transport-layer failure of a boundary call.
pub open spec fn reports_transport_failure(event: Event) -> bool {
    ||| event == Event::OpenResult { status: BoundaryStatus::TransportFailure }
    ||| event == Event::ExecuteResult { status: BoundaryStatus::TransportFailure }
    ||| event == Event::CloseResult { status: BoundaryStatus::TransportFailure }
}

/// A transport failure on any boundary call is fatal to the whole
/// session: the machine moves straight to teardown with the transport
/// failure as the outcome, and from then on no boundary call — the close
/// call included — and no other work is ever asked for again, only the
/// destruction just requested and the exit report.
pub proof fn lemma_transport_failure_fatal(state: SessionState, event: Event, events: Seq<Event>)
    requires
        expects(state, event),
        reports_transport_failure(event),
        accepted_from(spec_step(state, event).0, events),
    ensures
        spec_step(state, event).1 is DestroyContext,
        spec_step(state, event).0 == (SessionState::Destroying {
            outcome: Outcome::TransportFailed,
        }),
        all_exits(actions_from(spec_step(state, event).0, events)),
{
    lemma_teardown_emits_only_exit(spec_step(state, event).0, events);
}

/// Open fatality: an open-database call that completed at the transport
/// layer but failed at the application layer ends the session.  The
/// context is still destroyed — that is the very next action — and no
/// execute-statement call (nor any other boundary call) is ever issued.
pub proof fn lemma_open_fatality(events: Seq<Event>)
    requires
        accepted_from(
            spec_step(
                SessionState::Created,
                Event::OpenResult {
                    status: BoundaryStatus::Completed { app: AppStatus::Failure },
                },
            ).0,
            events,
        ),
    ensures
        spec_step(
            SessionState::Created,
            Event::OpenResult { status: BoundaryStatus::Completed { app: AppStatus::Failure } },
        ) == (
        (SessionState::Destroying { outcome: Outcome::OpenRejected }),
        Action::DestroyContext,
        ),
        all_exits(
            actions_from(SessionState::Destroying { outcome: Outcome::OpenRejected }, events),
        ),
{
    lemma_teardown_emits_only_exit(
        SessionState::Destroying { outcome: Outcome::OpenRejected },
        events,
    );
}

/// Execute non-fatality: an execute-statement call that completed at the
/// transport layer leaves the loop running whatever the application
/// layer said — the next action is to prompt and read, and the machine
/// is ready to accept the next line.
pub proof fn lemma_execute_non_fatality(app: AppStatus)
    ensures
        spec_step(
            SessionState::DatabaseOpen,
            Event::ExecuteResult { status: BoundaryStatus::Completed { app } },
        ) == ((SessionState::DatabaseOpen, Action::PromptAndRead)),
        forall|read: ReadOutcome|
            expects(SessionState::DatabaseOpen, Event::LineRead { read }),
{
}

/// Blank-line idempotence: a line holding only the terminator never
/// triggers a boundary call; the machine stays in the loop and prompts
/// again.
pub proof fn lemma_blank_line_idempotence(text: String)
    requires
        text@ == "\n"@,
    ensures
        spec_step(
            SessionState::DatabaseOpen,
            Event::LineRead { read: ReadOutcome::Line { text } },
        ) == ((SessionState::DatabaseOpen, Action::PromptAndRead)),
{
}

/// Exit-sentinel exactness: exactly the reserved literal, terminator
/// included and case respected, ends the loop, and it does so without an
/// execute-statement call; every other non-blank line is forwarded to
/// the execute-statement call unchanged.
pub proof fn lemma_exit_sentinel_exactness(text: String)
    ensures
        crate::command::line_class(text@) is ExitRequest <==> text@ == "quit\n"@,
        text@ == "quit\n"@ ==> spec_step(
            SessionState::DatabaseOpen,
            Event::LineRead { read: ReadOutcome::Line { text } },
        ) == ((SessionState::Closing { clean: true }, Action::CloseDatabase)),
        text@ != "quit\n"@ && text@ != "\n"@ ==> spec_step(
            SessionState::DatabaseOpen,
            Event::LineRead { read: ReadOutcome::Line { text } },
        ) == ((SessionState::DatabaseOpen, Action::ExecuteStatement { text })),
{
    reveal_strlit("\n");
    reveal_strlit("quit\n");
    assert("\n"@.len() == 1);
    assert("quit\n"@.len() == 5);
}

/// Argument-count gate: with any argument count other than exactly one
/// database name, the whole run consists of the one usage report — no
/// context is created and no boundary call is issued.
pub proof fn lemma_argument_count_gate(arg_count: usize, db_name: String, events: Seq<Event>)
    requires
        arg_count != 2,
        accepted_from(
            SessionState::Uninitialized,
            seq![Event::Started { arg_count, db_name }] + events,
        ),
    ensures
        actions_from(
            SessionState::Uninitialized,
            seq![Event::Started { arg_count, db_name }] + events,
        ) =~= seq![Action::Exit { outcome: Outcome::UsageRejected }],
{
    let started = Event::Started { arg_count, db_name };
    let full = seq![started] + events;
    let refused = SessionState::Refused { outcome: Outcome::UsageRejected };
    assert(full.len() == 1 + events.len());
    assert(full[0] == started);
    assert(full.drop_first() =~= events);
    assert(spec_step(SessionState::Uninitialized, started).0 == refused);
    assert(accepted_from(refused, full.drop_first()));
    assert(accepted_from(refused, events));
    if events.len() > 0 {
        assert(!expects(refused, events[0]));
        assert(!accepted_from(refused, events));
    }
    assert(events.len() == 0);
    assert(actions_from(refused, events) =~= Seq::<Action>::empty());
}

/// One step from a state past creation neither re-enters the creation
/// states nor asks for an open-database call.
proof fn lemma_step_no_reopen(state: SessionState, event: Event)
    requires
        expects(state, event),
        !(state is Uninitialized),
        !(state is Creating),
    ensures
        !(spec_step(state, event).0 is Uninitialized),
        !(spec_step(state, event).0 is Creating),
        !(spec_step(state, event).1 is OpenDatabase),
{
}

/// From any state past creation, an accepted run never asks for an
/// open-database call again: the database is opened at most once per
/// session.
pub proof fn lemma_no_reopen(state: SessionState, events: Seq<Event>)
    requires
        accepted_from(state, events),
        !(state is Uninitialized),
        !(state is Creating),
    ensures
        no_open_action(actions_from(state, events)),
    decreases events.len(),
{
    if events.len() > 0 {
        let head = spec_step(state, events[0]).1;
        let mid = spec_step(state, events[0]).0;
        let rest = actions_from(mid, events.drop_first());
        lemma_step_no_reopen(state, events[0]);
        lemma_no_reopen(mid, events.drop_first());
        lemma_cons_index(head, rest);
        assert forall|i: int| 0 <= i < (seq![head] + rest).len() implies !((#[trigger] (seq![head]
            + rest)[i]) is OpenDatabase) by {
            if i > 0 {
                assert((seq![head] + rest)[i] == rest[i - 1]);
            }
        }
    }
}

/// Database-name pass-through: in a run that was started with exactly one
/// database name, every open-database call — and there is at most one —
/// carries that name unchanged.  In particular the reserved non-persistent
/// sentinel reaches the open call as the very literal it is.
pub proof fn lemma_database_name_unchanged(db_name: String, events: Seq<Event>)
    requires
        accepted_from(SessionState::Creating { db_name }, events),
    ensures
        open_names_are(actions_from(SessionState::Creating { db_name }, events), db_name),
    decreases events.len(),
{
    let creating = SessionState::Creating { db_name };
    if events.len() > 0 {
        let head = spec_step(creating, events[0]).1;
        let mid = spec_step(creating, events[0]).0;
        let rest = actions_from(mid, events.drop_first());
        lemma_no_reopen(mid, events.drop_first());
        lemma_cons_index(head, rest);
        assert forall|i: int|
            0 <= i < (seq![head] + rest).len() implies ((#[trigger] (seq![head] + rest)[i]) matches
            Action::OpenDatabase { name } ==> name == db_name) by {
            if i > 0 {
                assert((seq![head] + rest)[i] == rest[i - 1]);
            }
        }
    }
}

} // verus!

