use enclave_session::session::{step, Action, Event, Outcome, ReadOutcome, SessionState};
use enclave_session::status::{AppStatus, BoundaryStatus};

fn ok() -> BoundaryStatus {
    BoundaryStatus::Completed {
        app: AppStatus::Success,
    }
}

fn app_failed() -> BoundaryStatus {
    BoundaryStatus::Completed {
        app: AppStatus::Failure,
    }
}

fn line(text: &str) -> Event {
    Event::LineRead {
        read: ReadOutcome::Line {
            text: String::from(text),
        },
    }
}

#[test]
fn clean_session_destroys_exactly_once() {
    let mut destroys: usize = 0;
    let (s, a) = step(
        SessionState::Uninitialized,
        Event::Started {
            arg_count: 2,
            db_name: String::from("test.db"),
        },
    );
    assert_eq!(a, Action::CreateContext);
    let (s, a) = step(s, Event::CreateResult { created: true });
    assert_eq!(
        a,
        Action::OpenDatabase {
            name: String::from("test.db")
        }
    );
    let (s, a) = step(s, Event::OpenResult { status: ok() });
    assert_eq!(a, Action::PromptAndRead);
    let (s, a) = step(s, line("CREATE TABLE t (x INT);\n"));
    assert_eq!(
        a,
        Action::ExecuteStatement {
            text: String::from("CREATE TABLE t (x INT);\n")
        }
    );
    let (s, a) = step(s, Event::ExecuteResult { status: ok() });
    assert_eq!(a, Action::PromptAndRead);
    let (s, a) = step(s, line("quit\n"));
    assert_eq!(a, Action::CloseDatabase);
    let (s, a) = step(s, Event::CloseResult { status: ok() });
    assert_eq!(a, Action::DestroyContext);
    if a == Action::DestroyContext {
        destroys += 1;
    }
    let (s, a) = step(s, Event::DestroyDone);
    assert_eq!(
        a,
        Action::Exit {
            outcome: Outcome::Success
        }
    );
    assert_eq!(
        s,
        SessionState::Destroyed {
            outcome: Outcome::Success
        }
    );
    assert_eq!(destroys, 1);
}

#[test]
fn usage_rejected_without_any_argument() {
    let (s, a) = step(
        SessionState::Uninitialized,
        Event::Started {
            arg_count: 1,
            db_name: String::new(),
        },
    );
    assert_eq!(
        a,
        Action::Exit {
            outcome: Outcome::UsageRejected
        }
    );
    assert_eq!(
        s,
        SessionState::Refused {
            outcome: Outcome::UsageRejected
        }
    );
}

#[test]
fn usage_rejected_with_extra_arguments() {
    let (s, a) = step(
        SessionState::Uninitialized,
        Event::Started {
            arg_count: 3,
            db_name: String::from("test.db"),
        },
    );
    assert_eq!(
        a,
        Action::Exit {
            outcome: Outcome::UsageRejected
        }
    );
    assert_eq!(
        s,
        SessionState::Refused {
            outcome: Outcome::UsageRejected
        }
    );
}

#[test]
fn create_failure_exits_without_destroy() {
    let (s, _) = step(
        SessionState::Uninitialized,
        Event::Started {
            arg_count: 2,
            db_name: String::from("test.db"),
        },
    );
    let (s, a) = step(s, Event::CreateResult { created: false });
    assert_eq!(
        a,
        Action::Exit {
            outcome: Outcome::CreateFailed
        }
    );
    assert_eq!(
        s,
        SessionState::Refused {
            outcome: Outcome::CreateFailed
        }
    );
}

#[test]
fn memory_sentinel_passes_through_unchanged() {
    let (s, _) = step(
        SessionState::Uninitialized,
        Event::Started {
            arg_count: 2,
            db_name: String::from(":memory:"),
        },
    );
    let (_, a) = step(s, Event::CreateResult { created: true });
    assert_eq!(
        a,
        Action::OpenDatabase {
            name: String::from(":memory:")
        }
    );
}

#[test]
fn open_application_failure_is_fatal_but_destroys() {
    let (s, a) = step(SessionState::Created, Event::OpenResult { status: app_failed() });
    // the loop never starts: no execute-statement call is issued
    assert_eq!(a, Action::DestroyContext);
    let (s, a) = step(s, Event::DestroyDone);
    assert_eq!(
        a,
        Action::Exit {
            outcome: Outcome::OpenRejected
        }
    );
    assert_eq!(
        s,
        SessionState::Destroyed {
            outcome: Outcome::OpenRejected
        }
    );
}

#[test]
fn open_transport_failure_is_fatal_but_destroys() {
    let (s, a) = step(
        SessionState::Created,
        Event::OpenResult {
            status: BoundaryStatus::TransportFailure,
        },
    );
    assert_eq!(a, Action::DestroyContext);
    assert_eq!(
        s,
        SessionState::Destroying {
            outcome: Outcome::TransportFailed
        }
    );
}

#[test]
fn execute_application_failure_keeps_loop_running() {
    let (s, a) = step(
        SessionState::DatabaseOpen,
        Event::ExecuteResult {
            status: app_failed(),
        },
    );
    assert_eq!(a, Action::PromptAndRead);
    assert_eq!(s, SessionState::DatabaseOpen);
    // the loop accepts and forwards a subsequent line
    let (s, a) = step(s, line("SELECT 1;\n"));
    assert_eq!(
        a,
        Action::ExecuteStatement {
            text: String::from("SELECT 1;\n")
        }
    );
    assert_eq!(s, SessionState::DatabaseOpen);
}

#[test]
fn execute_transport_failure_skips_close() {
    let (s, a) = step(
        SessionState::DatabaseOpen,
        Event::ExecuteResult {
            status: BoundaryStatus::TransportFailure,
        },
    );
    // straight to destruction: no close-database call after a transport failure
    assert_eq!(a, Action::DestroyContext);
    let (s, a) = step(s, Event::DestroyDone);
    assert_eq!(
        a,
        Action::Exit {
            outcome: Outcome::TransportFailed
        }
    );
    assert_eq!(
        s,
        SessionState::Destroyed {
            outcome: Outcome::TransportFailed
        }
    );
}

#[test]
fn blank_line_reprompts_without_boundary_call() {
    let (s, a) = step(SessionState::DatabaseOpen, line("\n"));
    assert_eq!(a, Action::PromptAndRead);
    assert_eq!(s, SessionState::DatabaseOpen);
}

#[test]
fn uppercase_sentinel_is_forwarded_as_sql() {
    let (s, a) = step(SessionState::DatabaseOpen, line("QUIT\n"));
    assert_eq!(
        a,
        Action::ExecuteStatement {
            text: String::from("QUIT\n")
        }
    );
    assert_eq!(s, SessionState::DatabaseOpen);
}

#[test]
fn exact_sentinel_closes_without_execute() {
    let (s, a) = step(SessionState::DatabaseOpen, line("quit\n"));
    assert_eq!(a, Action::CloseDatabase);
    assert_eq!(s, SessionState::Closing { clean: true });
}

#[test]
fn end_of_input_closes() {
    let (s, a) = step(
        SessionState::DatabaseOpen,
        Event::LineRead {
            read: ReadOutcome::EndOfInput,
        },
    );
    assert_eq!(a, Action::CloseDatabase);
    assert_eq!(s, SessionState::Closing { clean: true });
}

#[test]
fn read_failure_still_closes_and_destroys() {
    let (s, a) = step(
        SessionState::DatabaseOpen,
        Event::LineRead {
            read: ReadOutcome::Failed,
        },
    );
    assert_eq!(a, Action::CloseDatabase);
    let (s, a) = step(s, Event::CloseResult { status: ok() });
    assert_eq!(a, Action::DestroyContext);
    let (_, a) = step(s, Event::DestroyDone);
    assert_eq!(
        a,
        Action::Exit {
            outcome: Outcome::InputFailed
        }
    );
}

#[test]
fn close_application_failure_still_destroys() {
    let (s, a) = step(
        SessionState::Closing { clean: true },
        Event::CloseResult {
            status: app_failed(),
        },
    );
    assert_eq!(a, Action::DestroyContext);
    let (_, a) = step(s, Event::DestroyDone);
    assert_eq!(
        a,
        Action::Exit {
            outcome: Outcome::CloseFailed
        }
    );
}

#[test]
fn close_transport_failure_still_destroys() {
    let (s, a) = step(
        SessionState::Closing { clean: true },
        Event::CloseResult {
            status: BoundaryStatus::TransportFailure,
        },
    );
    assert_eq!(a, Action::DestroyContext);
    assert_eq!(
        s,
        SessionState::Destroying {
            outcome: Outcome::TransportFailed
        }
    );
}
