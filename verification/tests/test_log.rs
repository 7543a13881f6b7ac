//! The behavior of the logger as seen by a test: capture, scopes, panics
//! and counted errors.

use loggy::{
    assert_logs, assert_logs_panics, assert_panics, assert_writes, force_panic, log_record,
    Flow, NoteControl, Record, Scope, Session, Severity, ThreadState,
};

/// Run one log call and turn its outcome into the body's flow, as the host
/// would: a termination outcome cuts the unit of work short.
fn flow_after(session: Session, outcome: loggy::Outcome) -> (Session, Flow<()>) {
    match outcome.termination {
        Some(message) => (session, Flow::Terminated(message)),
        None => (session, Flow::Done(())),
    }
}

#[test]
fn panic_outside_scope_is_captured() {
    let flow = assert_panics("test: [ERROR] test_log: foo\n", |mut s: Session| {
        force_panic(&mut s.thread);
        let o = s.error("foo", "test_log");
        flow_after(s, o)
    });
    assert!(matches!(flow, Flow::Done(())));
}

#[test]
fn panic_inside_scope_is_captured() {
    let flow = assert_panics("test: [ERROR] scope: foo\n", |s: Session| {
        Scope::with(s, "scope", |mut s: Session| {
            force_panic(&mut s.thread);
            let o = s.error("foo", "test_log");
            flow_after(s, o)
        })
    });
    assert!(matches!(flow, Flow::Done(())));
}

#[test]
fn error_inside_scope_is_captured() {
    let mut s = Session::test_setup(true);
    let guard = Scope::new(&mut s.thread, "scope");
    let o = s.error("error", "test_log");
    assert!(o.termination.is_none());
    let captured = s.logger.take_and_clear().unwrap();
    assert_eq!(captured, "test: [ERROR] scope: error\n");
    let summary = guard.exit(&s.logger, &mut s.thread, false);
    assert_eq!(
        summary.as_deref(),
        Some("test: [ERROR] scope: failed with 1 error(s)")
    );
}

#[test]
fn error_outside_scope_is_panic() {
    let flow = assert_panics("test: error! called outside a named scope", |mut s: Session| {
        let o = s.error("outsider", "test_log");
        flow_after(s, o)
    });
    assert!(matches!(flow, Flow::Done(())));
}

#[test]
fn emit_structured_log_messages() {
    let flow = assert_logs(
        r#"
        test: [INFO] test_log: simple
        test: [WARN] test_log: format 0
        test: [TRACE] test_log: both 0
        test: [trace] test_log:   foo: 1
        test: [trace] test_log:   bar:
        test: [trace] test_log:     baz: 2
        "#,
        |mut s: Session| {
            let _ = s.info("simple", "test_log");
            let _ = s.warn("format 0", "test_log");
            let _ = s.trace("both 0\n  foo: 1\n  bar:\n    baz: 2", "test_log");
            (s, Flow::Done(()))
        },
    );
    assert!(matches!(flow, Flow::Done(())));
}

#[test]
fn named_scope_should_replace_module() {
    let flow = assert_logs("test: [WARN] scope: warning\n", |s: Session| {
        Scope::with(s, "scope", |mut s: Session| {
            let _ = s.warn("warning", "test_log");
            (s, Flow::Done(()))
        })
    });
    assert!(matches!(flow, Flow::Done(())));
}

#[test]
fn multi_line_should_be_captured() {
    let flow = assert_logs(
        r#"
        test: [INFO] test_log: info
        test: [info] test_log: continuation
        test: [info] test_log: lines
        "#,
        |mut s: Session| {
            let _ = s.info("info\ncontinuation\nlines", "test_log");
            (s, Flow::Done(()))
        },
    );
    assert!(matches!(flow, Flow::Done(())));
}

#[test]
fn warning_should_be_captured() {
    let flow = assert_logs("test: [WARN] test_log: warning\n", |mut s: Session| {
        let _ = s.warn("warning", "test_log");
        (s, Flow::Done(()))
    });
    assert!(matches!(flow, Flow::Done(())));
}

#[test]
fn info_should_be_captured() {
    let flow = assert_logs("test: [INFO] test_log: information\n", |mut s: Session| {
        let _ = s.info("information", "test_log");
        (s, Flow::Done(()))
    });
    assert!(matches!(flow, Flow::Done(())));
}

#[test]
fn debug_should_not_be_captured() {
    let mut s = Session::test_setup(false);
    let first = s.debug("debug", "test_log", "tests/test_log.rs", 91);
    assert!(first.termination.is_none());
    assert_eq!(
        first.written.as_deref(),
        Some("test: [DEBUG] tests/test_log.rs:91: debug\n")
    );
    let second = s.debug("debug", "test_log", "tests/test_log.rs", 92);
    assert!(second.written.is_some());
    assert_eq!(s.logger.take_and_clear().unwrap(), "");
}

#[test]
fn notice_should_be_captured() {
    let flow = assert_logs_panics(
        r#"
        test: [ERROR] scope: error
        test: [WARN] scope: warning
        "#,
        "test: [ERROR] scope: failed with 1 error(s)",
        |s: Session| {
            Scope::with(s, "scope", |mut s: Session| {
                let _ = s.note(true, "error", "test_log");
                let _ = s.note(false, "warning", "test_log");
                (s, Flow::Done(()))
            })
        },
    );
    assert!(matches!(flow, Flow::Done(())));
}

#[test]
fn notice_should_be_controlled() {
    let mut foo = NoteControl::new(false);
    assert!(!foo.is_an_error());
    assert!(!foo.set_is_an_error(true));
    assert!(foo.is_an_error());
    assert!(foo.set_is_an_error(false));
}

#[test]
fn worker_threads_should_be_reported() {
    let mut s = Session::test_setup(true);
    let _ = s.info("before", "test_log");
    let mut worker = ThreadState::new();
    let child = Record {
        severity: Severity::Info,
        text: String::from("child"),
        module: String::from("test_log"),
        file: String::new(),
        line: 0,
    };
    let o = log_record(&mut s.logger, &mut worker, &child);
    assert!(o.termination.is_none());
    let _ = s.info("after", "test_log");
    assert_eq!(
        s.logger.take_and_clear().unwrap(),
        "test: [INFO] test_log: before\ntest: [INFO] test_log: child\ntest: [INFO] test_log: after\n"
    );
}

fn scoped(s: Session) -> (Session, Flow<()>) {
    Scope::with(s, "scoped", |mut s: Session| {
        let _ = s.info("message", "test_log");
        (s, Flow::Done(()))
    })
}

#[test]
fn scoped_functions_should_work() {
    let flow = assert_logs("test: [INFO] scoped: message\n", scoped);
    assert!(matches!(flow, Flow::Done(())));
}

fn name_scoped(s: Session) -> (Session, Flow<()>) {
    Scope::with(s, "scope name", |mut s: Session| {
        let _ = s.info("message", "test_log");
        (s, Flow::Done(()))
    })
}

#[test]
fn named_scoped_functions_should_work() {
    let flow = assert_logs("test: [INFO] scope name: message\n", name_scoped);
    assert!(matches!(flow, Flow::Done(())));
}

#[test]
fn writes_are_captured() {
    let flow = assert_writes("foo", |mut writer: String| {
        writer.push_str("foo");
        writer
    });
    assert!(matches!(flow, Flow::Done(())));
}
