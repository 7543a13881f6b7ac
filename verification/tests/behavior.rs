//! Scenario tests for the documented properties of the logger: capture
//! order, filtering, counting regions, scope roll-up, thread tags,
//! mirroring, normalization and the failure reports of the harness.

use loggy::severity::enabled;
use loggy::{
    assert_logs, assert_no_errors, assert_panics, count, fix_expected, force_panic, ignore_log,
    log_record, Flow, LevelFilter, Logger, Record, Scope, Session, Severity, ThreadState,
};

fn record(severity: Severity, text: &str, module: &str) -> Record {
    Record {
        severity,
        text: String::from(text),
        module: String::from(module),
        file: String::new(),
        line: 0,
    }
}

#[test]
fn captures_in_call_order() {
    let mut s = Session::test_setup(true);
    let first = s.info("simple", "test_log");
    assert!(first.written.is_none());
    assert!(first.termination.is_none());
    let second = s.warn("format 0", "test_log");
    assert!(second.written.is_none());
    assert!(second.termination.is_none());
    assert_eq!(
        s.logger.take_and_clear().unwrap(),
        "test: [INFO] test_log: simple\ntest: [WARN] test_log: format 0\n"
    );
}

#[test]
fn debug_bypasses_capture_buffer() {
    let mut s = Session::test_setup(true);
    let o = s.debug("probe", "test_log", "src/widget.rs", 7);
    assert_eq!(o.written.as_deref(), Some("test: [DEBUG] src/widget.rs:7: probe\n"));
    assert!(o.termination.is_none());
    assert_eq!(s.logger.take_and_clear().unwrap(), "");
}

#[test]
fn below_threshold_is_dropped() {
    let mut logger = Logger::new("app", false, false, LevelFilter::Warn, false);
    logger.set_capturing();
    let thread = ThreadState::new();
    let mut s = Session { logger, thread };
    let info = s.info("quiet", "m");
    assert!(info.written.is_none());
    assert!(info.termination.is_none());
    let trace = s.trace("quieter", "m");
    assert!(trace.written.is_none());
    assert!(trace.termination.is_none());
    assert_eq!(s.logger.total_errors, 0);
    assert_eq!(s.thread.errors, 0);
    let warn = s.warn("heard", "m");
    assert!(warn.termination.is_none());
    assert_eq!(s.logger.take_and_clear().unwrap(), "app: [WARN] m: heard\n");
}

#[test]
fn severity_gate_keeps_error_and_debug() {
    assert!(enabled(Severity::Error, LevelFilter::Off));
    assert!(enabled(Severity::Debug, LevelFilter::Off));
    assert!(!enabled(Severity::Warn, LevelFilter::Error));
    assert!(enabled(Severity::Warn, LevelFilter::Warn));
    assert!(!enabled(Severity::Info, LevelFilter::Warn));
    assert!(enabled(Severity::Trace, LevelFilter::Trace));
    assert!(!enabled(Severity::Trace, LevelFilter::Debug));
}

#[test]
fn take_and_clear_twice_yields_empty() {
    let mut s = Session::test_setup(true);
    let _ = s.info("once", "m");
    assert_eq!(
        s.logger.take_and_clear().unwrap(),
        "test: [INFO] m: once\n"
    );
    assert_eq!(s.logger.take_and_clear().unwrap(), "");
}

#[test]
fn take_and_clear_without_capture_yields_nothing() {
    let mut logger = Logger::new("app", false, false, LevelFilter::Trace, false);
    assert!(logger.take_and_clear().is_none());
}

#[test]
fn counted_errors_return_exact_count() {
    let s = Session::test_setup(false);
    let (s, flow) = count(s, |mut s: Session| {
        for _ in 0..5 {
            let o = s.error("again", "m");
            assert!(o.termination.is_none());
        }
        (s, Flow::Done(()))
    });
    match flow {
        Flow::Done(((), delta)) => assert_eq!(delta, 5),
        Flow::Terminated(m) => panic!("terminated: {}", m),
    }
    assert_eq!(s.thread.errors, 5);
    assert_eq!(s.logger.total_errors, 5);
    assert!(!s.thread.counting);
}

#[test]
fn nested_counting_regions_add_up() {
    let s = Session::test_setup(false);
    let (_, flow) = count(s, |mut s: Session| {
        let _ = s.error("outer first", "m");
        let (mut s, inner_flow) = count(s, |mut s: Session| {
            let _ = s.error("inner", "m");
            (s, Flow::Done(()))
        });
        let inner_delta = match inner_flow {
            Flow::Done(((), d)) => d,
            Flow::Terminated(m) => panic!("inner terminated: {}", m),
        };
        let _ = s.error("outer second", "m");
        (s, Flow::Done(inner_delta))
    });
    match flow {
        Flow::Done((inner_delta, outer_delta)) => {
            assert_eq!(inner_delta, 1);
            assert_eq!(outer_delta, 3);
            assert_eq!(inner_delta + 2, outer_delta);
        },
        Flow::Terminated(m) => panic!("outer terminated: {}", m),
    }
}

#[test]
fn scope_rollup_reports_error_count() {
    let mut s = Session::test_setup(true);
    let guard = Scope::new(&mut s.thread, "scope");
    let _ = s.error("one", "m");
    let _ = s.error("two", "m");
    let summary = guard.exit(&s.logger, &mut s.thread, false);
    assert_eq!(
        summary.as_deref(),
        Some("test: [ERROR] scope: failed with 2 error(s)")
    );
    ignore_log(&mut s);
}

#[test]
fn scope_without_errors_exits_quietly() {
    let mut s = Session::test_setup(true);
    let guard = Scope::new(&mut s.thread, "scope");
    let _ = s.info("fine", "m");
    let summary = guard.exit(&s.logger, &mut s.thread, false);
    assert!(summary.is_none());
    ignore_log(&mut s);
}

#[test]
fn scope_rollup_folds_into_parent() {
    let mut s = Session::test_setup(true);
    let outer = Scope::new(&mut s.thread, "outer");
    let inner = Scope::new(&mut s.thread, "inner");
    let _ = s.error("oops", "m");
    let none = inner.exit(&s.logger, &mut s.thread, true);
    assert!(none.is_none());
    assert_eq!(s.thread.scopes[0].errors, 1);
    let summary = outer.exit(&s.logger, &mut s.thread, false);
    assert_eq!(
        summary.as_deref(),
        Some("test: [ERROR] outer: failed with 1 error(s)")
    );
    ignore_log(&mut s);
}

#[test]
fn worker_error_leaves_spawner_scope_alone() {
    let mut s = Session::test_setup(true);
    let guard = Scope::new(&mut s.thread, "outer");
    let mut worker = ThreadState::new();
    worker.counting = true;
    let o = log_record(&mut s.logger, &mut worker, &record(Severity::Error, "boom", "m"));
    assert!(o.termination.is_none());
    assert_eq!(s.logger.total_errors, 1);
    assert_eq!(worker.errors, 1);
    assert_eq!(s.thread.errors, 0);
    assert_eq!(s.thread.scopes[0].errors, 0);
    let summary = guard.exit(&s.logger, &mut s.thread, false);
    assert!(summary.is_none());
    ignore_log(&mut s);
}

#[test]
fn worker_threads_get_bracketed_tags() {
    let mut logger = Logger::new("test", false, true, LevelFilter::Trace, false);
    logger.set_capturing();
    let mut main_thread = ThreadState::new();
    let mut worker1 = ThreadState::new();
    let mut worker2 = ThreadState::new();
    let _ = log_record(&mut logger, &mut main_thread, &record(Severity::Info, "before", "log"));
    let _ = log_record(&mut logger, &mut worker1, &record(Severity::Info, "child", "log"));
    let _ = log_record(&mut logger, &mut worker2, &record(Severity::Info, "child", "log"));
    let _ = log_record(&mut logger, &mut main_thread, &record(Severity::Info, "after", "log"));
    assert_eq!(
        logger.take_and_clear().unwrap(),
        "test: [INFO] log: before\ntest[1]: [INFO] log: child\ntest[2]: [INFO] log: child\ntest: [INFO] log: after\n"
    );
}

#[test]
fn mirror_writes_captured_text_through() {
    let mut logger = Logger::new("app", false, false, LevelFilter::Info, true);
    logger.set_capturing();
    let thread = ThreadState::new();
    let mut s = Session { logger, thread };
    let o = s.info("hi", "m");
    assert_eq!(o.written.as_deref(), Some("app: [INFO] m: hi\n"));
    assert_eq!(s.logger.take_and_clear().unwrap(), "app: [INFO] m: hi\n");
}

#[test]
fn passthrough_hands_text_to_the_stream() {
    let logger = Logger::new("app", false, false, LevelFilter::Info, false);
    let thread = ThreadState::new();
    let mut s = Session { logger, thread };
    let o = s.info("hi", "m");
    assert_eq!(o.written.as_deref(), Some("app: [INFO] m: hi\n"));
    assert!(s.logger.take_and_clear().is_none());
}

#[test]
fn empty_scope_name_suppresses_identity() {
    let mut s = Session::test_setup(true);
    let guard = Scope::new(&mut s.thread, "");
    let _ = s.warn("anonymous", "m");
    let summary = guard.exit(&s.logger, &mut s.thread, false);
    assert!(summary.is_none());
    assert_eq!(s.logger.take_and_clear().unwrap(), "test: [WARN] anonymous\n");
}

#[test]
fn force_panic_overrides_counting() {
    let mut s = Session::test_setup(true);
    force_panic(&mut s.thread);
    let o = s.error("boom", "m");
    assert_eq!(o.termination.as_deref(), Some("test: [ERROR] m: boom\n"));
    assert_eq!(s.logger.take_and_clear().unwrap(), "");
}

#[test]
fn error_in_scope_without_counting_terminates() {
    let flow = assert_panics("test: [ERROR] scope: error\n", |s: Session| {
        Scope::with(s, "scope", |mut s: Session| {
            let o = s.error("error", "test_log");
            match o.termination {
                Some(m) => (s, Flow::Terminated(m)),
                None => (s, Flow::Done(())),
            }
        })
    });
    assert!(matches!(flow, Flow::Done(())));
}

#[test]
fn no_errors_escalates_with_label() {
    let flow = loggy::assert_logs_panics(
        "test: [ERROR] test_log: x\n",
        "test: [ERROR] loggy: 1 foo error(s)\n",
        |s: Session| {
            let (s, flow) = assert_no_errors(s, "foo", |mut s: Session| {
                let o = s.error("x", "test_log");
                assert!(o.termination.is_none());
                (s, Flow::Done(()))
            });
            (s, flow)
        },
    );
    assert!(matches!(flow, Flow::Done(())));
}

#[test]
fn no_errors_passes_a_clean_body_through() {
    let s = Session::test_setup(true);
    let (_, flow) = assert_no_errors(s, "foo", |mut s: Session| {
        let _ = s.info("fine", "m");
        (s, Flow::Done(42))
    });
    match flow {
        Flow::Done(v) => assert_eq!(v, 42),
        Flow::Terminated(m) => panic!("terminated: {}", m),
    }
}

#[test]
fn fix_expected_dedents_block_literals() {
    assert_eq!(fix_expected("\n        a\n          b\n        "), "a\n  b\n");
    assert_eq!(fix_expected("abc"), "abc");
    assert_eq!(fix_expected("abc\n"), "abc\n");
    assert_eq!(fix_expected("abc "), "abc \n");
}

#[test]
fn log_mismatch_reports_both_strings() {
    let flow = assert_logs("expected text\n", |mut s: Session| {
        let _ = s.info("real", "m");
        (s, Flow::Done(()))
    });
    match flow {
        Flow::Terminated(m) => assert_eq!(
            m,
            "ACTUAL LOG:\n>>>\ntest: [INFO] m: real\n<<<\nIS DIFFERENT FROM EXPECTED LOG:\n>>>\nexpected text\n<<<\n"
        ),
        Flow::Done(_) => panic!("mismatch was not reported"),
    }
}

#[test]
fn panic_mismatch_reports_both_strings() {
    let flow = assert_panics("other\n", |mut s: Session| {
        force_panic(&mut s.thread);
        let o = s.error("real", "m");
        match o.termination {
            Some(m) => (s, Flow::Terminated(m)),
            None => (s, Flow::Done(())),
        }
    });
    match flow {
        Flow::Terminated(m) => assert_eq!(
            m,
            "ACTUAL PANIC:\n>>>\ntest: [ERROR] m: real\n<<<\nIS DIFFERENT FROM EXPECTED PANIC:\n>>>\nother\n<<<\n"
        ),
        Flow::Done(_) => panic!("mismatch was not reported"),
    }
}

#[test]
fn body_that_does_not_panic_is_reported() {
    let flow = assert_panics("anything", |s: Session| (s, Flow::Done(())));
    match flow {
        Flow::Terminated(m) => assert_eq!(m, "test did not panic"),
        Flow::Done(_) => panic!("missing termination was not reported"),
    }
}

#[test]
fn comparing_without_capture_is_reported() {
    let flow = assert_logs("", |mut s: Session| {
        s.logger.set_passthrough();
        (s, Flow::Done(()))
    });
    match flow {
        Flow::Terminated(m) => assert_eq!(m, "loggy: log was not captured"),
        Flow::Done(_) => panic!("missing capture was not reported"),
    }
}

#[test]
fn ignore_log_discards_captured_text() {
    let mut s = Session::test_setup(true);
    let _ = s.info("noise", "m");
    ignore_log(&mut s);
    assert_eq!(s.logger.take_and_clear().unwrap(), "");
}

#[test]
fn terminations_are_not_captured() {
    let mut s = Session::test_setup(false);
    let guard = Scope::new(&mut s.thread, "scope");
    let o = s.error("fatal", "m");
    assert_eq!(o.termination.as_deref(), Some("test: [ERROR] scope: fatal\n"));
    let none = guard.exit(&s.logger, &mut s.thread, true);
    assert!(none.is_none());
    assert_eq!(s.logger.take_and_clear().unwrap(), "");
}

#[test]
fn timestamps_take_their_place_in_the_prefix() {
    let logger = Logger::new("app", true, false, LevelFilter::Info, false);
    let thread = ThreadState::new();
    let mut s = Session { logger, thread };
    let o = s.info("hi", "m");
    let written = o.written.unwrap();
    assert!(written.starts_with("app: "));
    assert!(written.ends_with(" [INFO] m: hi\n"));
}

#[test]
fn rollup_renders_multi_digit_counts() {
    let mut s = Session::test_setup(true);
    let guard = Scope::new(&mut s.thread, "scope");
    for _ in 0..12 {
        let _ = s.error("again", "m");
    }
    let summary = guard.exit(&s.logger, &mut s.thread, false);
    assert_eq!(
        summary.as_deref(),
        Some("test: [ERROR] scope: failed with 12 error(s)")
    );
    ignore_log(&mut s);
}
