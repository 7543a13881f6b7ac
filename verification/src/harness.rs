//! The test harness: per-test setup of a capturing session, the
//! normalization applied to expected literals, comparison helpers, and the
//! error-counting combinators.
//!
//! A test body is a function from a [`Session`] to a new session and a
//! [`Flow`]: the body's value, or the abrupt termination that cut it
//! short.  The helpers here run such a body under a capturing session and
//! compare what was captured, or what terminated it, against an
//! expectation; a failed comparison is itself reported as an abrupt
//! termination carrying both strings.

use vstd::prelude::*;
use vstd::string::*;

use crate::flow::Flow;
use crate::format::LoggyModel;
use crate::session::{plain_record, Session, SessionModel};
use crate::severity::{LevelFilter, Severity};
use crate::state::{
    begin_count, end_count, force_panic, step_post, step_to, Logger, LoggerModel, ScopeModel,
    ThreadModel, ThreadState,
};
use crate::text::{push_char, spec_dec, u64_to_dec};

verus! {

/// What `unindent::unindent` returns for the given text.
pub uninterp spec fn unindented(s: Seq<char>) -> Seq<char>;

/// Relies on `unindent::unindent`: removes from every line after the first
/// the largest common indentation of the non-blank lines, a function of the
/// text alone.
#[verifier::external_body]
fn unindent_text(s: &str) -> (r: String)
    ensures
        r@ == unindented(s@),
{
    unindent::unindent(s)
}

/// The normalization applied to every expected literal: dedent; drop one
/// line break that then leads the text; then give the text a trailing line
/// break exactly when the original literal ended with a line break or a
/// space.
pub open spec fn spec_fixed_expected(s: Seq<char>) -> Seq<char> {
    let needs_nl = s.len() > 0 && (s.last() == '\n' || s.last() == ' ');
    let u0 = unindented(s);
    let u = if u0.len() > 0 && u0.first() == '\n' {
        u0.drop_first()
    } else {
        u0
    };
    let has_nl = u.len() > 0 && u.last() == '\n';
    if has_nl && !needs_nl {
        u.drop_last()
    } else if !has_nl && needs_nl {
        u.push('\n')
    } else {
        u
    }
}

/// Normalize an expected literal, so that tests can write it as an indented
/// block beside the code.
pub fn fix_expected(expected: &str) -> (r: String)
    ensures
        r@ == spec_fixed_expected(expected@),
{
    let n = expected.unicode_len();
    let needs_nl = if n > 0 {
        let c = expected.get_char(n - 1);
        c == '\n' || c == ' '
    } else {
        false
    };
    let u0 = unindent_text(expected);
    let m0 = u0.as_str().unicode_len();
    let u: String = if m0 > 0 && u0.as_str().get_char(0) == '\n' {
        let sub = u0.as_str().substring_char(1, m0);
        proof {
            assert(sub@ =~= unindented(expected@).drop_first());
        }
        String::from_str(sub)
    } else {
        u0
    };
    let m = u.as_str().unicode_len();
    let has_nl = if m > 0 {
        u.as_str().get_char(m - 1) == '\n'
    } else {
        false
    };
    if has_nl && !needs_nl {
        let sub = u.as_str().substring_char(0, m - 1);
        let r = String::from_str(sub);
        proof {
            assert(r@ =~= spec_fixed_expected(expected@));
        }
        r
    } else if !has_nl && needs_nl {
        let mut r = u;
        push_char(&mut r, '\n');
        r
    } else {
        u
    }
}

/// The session every harness-run test body starts from: prefix `test`, no
/// timestamp, no thread tag, every severity of interest, a fresh capturing
/// buffer, counters at zero, and the error-counting region flag as asked
/// for.
pub open spec fn spec_test_session(counting: bool) -> SessionModel {
    SessionModel {
        logger: LoggerModel {
            config: LoggyModel { prefix: "test"@, show_time: false, show_thread: false },
            threshold: LevelFilter::Trace,
            total_errors: 0,
            next_ordinal: 0,
            sink: Some(Seq::<char>::empty()),
            mirror: false,
        },
        thread: ThreadModel {
            scopes: Seq::<ScopeModel>::empty(),
            counting,
            errors: 0,
            ordinal: None::<int>,
            force_panic: false,
        },
    }
}

impl Session {
    /// The per-test setup: a fresh capturing session under the fixed test
    /// configuration, with the error-counting region flag as asked for.
    pub fn test_setup(counting: bool) -> (s: Session)
        ensures
            s@ == spec_test_session(counting),
    {
        let mut logger = Logger::new("test", false, false, LevelFilter::Trace, false);
        logger.set_capturing();
        let mut thread = ThreadState::new();
        thread.counting = counting;
        let s = Session { logger, thread };
        proof {
            assert(s@ =~~= spec_test_session(counting));
        }
        s
    }
}

/// Clear the captured buffer without comparing it: the explicit opt-out
/// from asserting on a test's log.
pub fn ignore_log(session: &mut Session)
    ensures
        final(session)@ == (SessionModel {
            logger: if old(session)@.logger.sink is Some {
                LoggerModel { sink: Some(Seq::<char>::empty()), ..old(session)@.logger }
            } else {
                old(session)@.logger
            },
            thread: old(session)@.thread,
        }),
{
    let _ = session.logger.take_and_clear();
    proof {
        assert(session@ =~~= SessionModel {
            logger: if old(session)@.logger.sink is Some {
                LoggerModel { sink: Some(Seq::<char>::empty()), ..old(session)@.logger }
            } else {
                old(session)@.logger
            },
            thread: old(session)@.thread,
        });
    }
}

/// The number of errors a counting region observed: the thread tally when
/// it closed less the tally when it opened (never below zero).
pub open spec fn count_delta(baseline: int, after: int) -> int {
    if after >= baseline {
        after - baseline
    } else {
        0
    }
}

/// The session a body run under a counting combinator sees: the same state
/// with the error-counting region flag set.
pub open spec fn spec_count_start(s: SessionModel) -> SessionModel {
    SessionModel { logger: s.logger, thread: ThreadModel { counting: true, ..s.thread } }
}

/// The session after a counting combinator closed its region: the body's
/// final state with the flag restored to what the region found.
pub open spec fn spec_count_end(started: SessionModel, ran: SessionModel) -> SessionModel {
    SessionModel {
        logger: ran.logger,
        thread: ThreadModel { counting: started.thread.counting, ..ran.thread },
    }
}

/// Run a body under an error-counting region and return, beside its value,
/// the number of errors it logged on this thread: while the region is
/// active, error records are tallied and delivered instead of terminating
/// the unit of work.  A termination raised by the body itself propagates
/// unchanged.
pub fn count<R, Code: FnOnce(Session) -> (Session, Flow<R>)>(session: Session, code: Code) -> (r:
    (Session, Flow<(R, u64)>))
    requires
        forall|s: Session| s@ == spec_count_start(session@) ==> call_requires(code, (s,)),
    ensures
        exists|entered: Session, ran: Session, fl: Flow<R>|
            {
                &&& entered@ == spec_count_start(session@)
                &&& #[trigger] call_ensures(code, (entered,), (ran, fl))
                &&& r.0@ == spec_count_end(session@, ran@)
                &&& match fl {
                    Flow::Terminated(m) => r.1 matches Flow::Terminated(m2) && m2@ == m@,
                    Flow::Done(v) => r.1 matches Flow::Done(p) && p.0 == v && p.1 as int
                        == count_delta(session@.thread.errors, ran@.thread.errors),
                }
            },
{
    let ghost s0 = session;
    let mut session = session;
    let g = begin_count(&mut session.thread);
    proof {
        assert(session@ =~~= spec_count_start(s0@));
    }
    let ghost entered = session;
    let (ran, fl) = code(session);
    let ghost ran0 = ran;
    let ghost fl0 = fl;
    let mut ran = ran;
    proof {
        assert(call_ensures(code, (entered,), (ran0, fl0)));
    }
    let n = end_count(&mut ran.thread, g);
    proof {
        assert(ran@ =~~= spec_count_end(s0@, ran0@));
    }
    match fl {
        Flow::Terminated(m) => (ran, Flow::Terminated(m)),
        Flow::Done(v) => (ran, Flow::Done((v, n))),
    }
}

/// The text of the termination that [`assert_no_errors`] raises for a
/// nonzero count.
pub open spec fn escalation_text(n: nat, label: Seq<char>) -> Seq<char> {
    spec_dec(n) + " "@ + label + " error(s)"@
}

/// Run a body under an error-counting region and demand that it logged no
/// error: a nonzero count `n` is escalated into one forced error record
/// reading `<n> <label> error(s)`, which terminates the unit of work
/// abruptly with its rendered text.
pub fn assert_no_errors<R, Code: FnOnce(Session) -> (Session, Flow<R>)>(
    session: Session,
    label: &str,
    code: Code,
) -> (r: (Session, Flow<R>))
    requires
        forall|s: Session| s@ == spec_count_start(session@) ==> call_requires(code, (s,)),
    ensures
        exists|entered: Session, ran: Session, fl: Flow<R>|
            {
                &&& entered@ == spec_count_start(session@)
                &&& #[trigger] call_ensures(code, (entered,), (ran, fl))
                &&& match fl {
                    Flow::Terminated(m) => r.1 matches Flow::Terminated(m2) && m2@ == m@ && r.0@
                        == spec_count_end(session@, ran@),
                    Flow::Done(v) => {
                        let n = count_delta(session@.thread.errors, ran@.thread.errors);
                        if n == 0 {
                            (r.1 matches Flow::Done(v2) && v2 == v) && r.0@ == spec_count_end(
                                session@,
                                ran@,
                            )
                        } else {
                            exists|o: crate::state::OutcomeModel|
                                #![trigger o.termination]
                                {
                                    &&& step_post(
                                        spec_count_end(session@, ran@).logger,
                                        (ThreadModel {
                                            force_panic: true,
                                            ..spec_count_end(session@, ran@).thread
                                        }),
                                        plain_record(
                                            Severity::Error,
                                            escalation_text(n as nat, label@),
                                            "loggy"@,
                                        ),
                                        r.0@.logger,
                                        r.0@.thread,
                                        o,
                                    )
                                    &&& o.termination is Some
                                    &&& r.1 matches Flow::Terminated(m2) && Some(m2@)
                                        == o.termination
                                }
                        }
                    },
                }
            },
{
    let ghost s0 = session;
    let mut session = session;
    let g = begin_count(&mut session.thread);
    proof {
        assert(session@ =~~= spec_count_start(s0@));
    }
    let ghost entered = session;
    let (ran, fl) = code(session);
    let ghost ran0 = ran;
    let ghost fl0 = fl;
    let mut ran = ran;
    proof {
        assert(call_ensures(code, (entered,), (ran0, fl0)));
    }
    let n = end_count(&mut ran.thread, g);
    proof {
        assert(ran@ =~~= spec_count_end(s0@, ran0@));
    }
    match fl {
        Flow::Terminated(m) => (ran, Flow::Terminated(m)),
        Flow::Done(v) => {
            if n == 0 {
                (ran, Flow::Done(v))
            } else {
                force_panic(&mut ran.thread);
                let mut text = u64_to_dec(n);
                text.append(" ");
                text.append(label);
                text.append(" error(s)");
                proof {
                    assert(text@ =~= escalation_text(n as nat, label@));
                }
                let ghost pre = ran@;
                let ghost rec = plain_record(Severity::Error, text@, "loggy"@);
                let outcome = ran.error(text.as_str(), "loggy");
                proof {
                    if pre.logger.config.show_time {
                        let now = choose|now: Seq<char>|
                            step_to(
                                pre.logger,
                                pre.thread,
                                rec,
                                now,
                                ran@.logger,
                                ran@.thread,
                                outcome@,
                            );
                        assert(step_to(
                            pre.logger,
                            pre.thread,
                            rec,
                            now,
                            ran@.logger,
                            ran@.thread,
                            outcome@,
                        ));
                        assert(outcome@.termination is Some);
                    } else {
                        assert(outcome@.termination is Some);
                    }
                }
                match outcome.termination {
                    Some(m) => (ran, Flow::Terminated(m)),
                    None => {
                        proof {
                            assert(false);
                        }
                        (ran, Flow::Terminated(String::new()))
                    },
                }
            }
        },
    }
}

/// The diagnostic raised when a comparison helper finds the sink not
/// capturing.
pub open spec fn not_capturing_message() -> Seq<char> {
    "loggy: log was not captured"@
}

/// The diagnostic raised when a body expected to terminate ran to
/// completion.
pub open spec fn did_not_panic_message() -> Seq<char> {
    "test did not panic"@
}

/// The report raised when the captured log differs from the expectation.
pub open spec fn log_mismatch_message(actual: Seq<char>, expected: Seq<char>) -> Seq<char> {
    "ACTUAL LOG:\n>>>\n"@ + actual + "<<<\nIS DIFFERENT FROM EXPECTED LOG:\n>>>\n"@ + expected
        + "<<<\n"@
}

/// The report raised when a termination message differs from the
/// expectation.
pub open spec fn panic_mismatch_message(actual: Seq<char>, expected: Seq<char>) -> Seq<char> {
    "ACTUAL PANIC:\n>>>\n"@ + actual + "<<<\nIS DIFFERENT FROM EXPECTED PANIC:\n>>>\n"@ + expected
        + "<<<\n"@
}

/// The report raised when written text differs from the expectation.
pub open spec fn writes_mismatch_message(actual: Seq<char>, expected: Seq<char>) -> Seq<char> {
    "ACTUAL WRITTEN:\n>>>\n"@ + actual + "<<<\nIS DIFFERENT FROM EXPECTED WRITTEN:\n>>>\n"@
        + expected + "<<<\n"@
}

/// Run a body under a fresh capturing session — with the error-counting
/// region active, so that errors accumulate instead of terminating the
/// test — and compare the captured log, byte for byte, against the
/// normalized expectation.  A termination raised by the body propagates
/// unchanged; a mismatch is reported as a termination carrying both
/// strings.
pub fn assert_logs<R, Code: FnOnce(Session) -> (Session, Flow<R>)>(
    expected_log: &str,
    code: Code,
) -> (r: Flow<R>)
    requires
        forall|s: Session| s@ == spec_test_session(true) ==> call_requires(code, (s,)),
    ensures
        exists|start: Session, end: Session, fl: Flow<R>|
            {
                &&& start@ == spec_test_session(true)
                &&& #[trigger] call_ensures(code, (start,), (end, fl))
                &&& match fl {
                    Flow::Terminated(m) => r matches Flow::Terminated(m2) && m2@ == m@,
                    Flow::Done(v) => match end@.logger.sink {
                        Some(buffer) => if buffer == spec_fixed_expected(expected_log@) {
                            r matches Flow::Done(v2) && v2 == v
                        } else {
                            r matches Flow::Terminated(m2) && m2@ == log_mismatch_message(
                                buffer,
                                spec_fixed_expected(expected_log@),
                            )
                        },
                        None => r matches Flow::Terminated(m2) && m2@ == not_capturing_message(),
                    },
                }
            },
{
    let session = Session::test_setup(true);
    let ghost start = session;
    let (end, fl) = code(session);
    let ghost end0 = end;
    let ghost fl0 = fl;
    let mut end = end;
    proof {
        assert(call_ensures(code, (start,), (end0, fl0)));
    }
    match fl {
        Flow::Terminated(m) => Flow::Terminated(m),
        Flow::Done(v) => {
            let captured = end.logger.take_and_clear();
            match captured {
                Some(actual) => {
                    let expected = fix_expected(expected_log);
                    if actual == expected {
                        Flow::Done(v)
                    } else {
                        let mut m = String::from_str("ACTUAL LOG:\n>>>\n");
                        m.append(actual.as_str());
                        m.append("<<<\nIS DIFFERENT FROM EXPECTED LOG:\n>>>\n");
                        m.append(expected.as_str());
                        m.append("<<<\n");
                        Flow::Terminated(m)
                    }
                },
                None => Flow::Terminated(String::from_str("loggy: log was not captured")),
            }
        },
    }
}

/// Run a body under a fresh capturing session — with the error-counting
/// region disabled, so that the first unguarded error terminates the body —
/// and demand that the body terminated abruptly with exactly the normalized
/// expected message.  The captured log is discarded.
pub fn assert_panics<R, Code: FnOnce(Session) -> (Session, Flow<R>)>(
    expected_panic: &str,
    code: Code,
) -> (r: Flow<()>)
    requires
        forall|s: Session| s@ == spec_test_session(false) ==> call_requires(code, (s,)),
    ensures
        exists|start: Session, end: Session, fl: Flow<R>|
            {
                &&& start@ == spec_test_session(false)
                &&& #[trigger] call_ensures(code, (start,), (end, fl))
                &&& match fl {
                    Flow::Terminated(m) => if m@ == spec_fixed_expected(expected_panic@) {
                        r is Done
                    } else {
                        r matches Flow::Terminated(m2) && m2@ == panic_mismatch_message(
                            m@,
                            spec_fixed_expected(expected_panic@),
                        )
                    },
                    Flow::Done(v) => r matches Flow::Terminated(m2) && m2@
                        == did_not_panic_message(),
                }
            },
{
    let session = Session::test_setup(false);
    let ghost start = session;
    let (end, fl) = code(session);
    let ghost end0 = end;
    let ghost fl0 = fl;
    proof {
        assert(call_ensures(code, (start,), (end0, fl0)));
    }
    match fl {
        Flow::Terminated(m) => {
            let expected = fix_expected(expected_panic);
            if m == expected {
                Flow::Done(())
            } else {
                let mut report = String::from_str("ACTUAL PANIC:\n>>>\n");
                report.append(m.as_str());
                report.append("<<<\nIS DIFFERENT FROM EXPECTED PANIC:\n>>>\n");
                report.append(expected.as_str());
                report.append("<<<\n");
                Flow::Terminated(report)
            }
        },
        Flow::Done(_) => Flow::Terminated(String::from_str("test did not panic")),
    }
}

/// Combine [`assert_logs`] and [`assert_panics`]: run a body under a fresh
/// capturing session with the error-counting region active, first compare
/// the captured log against its normalized expectation, then demand that
/// the body terminated abruptly with exactly the normalized expected
/// message.
pub fn assert_logs_panics<R, Code: FnOnce(Session) -> (Session, Flow<R>)>(
    expected_log: &str,
    expected_panic: &str,
    code: Code,
) -> (r: Flow<()>)
    requires
        forall|s: Session| s@ == spec_test_session(true) ==> call_requires(code, (s,)),
    ensures
        exists|start: Session, end: Session, fl: Flow<R>|
            {
                &&& start@ == spec_test_session(true)
                &&& #[trigger] call_ensures(code, (start,), (end, fl))
                &&& match end@.logger.sink {
                    None => r matches Flow::Terminated(m2) && m2@ == not_capturing_message(),
                    Some(buffer) => if buffer != spec_fixed_expected(expected_log@) {
                        r matches Flow::Terminated(m2) && m2@ == log_mismatch_message(
                            buffer,
                            spec_fixed_expected(expected_log@),
                        )
                    } else {
                        match fl {
                            Flow::Terminated(m) => if m@ == spec_fixed_expected(
                                expected_panic@,
                            ) {
                                r is Done
                            } else {
                                r matches Flow::Terminated(m2) && m2@ == panic_mismatch_message(
                                    m@,
                                    spec_fixed_expected(expected_panic@),
                                )
                            },
                            Flow::Done(v) => r matches Flow::Terminated(m2) && m2@
                                == did_not_panic_message(),
                        }
                    },
                }
            },
{
    let session = Session::test_setup(true);
    let ghost start = session;
    let (end, fl) = code(session);
    let ghost end0 = end;
    let ghost fl0 = fl;
    let mut end = end;
    proof {
        assert(call_ensures(code, (start,), (end0, fl0)));
    }
    let captured = end.logger.take_and_clear();
    match captured {
        None => Flow::Terminated(String::from_str("loggy: log was not captured")),
        Some(actual) => {
            let expected = fix_expected(expected_log);
            if !(actual == expected) {
                let mut m = String::from_str("ACTUAL LOG:\n>>>\n");
                m.append(actual.as_str());
                m.append("<<<\nIS DIFFERENT FROM EXPECTED LOG:\n>>>\n");
                m.append(expected.as_str());
                m.append("<<<\n");
                Flow::Terminated(m)
            } else {
                match fl {
                    Flow::Terminated(m) => {
                        let expected_message = fix_expected(expected_panic);
                        if m == expected_message {
                            Flow::Done(())
                        } else {
                            let mut report = String::from_str("ACTUAL PANIC:\n>>>\n");
                            report.append(m.as_str());
                            report.append("<<<\nIS DIFFERENT FROM EXPECTED PANIC:\n>>>\n");
                            report.append(expected_message.as_str());
                            report.append("<<<\n");
                            Flow::Terminated(report)
                        }
                    },
                    Flow::Done(_) => Flow::Terminated(String::from_str("test did not panic")),
                }
            }
        },
    }
}

/// Run a body against an in-memory text sink unrelated to the logger and
/// compare what it wrote against the normalized expectation.
pub fn assert_writes<Code: FnOnce(String) -> String>(expected_string: &str, code: Code) -> (r:
    Flow<()>)
    requires
        forall|s: String| s@ == Seq::<char>::empty() ==> call_requires(code, (s,)),
    ensures
        exists|start: String, written: String|
            {
                &&& start@ == Seq::<char>::empty()
                &&& #[trigger] call_ensures(code, (start,), written)
                &&& if written@ == spec_fixed_expected(expected_string@) {
                    r is Done
                } else {
                    r matches Flow::Terminated(m) && m@ == writes_mismatch_message(
                        written@,
                        spec_fixed_expected(expected_string@),
                    )
                }
            },
{
    let sink = String::new();
    let ghost start = sink;
    let written = code(sink);
    let ghost written0 = written;
    proof {
        assert(call_ensures(code, (start,), written0));
    }
    let expected = fix_expected(expected_string);
    if written == expected {
        Flow::Done(())
    } else {
        let mut report = String::from_str("ACTUAL WRITTEN:\n>>>\n");
        report.append(written.as_str());
        report.append("<<<\nIS DIFFERENT FROM EXPECTED WRITTEN:\n>>>\n");
        report.append(expected.as_str());
        report.append("<<<\n");
        Flow::Terminated(report)
    }
}

} // verus!
