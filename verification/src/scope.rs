//! Named scopes: a per-thread stack that replaces the module name in log
//! output and accumulates the errors logged under it.
//!
//! A scope is entered and left in strict stack order on its thread.  On
//! leaving, its tally is folded into the enclosing scope's, and a nonzero
//! tally raises one summary abrupt termination at the natural exit point of
//! the region — unless the thread is already unwinding from an earlier
//! termination, so that a second fault never masks the first message.

use vstd::prelude::*;
use vstd::string::*;

use crate::flow::Flow;
use crate::session::{Session, SessionModel};
use crate::state::{sat_add, sat_add_u64, Logger, ScopeFrame, ScopeModel, ThreadModel, ThreadState};
use crate::text::{spec_dec, u64_to_dec};

verus! {

/// The message of the summary termination raised when a scope with a
/// nonzero error tally is left.
pub open spec fn rollup_message(prefix: Seq<char>, name: Seq<char>, errors: nat) -> Seq<char> {
    prefix + ": [ERROR] "@ + name + ": failed with "@ + spec_dec(errors) + " error(s)"@
}

/// The thread after its innermost scope is popped: the popped tally is
/// folded into the new innermost scope, or discarded when the stack becomes
/// empty.
pub open spec fn spec_scope_exit(t: ThreadModel) -> ThreadModel {
    if t.scopes.len() == 0 {
        t
    } else {
        let popped = t.scopes.last();
        let rest = t.scopes.drop_last();
        let folded = if rest.len() > 0 {
            rest.update(
                rest.len() - 1,
                ScopeModel {
                    name: rest.last().name,
                    errors: sat_add(rest.last().errors, popped.errors),
                },
            )
        } else {
            rest
        };
        ThreadModel { scopes: folded, ..t }
    }
}

/// The summary termination owed on leaving the innermost scope: present
/// exactly when the popped scope saw errors and the thread is not already
/// unwinding.
pub open spec fn spec_scope_termination(
    prefix: Seq<char>,
    t: ThreadModel,
    unwinding: bool,
) -> Option<Seq<char>> {
    if t.scopes.len() > 0 && t.scopes.last().errors > 0 && !unwinding {
        Some(rollup_message(prefix, t.scopes.last().name, t.scopes.last().errors as nat))
    } else {
        None
    }
}

/// The session a body started under [`Scope::with`] sees: the same state,
/// with the named scope pushed on the thread's stack.
pub open spec fn spec_with_start(s: SessionModel, name: Seq<char>) -> SessionModel {
    SessionModel {
        logger: s.logger,
        thread: ThreadModel {
            scopes: s.thread.scopes.push(ScopeModel { name, errors: 0 }),
            ..s.thread
        },
    }
}

/// A named scope for log messages and errors, entered on a thread and left
/// in strict stack order.
pub struct Scope {}

impl Scope {
    /// Enter a new logging scope on this thread.
    pub fn new(thread: &mut ThreadState, name: &str) -> (s: Scope)
        ensures
            final(thread)@ == (ThreadModel {
                scopes: old(thread)@.scopes.push(ScopeModel { name: name@, errors: 0 }),
                ..old(thread)@
            }),
    {
        thread.scopes.push(ScopeFrame { name: String::from_str(name), errors: 0 });
        proof {
            assert(thread@.scopes =~= old(thread)@.scopes.push(
                ScopeModel { name: name@, errors: 0 },
            ));
            assert(thread@ =~~= ThreadModel {
                scopes: old(thread)@.scopes.push(ScopeModel { name: name@, errors: 0 }),
                ..old(thread)@
            });
        }
        Scope {}
    }

    /// Leave the innermost scope of this thread: fold its tally into the
    /// enclosing scope and return the summary termination owed, if any.
    /// `unwinding` says that the thread is already terminating abruptly, in
    /// which case no second termination is raised.
    pub fn exit(self, logger: &Logger, thread: &mut ThreadState, unwinding: bool) -> (r: Option<
        String,
    >)
        ensures
            final(thread)@ == spec_scope_exit(old(thread)@),
            (match r {
                Some(m) => Some(m@),
                None => None::<Seq<char>>,
            }) == spec_scope_termination(logger@.config.prefix, old(thread)@, unwinding),
    {
        if thread.scopes.len() == 0 {
            return None;
        }
        let popped = thread.scopes.pop().unwrap();
        let k = thread.scopes.len();
        if k > 0 {
            let folded = sat_add_u64(thread.scopes[k - 1].errors, popped.errors);
            thread.scopes[k - 1].errors = folded;
        }
        proof {
            assert(thread@.scopes =~= spec_scope_exit(old(thread)@).scopes);
            assert(thread@ =~~= spec_scope_exit(old(thread)@));
        }
        if popped.errors > 0 && !unwinding {
            let mut message = logger.config.prefix.clone();
            message.append(": [ERROR] ");
            message.append(popped.name.as_str());
            message.append(": failed with ");
            let digits = u64_to_dec(popped.errors);
            message.append(digits.as_str());
            message.append(" error(s)");
            proof {
                assert(message@ =~= rollup_message(
                    logger@.config.prefix,
                    old(thread)@.scopes.last().name,
                    old(thread)@.scopes.last().errors as nat,
                ));
            }
            Some(message)
        } else {
            None
        }
    }

    /// Execute a body within a named scope: the scope is entered, the body
    /// runs, and the scope is left whatever the body's flow was — with the
    /// summary termination raised on a nonzero tally only when the body
    /// itself completed.
    pub fn with<R, Code: FnOnce(Session) -> (Session, Flow<R>)>(
        session: Session,
        name: &str,
        code: Code,
    ) -> (r: (Session, Flow<R>))
        requires
            forall|s: Session| s@ == spec_with_start(session@, name@) ==> call_requires(
                code,
                (s,),
            ),
        ensures
            exists|entered: Session, ran: Session, fl: Flow<R>|
                {
                    &&& entered@ == spec_with_start(session@, name@)
                    &&& #[trigger] call_ensures(code, (entered,), (ran, fl))
                    &&& r.0@ == (SessionModel {
                        logger: ran@.logger,
                        thread: spec_scope_exit(ran@.thread),
                    })
                    &&& match fl {
                        Flow::Terminated(m) => r.1 matches Flow::Terminated(m2) && m2@ == m@,
                        Flow::Done(v) => match spec_scope_termination(
                            ran@.logger.config.prefix,
                            ran@.thread,
                            false,
                        ) {
                            Some(m) => r.1 matches Flow::Terminated(m2) && m2@ == m,
                            None => r.1 matches Flow::Done(v2) && v2 == v,
                        },
                    }
                },
    {
        let ghost s0 = session;
        let mut session = session;
        let guard = Scope::new(&mut session.thread, name);
        proof {
            assert(session@ =~~= spec_with_start(s0@, name@));
        }
        let ghost entered = session;
        let (ran, fl) = code(session);
        let ghost ran0 = ran;
        let ghost fl0 = fl;
        let mut ran = ran;
        proof {
            assert(call_ensures(code, (entered,), (ran0, fl0)));
        }
        match fl {
            Flow::Terminated(m) => {
                let _ = guard.exit(&ran.logger, &mut ran.thread, true);
                proof {
                    assert(ran@ =~~= SessionModel {
                        logger: ran0@.logger,
                        thread: spec_scope_exit(ran0@.thread),
                    });
                }
                (ran, Flow::Terminated(m))
            },
            Flow::Done(v) => {
                let summary = guard.exit(&ran.logger, &mut ran.thread, false);
                proof {
                    assert(ran@ =~~= SessionModel {
                        logger: ran0@.logger,
                        thread: spec_scope_exit(ran0@.thread),
                    });
                }
                match summary {
                    Some(m) => (ran, Flow::Terminated(m)),
                    None => (ran, Flow::Done(v)),
                }
            },
        }
    }
}

} // verus!
