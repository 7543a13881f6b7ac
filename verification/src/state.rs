//! The logger state machine: process-wide state, per-thread state, and the
//! transition that every log record drives.
//!
//! The host program owns one [`Logger`] for the whole process and one
//! [`ThreadState`] per thread.  [`log_record`] is the single entry point
//! through which a record flows: it accounts error records, decides between
//! delivery and abrupt termination, and renders the text.  Abrupt
//! termination is returned as data (the `termination` field of
//! [`Outcome`]); the caller is the one to unwind.

use vstd::prelude::*;
use vstd::string::*;

use crate::format::{Loggy, LoggyModel, Record, RecordModel, spec_render};
use crate::severity::{enabled, spec_enabled, LevelFilter, Severity};

verus! {

/// `a + b`, stopped at the largest value a counter can hold.
pub open spec fn sat_add(a: int, b: int) -> int {
    if a + b <= u64::MAX as int {
        a + b
    } else {
        u64::MAX as int
    }
}

/// `a + b`, stopped at the largest value a counter can hold.
pub fn sat_add_u64(a: u64, b: u64) -> (r: u64)
    ensures
        r as int == sat_add(a as int, b as int),
{
    if a <= u64::MAX - b {
        a + b
    } else {
        u64::MAX
    }
}

/// One named scope on a thread's stack, with the number of errors observed
/// while it was the innermost scope.
pub struct ScopeFrame {
    pub name: String,
    pub errors: u64,
}

/// Mathematical image of a [`ScopeFrame`].
#[verifier::ext_equal]
pub ghost struct ScopeModel {
    pub name: Seq<char>,
    pub errors: int,
}

impl View for ScopeFrame {
    type V = ScopeModel;

    open spec fn view(&self) -> ScopeModel {
        ScopeModel { name: self.name@, errors: self.errors as int }
    }
}

/// The per-thread state: the stack of named scopes, the error-counting
/// region flag, the thread's running error tally, the lazily assigned
/// display tag, and the one-shot flag that turns the next error record into
/// an abrupt termination.
pub struct ThreadState {
    pub scopes: Vec<ScopeFrame>,
    pub counting: bool,
    pub errors: u64,
    pub ordinal: Option<u64>,
    pub force_panic: bool,
}

/// Mathematical image of a [`ThreadState`].
#[verifier::ext_equal]
pub ghost struct ThreadModel {
    pub scopes: Seq<ScopeModel>,
    pub counting: bool,
    pub errors: int,
    pub ordinal: Option<int>,
    pub force_panic: bool,
}

impl View for ThreadState {
    type V = ThreadModel;

    open spec fn view(&self) -> ThreadModel {
        ThreadModel {
            scopes: self.scopes@.map_values(|f: ScopeFrame| f@),
            counting: self.counting,
            errors: self.errors as int,
            ordinal: match self.ordinal {
                Some(o) => Some(o as int),
                None => None,
            },
            force_panic: self.force_panic,
        }
    }
}

impl ThreadState {
    /// A fresh thread: no scope, not counting, no errors seen, no display
    /// tag assigned yet.
    pub fn new() -> (t: ThreadState)
        ensures
            t@ == (ThreadModel {
                scopes: Seq::<ScopeModel>::empty(),
                counting: false,
                errors: 0,
                ordinal: None::<int>,
                force_panic: false,
            }),
    {
        let t = ThreadState {
            scopes: Vec::new(),
            counting: false,
            errors: 0,
            ordinal: None,
            force_panic: false,
        };
        proof {
            assert(t@.scopes =~= Seq::<ScopeModel>::empty());
        }
        t
    }
}

/// The process-wide state: configuration, threshold, global counters, and
/// the sink (`None` writes through to the real error stream, `Some` captures
/// into a buffer, mirroring to the real stream when `mirror` is set).
pub struct Logger {
    pub config: Loggy,
    pub threshold: LevelFilter,
    pub total_errors: u64,
    pub next_ordinal: u64,
    pub sink: Option<String>,
    pub mirror: bool,
}

/// Mathematical image of a [`Logger`].
#[verifier::ext_equal]
pub ghost struct LoggerModel {
    pub config: LoggyModel,
    pub threshold: LevelFilter,
    pub total_errors: int,
    pub next_ordinal: int,
    pub sink: Option<Seq<char>>,
    pub mirror: bool,
}

impl View for Logger {
    type V = LoggerModel;

    open spec fn view(&self) -> LoggerModel {
        LoggerModel {
            config: self.config@,
            threshold: self.threshold,
            total_errors: self.total_errors as int,
            next_ordinal: self.next_ordinal as int,
            sink: match self.sink {
                Some(ref b) => Some(b@),
                None => None,
            },
            mirror: self.mirror,
        }
    }
}

impl Logger {
    /// A fresh process state with the given configuration, counters at
    /// zero, writing through to the real error stream.
    pub fn new(prefix: &str, show_time: bool, show_thread: bool, threshold: LevelFilter, mirror:
        bool) -> (l: Logger)
        ensures
            l@ == (LoggerModel {
                config: LoggyModel { prefix: prefix@, show_time, show_thread },
                threshold,
                total_errors: 0,
                next_ordinal: 0,
                sink: None::<Seq<char>>,
                mirror,
            }),
    {
        Logger {
            config: Loggy {
                prefix: String::from_str(prefix),
                show_time,
                show_thread,
            },
            threshold,
            total_errors: 0,
            next_ordinal: 0,
            sink: None,
            mirror,
        }
    }

    /// Install an empty buffer as the destination of delivered records.
    pub fn set_capturing(&mut self)
        ensures
            final(self)@ == (LoggerModel { sink: Some(Seq::<char>::empty()), ..old(self)@ }),
    {
        self.sink = Some(String::new());
    }

    /// Remove the buffer; subsequent delivered records go to the real error
    /// stream.
    pub fn set_passthrough(&mut self)
        ensures
            final(self)@ == (LoggerModel { sink: None::<Seq<char>>, ..old(self)@ }),
    {
        self.sink = None;
    }

    /// Read and empty the captured buffer, or return nothing when the sink
    /// is not capturing.
    pub fn take_and_clear(&mut self) -> (r: Option<String>)
        ensures
            final(self)@ == spec_take(old(self)@).0,
            (match r {
                Some(b) => Some(b@),
                None => None::<Seq<char>>,
            }) == spec_take(old(self)@).1,
    {
        let taken = self.sink.take();
        match taken {
            Some(b) => {
                self.sink = Some(String::new());
                Some(b)
            },
            None => None,
        }
    }
}

/// What [`Logger::take_and_clear`] does to the process state and returns:
/// a capturing sink yields its buffer and is left capturing an empty one; a
/// write-through sink yields nothing and is left alone.
pub open spec fn spec_take(l: LoggerModel) -> (LoggerModel, Option<Seq<char>>) {
    match l.sink {
        Some(b) => (LoggerModel { sink: Some(Seq::<char>::empty()), ..l }, Some(b)),
        None => (l, None),
    }
}

/// What the host must do after a record was handled: `written` is text owed
/// to the real error stream, `termination` is the payload of an abrupt
/// termination of the current logical unit of work.  At most one of the two
/// is present.
pub struct Outcome {
    pub written: Option<String>,
    pub termination: Option<String>,
}

/// Mathematical image of an [`Outcome`].
#[verifier::ext_equal]
pub ghost struct OutcomeModel {
    pub written: Option<Seq<char>>,
    pub termination: Option<Seq<char>>,
}

impl View for Outcome {
    type V = OutcomeModel;

    open spec fn view(&self) -> OutcomeModel {
        OutcomeModel {
            written: match self.written {
                Some(ref s) => Some(s@),
                None => None,
            },
            termination: match self.termination {
                Some(ref s) => Some(s@),
                None => None,
            },
        }
    }
}

/// An outcome demanding nothing of the host.
pub open spec fn silent_outcome() -> OutcomeModel {
    OutcomeModel { written: None::<Seq<char>>, termination: None::<Seq<char>> }
}

/// The result of one transition of the state machine.
#[verifier::ext_equal]
pub ghost struct StepModel {
    pub logger: LoggerModel,
    pub thread: ThreadModel,
    pub outcome: OutcomeModel,
}

/// The innermost scope's tally raised by one, on a stack that has one.
pub open spec fn bump_last(scopes: Seq<ScopeModel>) -> Seq<ScopeModel> {
    if scopes.len() > 0 {
        scopes.update(
            scopes.len() - 1,
            ScopeModel { errors: sat_add(scopes.last().errors, 1), name: scopes.last().name },
        )
    } else {
        scopes
    }
}

/// The scope name a record is attributed to: the innermost named scope of
/// the thread when one is active, else the record's module path.
pub open spec fn resolved_scope(t: ThreadModel, r: RecordModel) -> Seq<char> {
    if t.scopes.len() > 0 {
        t.scopes.last().name
    } else {
        r.module
    }
}

/// The display tag of a thread, before any is assigned the first thread's
/// tag stands in.
pub open spec fn tag_of(t: ThreadModel) -> nat {
    match t.ordinal {
        Some(o) => if o >= 0 {
            o as nat
        } else {
            0
        },
        None => 0,
    }
}

/// The fixed diagnostic raised by an error record that is neither counted
/// nor attributable to a named scope.
pub open spec fn usage_message(prefix: Seq<char>) -> Seq<char> {
    prefix + ": error! called outside a named scope"@
}

/// One transition of the state machine, for one record under timestamp
/// `now`:
///
/// 1. a record whose severity is not of interest is dropped whole;
/// 2. an error record raises the process total, the thread tally and the
///    innermost scope's tally;
/// 3. a thread logging its first rendered record is assigned the next
///    display tag (only when thread tags are shown);
/// 4. a debug record is written to the real error stream, bypassing the
///    sink;
/// 5. an error record terminates the unit of work abruptly — with the
///    rendered text when the one-shot force flag was set or a named scope is
///    active, with a fixed diagnostic otherwise — unless an error-counting
///    region is active on the thread;
/// 6. every other rendered record is delivered to the sink: appended to the
///    captured buffer (and mirrored when so configured), or written to the
///    real error stream when nothing captures.
pub open spec fn spec_step(
    l: LoggerModel,
    t: ThreadModel,
    r: RecordModel,
    now: Seq<char>,
) -> StepModel {
    if !spec_enabled(r.severity, l.threshold) {
        StepModel { logger: l, thread: t, outcome: silent_outcome() }
    } else {
        let l1 = if r.severity == Severity::Error {
            LoggerModel { total_errors: sat_add(l.total_errors, 1), ..l }
        } else {
            l
        };
        let t1 = if r.severity == Severity::Error {
            ThreadModel { errors: sat_add(t.errors, 1), scopes: bump_last(t.scopes), ..t }
        } else {
            t
        };
        let assign = l.config.show_thread && t1.ordinal is None;
        let l2 = if assign {
            LoggerModel { next_ordinal: sat_add(l1.next_ordinal, 1), ..l1 }
        } else {
            l1
        };
        let t2 = if assign {
            ThreadModel { ordinal: Some(l1.next_ordinal), ..t1 }
        } else {
            t1
        };
        let rendered = spec_render(
            l.config,
            tag_of(t2),
            now,
            r.severity,
            r.file,
            r.line as nat,
            resolved_scope(t, r),
            r.text,
        );
        if r.severity == Severity::Debug {
            StepModel {
                logger: l2,
                thread: t2,
                outcome: OutcomeModel { written: Some(rendered), termination: None::<Seq<char>> },
            }
        } else if r.severity == Severity::Error && t2.force_panic {
            StepModel {
                logger: l2,
                thread: ThreadModel { force_panic: false, ..t2 },
                outcome: OutcomeModel { written: None::<Seq<char>>, termination: Some(rendered) },
            }
        } else if r.severity == Severity::Error && !t2.counting && t2.scopes.len() > 0 {
            StepModel {
                logger: l2,
                thread: t2,
                outcome: OutcomeModel { written: None::<Seq<char>>, termination: Some(rendered) },
            }
        } else if r.severity == Severity::Error && !t2.counting {
            StepModel {
                logger: l2,
                thread: t2,
                outcome: OutcomeModel {
                    written: None::<Seq<char>>,
                    termination: Some(usage_message(l.config.prefix)),
                },
            }
        } else {
            match l2.sink {
                Some(buffer) => StepModel {
                    logger: LoggerModel { sink: Some(buffer + rendered), ..l2 },
                    thread: t2,
                    outcome: OutcomeModel {
                        written: if l2.mirror {
                            Some(rendered)
                        } else {
                            None::<Seq<char>>
                        },
                        termination: None::<Seq<char>>,
                    },
                },
                None => StepModel {
                    logger: l2,
                    thread: t2,
                    outcome: OutcomeModel {
                        written: Some(rendered),
                        termination: None::<Seq<char>>,
                    },
                },
            }
        }
    }
}

/// The transition under a known timestamp took the state from `(l0, t0)` to
/// `(l1, t1)` with outcome `o`.
pub open spec fn step_to(
    l0: LoggerModel,
    t0: ThreadModel,
    r: RecordModel,
    now: Seq<char>,
    l1: LoggerModel,
    t1: ThreadModel,
    o: OutcomeModel,
) -> bool {
    spec_step(l0, t0, r, now) == StepModel { logger: l1, thread: t1, outcome: o }
}

/// The contract of [`log_record`]: without a timestamp the transition is a
/// function of the arguments alone; with one, it holds for the timestamp the
/// clock returned, whatever it was.
pub open spec fn step_post(
    l0: LoggerModel,
    t0: ThreadModel,
    r: RecordModel,
    l1: LoggerModel,
    t1: ThreadModel,
    o: OutcomeModel,
) -> bool {
    if l0.config.show_time {
        exists|now: Seq<char>| #[trigger] step_to(l0, t0, r, now, l1, t1, o)
    } else {
        step_to(l0, t0, r, Seq::<char>::empty(), l1, t1, o)
    }
}

/// Relies on `time::format_description::parse`,
/// `time::OffsetDateTime::now_local` and `time::OffsetDateTime::format`:
/// renders the local time with the given format description, or returns the
/// empty string where the local offset cannot be determined or the rendering
/// fails.
#[verifier::external_body]
fn local_timestamp(format: &str) -> (r: String) {
    match time::format_description::parse(format) {
        Ok(items) => match time::OffsetDateTime::now_local() {
            Ok(now) => now.format(&items).unwrap_or_default(),
            Err(_) => String::new(),
        },
        Err(_) => String::new(),
    }
}

/// Handle one record: account it, decide its fate, render it, and say what
/// the host owes (text for the real error stream, or an abrupt
/// termination).
#[verifier::rlimit(100)]
pub fn log_record(logger: &mut Logger, thread: &mut ThreadState, record: &Record) -> (o: Outcome)
    ensures
        step_post(old(logger)@, old(thread)@, record@, final(logger)@, final(thread)@, o@),
{
    let ghost l0 = old(logger)@;
    let ghost t0 = old(thread)@;
    let ghost r = record@;

    if !enabled(record.severity, logger.threshold) {
        let o = Outcome { written: None, termination: None };
        proof {
            assert(step_to(l0, t0, r, Seq::<char>::empty(), logger@, thread@, o@));
            if l0.config.show_time {
                assert(step_post(l0, t0, r, logger@, thread@, o@));
            }
        }
        return o;
    }

    if matches!(record.severity, Severity::Error) {
        logger.total_errors = sat_add_u64(logger.total_errors, 1);
        thread.errors = sat_add_u64(thread.errors, 1);
        let k = thread.scopes.len();
        if k > 0 {
            let bumped = sat_add_u64(thread.scopes[k - 1].errors, 1);
            thread.scopes[k - 1].errors = bumped;
        }
        proof {
            assert(thread@.scopes =~= bump_last(t0.scopes));
        }
    }
    let ghost l1 = if r.severity == Severity::Error {
        LoggerModel { total_errors: sat_add(l0.total_errors, 1), ..l0 }
    } else {
        l0
    };
    let ghost t1 = if r.severity == Severity::Error {
        ThreadModel { errors: sat_add(t0.errors, 1), scopes: bump_last(t0.scopes), ..t0 }
    } else {
        t0
    };
    proof {
        assert(logger@ =~~= l1);
        assert(thread@ =~~= t1);
    }

    let tag: u64 = if logger.config.show_thread {
        match thread.ordinal {
            Some(t) => t,
            None => {
                let assigned = logger.next_ordinal;
                thread.ordinal = Some(assigned);
                logger.next_ordinal = sat_add_u64(assigned, 1);
                assigned
            },
        }
    } else {
        match thread.ordinal {
            Some(t) => t,
            None => 0,
        }
    };
    let ghost assign = l0.config.show_thread && t1.ordinal is None;
    let ghost l2 = if assign {
        LoggerModel { next_ordinal: sat_add(l1.next_ordinal, 1), ..l1 }
    } else {
        l1
    };
    let ghost t2 = if assign {
        ThreadModel { ordinal: Some(l1.next_ordinal), ..t1 }
    } else {
        t1
    };
    proof {
        assert(logger@ =~~= l2);
        assert(thread@ =~~= t2);
        assert(tag as nat == tag_of(t2));
    }

    let now: String = if logger.config.show_time {
        local_timestamp("[year]-[month]-[day] [hour]:[minute]:[second]")
    } else {
        String::new()
    };

    let rendered: String = {
        let scope_name: &str = if thread.scopes.len() > 0 {
            thread.scopes[thread.scopes.len() - 1].name.as_str()
        } else {
            record.module.as_str()
        };
        proof {
            assert(scope_name@ == resolved_scope(t0, r));
        }
        logger.config.format_message(tag, now.as_str(), record, scope_name)
    };
    let ghost rendered_spec = spec_render(
        l0.config,
        tag_of(t2),
        now@,
        r.severity,
        r.file,
        r.line as nat,
        resolved_scope(t0, r),
        r.text,
    );

    let o: Outcome = if matches!(record.severity, Severity::Debug) {
        Outcome { written: Some(rendered), termination: None }
    } else if matches!(record.severity, Severity::Error) && thread.force_panic {
        thread.force_panic = false;
        Outcome { written: None, termination: Some(rendered) }
    } else if matches!(record.severity, Severity::Error) && !thread.counting {
        if thread.scopes.len() > 0 {
            Outcome { written: None, termination: Some(rendered) }
        } else {
            let mut message = logger.config.prefix.clone();
            message.append(": error! called outside a named scope");
            proof {
                assert(message@ =~= usage_message(l0.config.prefix));
            }
            Outcome { written: None, termination: Some(message) }
        }
    } else {
        let buffer = logger.sink.take();
        match buffer {
            Some(mut b) => {
                b.append(rendered.as_str());
                logger.sink = Some(b);
                if logger.mirror {
                    Outcome { written: Some(rendered), termination: None }
                } else {
                    Outcome { written: None, termination: None }
                }
            },
            None => Outcome { written: Some(rendered), termination: None },
        }
    };

    proof {
        assert(spec_step(l0, t0, r, now@) =~~= StepModel {
            logger: logger@,
            thread: thread@,
            outcome: o@,
        });
        assert(step_to(l0, t0, r, now@, logger@, thread@, o@));
        if !l0.config.show_time {
            assert(now@ =~= Seq::<char>::empty());
        }
    }
    o
}

/// Set the one-shot flag that turns the thread's next error record into an
/// abrupt termination with the rendered text as payload, whatever regions
/// or scopes are active.
pub fn force_panic(thread: &mut ThreadState)
    ensures
        final(thread)@ == (ThreadModel { force_panic: true, ..old(thread)@ }),
{
    thread.force_panic = true;
    proof {
        assert(thread@ =~~= ThreadModel { force_panic: true, ..old(thread)@ });
    }
}

/// What [`begin_count`] saves: the counting flag to restore and the
/// thread-tally baseline against which the region's delta is read.
pub struct CountGuard {
    pub prev_counting: bool,
    pub baseline: u64,
}

/// Open an error-counting region on this thread: while it is active, error
/// records are tallied and delivered instead of terminating the unit of
/// work.  Regions nest; each saves the flag it found.
pub fn begin_count(thread: &mut ThreadState) -> (g: CountGuard)
    ensures
        final(thread)@ == (ThreadModel { counting: true, ..old(thread)@ }),
        g.prev_counting == old(thread)@.counting,
        g.baseline as int == old(thread)@.errors,
{
    let g = CountGuard { prev_counting: thread.counting, baseline: thread.errors };
    thread.counting = true;
    proof {
        assert(thread@ =~~= ThreadModel { counting: true, ..old(thread)@ });
    }
    g
}

/// Close an error-counting region: restore the flag the region found and
/// return the number of errors tallied on this thread since the region
/// opened.
pub fn end_count(thread: &mut ThreadState, guard: CountGuard) -> (n: u64)
    ensures
        final(thread)@ == (ThreadModel { counting: guard.prev_counting, ..old(thread)@ }),
        n as int == if old(thread)@.errors >= guard.baseline as int {
            old(thread)@.errors - guard.baseline as int
        } else {
            0
        },
{
    thread.counting = guard.prev_counting;
    proof {
        assert(thread@ =~~= ThreadModel { counting: guard.prev_counting, ..old(thread)@ });
    }
    if thread.errors >= guard.baseline {
        thread.errors - guard.baseline
    } else {
        0
    }
}

} // verus!
