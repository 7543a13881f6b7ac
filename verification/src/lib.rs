//! A logging facade and test harness with scope-aware error accounting.
//!
//! The library models the whole logging process as explicit values: a
//! process-wide [`Logger`](state::Logger), one [`ThreadState`](state::ThreadState)
//! per thread of the host program, and a typed fatal event
//! ([`Flow::Terminated`](flow::Flow)) in place of stack unwinding.  Every
//! transition of that state machine is a verified function with a contract.

pub mod flow;
pub mod format;
pub mod harness;
pub mod laws;
pub mod scope;
pub mod session;
pub mod severity;
pub mod state;
pub mod text;

pub use flow::Flow;
pub use format::{Loggy, Record};
pub use harness::{
    assert_logs, assert_logs_panics, assert_no_errors, assert_panics, assert_writes, count,
    fix_expected, ignore_log,
};
pub use scope::Scope;
pub use session::{NoteControl, Session};
pub use severity::{LevelFilter, Severity};
pub use state::{
    begin_count, end_count, force_panic, log_record, CountGuard, Logger, Outcome, ScopeFrame,
    ThreadState,
};
