//! A thread's working view of the logger: the process-wide state paired
//! with that thread's own state, with entry points for each severity.
//!
//! A multi-threaded host keeps the [`Logger`] behind its lock and one
//! [`ThreadState`] per thread; a single-threaded unit of work — a test in
//! particular — carries both together as one [`Session`] value.

use vstd::prelude::*;
use vstd::string::*;

use crate::format::{Record, RecordModel};
use crate::severity::Severity;
use crate::state::{log_record, step_post, Logger, LoggerModel, Outcome, ThreadModel, ThreadState};

verus! {

/// The process-wide state and one thread's state, handled as a unit.
pub struct Session {
    pub logger: Logger,
    pub thread: ThreadState,
}

/// Mathematical image of a [`Session`].
#[verifier::ext_equal]
pub ghost struct SessionModel {
    pub logger: LoggerModel,
    pub thread: ThreadModel,
}

impl View for Session {
    type V = SessionModel;

    open spec fn view(&self) -> SessionModel {
        SessionModel { logger: self.logger@, thread: self.thread@ }
    }
}

/// The record model of a plain (non-debug) log call: text and module path,
/// with no source location.
pub open spec fn plain_record(severity: Severity, text: Seq<char>, module: Seq<char>) -> RecordModel {
    RecordModel { severity, text, module, file: Seq::<char>::empty(), line: 0 }
}

impl Session {
    /// Handle one record on this session's thread.
    pub fn log(&mut self, record: &Record) -> (o: Outcome)
        ensures
            step_post(
                old(self)@.logger,
                old(self)@.thread,
                record@,
                final(self)@.logger,
                final(self)@.thread,
                o@,
            ),
    {
        log_record(&mut self.logger, &mut self.thread, record)
    }

    /// Log a plain record of the given severity.
    pub fn log_text(&mut self, severity: Severity, text: &str, module: &str) -> (o: Outcome)
        ensures
            step_post(
                old(self)@.logger,
                old(self)@.thread,
                plain_record(severity, text@, module@),
                final(self)@.logger,
                final(self)@.thread,
                o@,
            ),
    {
        let record = Record {
            severity,
            text: String::from_str(text),
            module: String::from_str(module),
            file: String::new(),
            line: 0,
        };
        proof {
            assert(record@ =~~= plain_record(severity, text@, module@));
        }
        log_record(&mut self.logger, &mut self.thread, &record)
    }

    /// Log an error message; unless an error-counting region is active on
    /// this thread, this is an abrupt-termination event.
    pub fn error(&mut self, text: &str, module: &str) -> (o: Outcome)
        ensures
            step_post(
                old(self)@.logger,
                old(self)@.thread,
                plain_record(Severity::Error, text@, module@),
                final(self)@.logger,
                final(self)@.thread,
                o@,
            ),
    {
        self.log_text(Severity::Error, text, module)
    }

    /// Log a warning message.
    pub fn warn(&mut self, text: &str, module: &str) -> (o: Outcome)
        ensures
            step_post(
                old(self)@.logger,
                old(self)@.thread,
                plain_record(Severity::Warn, text@, module@),
                final(self)@.logger,
                final(self)@.thread,
                o@,
            ),
    {
        self.log_text(Severity::Warn, text, module)
    }

    /// Log an informational message.
    pub fn info(&mut self, text: &str, module: &str) -> (o: Outcome)
        ensures
            step_post(
                old(self)@.logger,
                old(self)@.thread,
                plain_record(Severity::Info, text@, module@),
                final(self)@.logger,
                final(self)@.thread,
                o@,
            ),
    {
        self.log_text(Severity::Info, text, module)
    }

    /// Log a tracing message.
    pub fn trace(&mut self, text: &str, module: &str) -> (o: Outcome)
        ensures
            step_post(
                old(self)@.logger,
                old(self)@.thread,
                plain_record(Severity::Trace, text@, module@),
                final(self)@.logger,
                final(self)@.thread,
                o@,
            ),
    {
        self.log_text(Severity::Trace, text, module)
    }

    /// Log either an error or a warning, as the caller's configuration has
    /// it.
    pub fn note(&mut self, is_error: bool, text: &str, module: &str) -> (o: Outcome)
        ensures
            step_post(
                old(self)@.logger,
                old(self)@.thread,
                plain_record(
                    if is_error {
                        Severity::Error
                    } else {
                        Severity::Warn
                    },
                    text@,
                    module@,
                ),
                final(self)@.logger,
                final(self)@.thread,
                o@,
            ),
    {
        if is_error {
            self.error(text, module)
        } else {
            self.warn(text, module)
        }
    }

    /// Log a debugging message, carrying its source location; debug records
    /// go to the real error stream and are never captured.
    pub fn debug(&mut self, text: &str, module: &str, file: &str, line: u64) -> (o: Outcome)
        ensures
            step_post(
                old(self)@.logger,
                old(self)@.thread,
                (RecordModel {
                    severity: Severity::Debug,
                    text: text@,
                    module: module@,
                    file: file@,
                    line: line as int,
                }),
                final(self)@.logger,
                final(self)@.thread,
                o@,
            ),
    {
        let record = Record {
            severity: Severity::Debug,
            text: String::from_str(text),
            module: String::from_str(module),
            file: String::from_str(file),
            line,
        };
        log_record(&mut self.logger, &mut self.thread, &record)
    }
}

/// Program-wide control over whether one class of notes is reported as an
/// error or as a warning: the switch behind [`Session::note`].  The host
/// keeps one such value per condition and may flip it at run time, for
/// example from its command line.
pub struct NoteControl {
    pub value: bool,
}

impl NoteControl {
    /// A switch with the given initial setting.
    pub fn new(is_error: bool) -> (c: NoteControl)
        ensures
            c.value == is_error,
    {
        NoteControl { value: is_error }
    }

    /// Whether the condition is considered an error.
    pub fn is_an_error(&self) -> (r: bool)
        ensures
            r == self.value,
    {
        self.value
    }

    /// Set whether the condition is considered an error, returning the old
    /// setting.
    pub fn set_is_an_error(&mut self, is_error: bool) -> (r: bool)
        ensures
            final(self).value == is_error,
            r == old(self).value,
    {
        let previous = self.value;
        self.value = is_error;
        previous
    }
}

} // verus!
