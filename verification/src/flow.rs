//! Control flow of a logical unit of work: either it ran to completion, or
//! it was terminated abruptly by an error-level event.
//!
//! Abrupt termination is the only error channel of this library.  It is a
//! typed fatal event carrying the rendered message; combinators propagate
//! it unchanged, and the host's outermost layer is the one place that turns
//! it into real unwinding.

use vstd::prelude::*;

verus! {

/// The result of running a unit of work: its value, or the message of the
/// abrupt termination that cut it short.
pub enum Flow<R> {
    Done(R),
    Terminated(String),
}

impl<R> Flow<R> {
    /// Whether the unit was cut short.
    pub open spec fn is_terminated(self) -> bool {
        self is Terminated
    }

    /// The termination message (meaningful only when terminated).
    pub open spec fn message(self) -> Seq<char> {
        self->Terminated_0@
    }

    /// The computed value (meaningful only when done).
    pub open spec fn value(self) -> R {
        self->Done_0
    }
}

} // verus!
