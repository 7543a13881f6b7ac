//! The record formatter: renders one log event into the exact multi-line
//! text used both for the real error stream and for captured-buffer
//! comparisons.

use vstd::prelude::*;
use vstd::string::*;

use crate::severity::Severity;
use crate::text::{first_newline, first_nl, spec_dec, u64_to_dec};

verus! {

/// Configuration of the logger: a prefix put in front of every message
/// (typically the program name), and whether to include a timestamp and a
/// thread tag.
pub struct Loggy {
    /// A prefix appended to each message.
    pub prefix: String,
    /// Whether to include the date and time in the log message.
    pub show_time: bool,
    /// Whether to include the thread tag in the log message.
    pub show_thread: bool,
}

/// Mathematical image of a [`Loggy`].
pub ghost struct LoggyModel {
    pub prefix: Seq<char>,
    pub show_time: bool,
    pub show_thread: bool,
}

impl View for Loggy {
    type V = LoggyModel;

    open spec fn view(&self) -> LoggyModel {
        LoggyModel { prefix: self.prefix@, show_time: self.show_time, show_thread: self.show_thread }
    }
}

/// One logical log event, with its text already formatted by the caller.
/// The text may contain line breaks; the source file and line are only used
/// for `Debug` records.
pub struct Record {
    pub severity: Severity,
    pub text: String,
    pub module: String,
    pub file: String,
    pub line: u64,
}

/// Mathematical image of a [`Record`].
pub ghost struct RecordModel {
    pub severity: Severity,
    pub text: Seq<char>,
    pub module: Seq<char>,
    pub file: Seq<char>,
    pub line: int,
}

impl View for Record {
    type V = RecordModel;

    open spec fn view(&self) -> RecordModel {
        RecordModel {
            severity: self.severity,
            text: self.text@,
            module: self.module@,
            file: self.file@,
            line: self.line as int,
        }
    }
}

/// The upper-case spelling of a severity, used on the first line of a
/// rendered event.
pub open spec fn upper_name(severity: Severity) -> Seq<char> {
    match severity {
        Severity::Error => "ERROR"@,
        Severity::Warn => "WARN"@,
        Severity::Info => "INFO"@,
        Severity::Debug => "DEBUG"@,
        Severity::Trace => "TRACE"@,
    }
}

/// The lower-case spelling of a severity, used on the continuation lines of
/// a multi-line event to signal "same event" rather than a new one.
pub open spec fn lower_name(severity: Severity) -> Seq<char> {
    match severity {
        Severity::Error => "error"@,
        Severity::Warn => "warn"@,
        Severity::Info => "info"@,
        Severity::Debug => "debug"@,
        Severity::Trace => "trace"@,
    }
}

/// The upper-case spelling of a severity.
pub fn severity_upper(severity: Severity) -> (r: &'static str)
    ensures
        r@ == upper_name(severity),
{
    match severity {
        Severity::Error => "ERROR",
        Severity::Warn => "WARN",
        Severity::Info => "INFO",
        Severity::Debug => "DEBUG",
        Severity::Trace => "TRACE",
    }
}

/// The lower-case spelling of a severity.
pub fn severity_lower(severity: Severity) -> (r: &'static str)
    ensures
        r@ == lower_name(severity),
{
    match severity {
        Severity::Error => "error",
        Severity::Warn => "warn",
        Severity::Info => "info",
        Severity::Debug => "debug",
        Severity::Trace => "trace",
    }
}

/// The prefix put in front of one physical line of a rendered event, built
/// left to right: global prefix; bracketed thread tag (only when requested,
/// and omitted for the first thread, tag 0); a colon; the timestamp (only
/// when requested); the bracketed severity spelling; then either
/// `file:line:` for a `Debug` record, or the resolved scope name followed by
/// a colon, omitted entirely when that name is empty.
pub open spec fn spec_line_prefix(
    config: LoggyModel,
    tag: nat,
    now: Seq<char>,
    spelling: Seq<char>,
    severity: Severity,
    file: Seq<char>,
    line: nat,
    scope: Seq<char>,
) -> Seq<char> {
    config.prefix + (if config.show_thread && tag != 0 {
        "["@ + spec_dec(tag) + "]"@
    } else {
        Seq::<char>::empty()
    }) + ":"@ + (if config.show_time {
        " "@ + now
    } else {
        Seq::<char>::empty()
    }) + " ["@ + spelling + "]"@ + (if severity == Severity::Debug {
        " "@ + file + ":"@ + spec_dec(line) + ":"@
    } else if scope.len() > 0 {
        " "@ + scope + ":"@
    } else {
        Seq::<char>::empty()
    })
}

/// `text` rendered line by line: each line of the text becomes
/// `<prefix> <line>\n`, where the first line uses `first_prefix` and the
/// remaining lines use `cont_prefix`.
pub open spec fn render_lines(
    text: Seq<char>,
    first_prefix: Seq<char>,
    cont_prefix: Seq<char>,
) -> Seq<char>
    decreases text.len(),
{
    let i = first_nl(text);
    if i < 0 || i >= text.len() {
        first_prefix + " "@ + text + "\n"@
    } else {
        first_prefix + " "@ + text.take(i) + "\n"@ + render_lines(
            text.skip(i + 1),
            cont_prefix,
            cont_prefix,
        )
    }
}

/// The full rendering of one event, per the fixed textual contract: one
/// physical line per logical line of `text`, each line carrying the prefix
/// of [`spec_line_prefix`], where only the first line spells the severity in
/// upper case.
pub open spec fn spec_render(
    config: LoggyModel,
    tag: nat,
    now: Seq<char>,
    severity: Severity,
    file: Seq<char>,
    line: nat,
    scope: Seq<char>,
    text: Seq<char>,
) -> Seq<char> {
    render_lines(
        text,
        spec_line_prefix(config, tag, now, upper_name(severity), severity, file, line, scope),
        spec_line_prefix(config, tag, now, lower_name(severity), severity, file, line, scope),
    )
}

impl Loggy {
    /// Build the per-line prefix for one event, appending it to `message`.
    #[verifier::rlimit(50)]
    fn append_prefix(
        &self,
        message: &mut String,
        tag: u64,
        now: &str,
        spelling: &str,
        severity: Severity,
        file: &str,
        line: u64,
        scope: &str,
    )
        ensures
            final(message)@ == old(message)@ + spec_line_prefix(
                self@,
                tag as nat,
                now@,
                spelling@,
                severity,
                file@,
                line as nat,
                scope@,
            ),
    {
        message.append(self.prefix.as_str());
        if self.show_thread && tag != 0 {
            message.append("[");
            let digits = u64_to_dec(tag);
            message.append(digits.as_str());
            message.append("]");
        }
        message.append(":");
        if self.show_time {
            message.append(" ");
            message.append(now);
        }
        message.append(" [");
        message.append(spelling);
        message.append("]");
        if matches!(severity, Severity::Debug) {
            message.append(" ");
            message.append(file);
            message.append(":");
            let digits = u64_to_dec(line);
            message.append(digits.as_str());
            message.append(":");
        } else if scope.unicode_len() > 0 {
            message.append(" ");
            message.append(scope);
            message.append(":");
        }
        proof {
            assert(message@ =~= old(message)@ + spec_line_prefix(
                self@,
                tag as nat,
                now@,
                spelling@,
                severity,
                file@,
                line as nat,
                scope@,
            ));
        }
    }

    /// Render the whole event: every line of `text` prefixed, the first line
    /// with `first_prefix`, the rest with `cont_prefix`.
    fn render_text(first_prefix: &str, cont_prefix: &str, text: &str) -> (out: String)
        ensures
            out@ == render_lines(text@, first_prefix@, cont_prefix@),
        decreases text@.len(),
    {
        proof {
            crate::text::lemma_first_nl(text@);
        }
        let n = text.unicode_len();
        let i = first_newline(text);
        let mut out = String::from_str(first_prefix);
        out.append(" ");
        if i >= n {
            out.append(text);
            out.append("\n");
            proof {
                assert(out@ =~= render_lines(text@, first_prefix@, cont_prefix@));
            }
            out
        } else {
            let head = text.substring_char(0, i);
            let tail = text.substring_char(i + 1, n);
            out.append(head);
            out.append("\n");
            let rest = Self::render_text(cont_prefix, cont_prefix, tail);
            out.append(rest.as_str());
            proof {
                assert(head@ =~= text@.take(i as int));
                assert(tail@ =~= text@.skip(i + 1));
                assert(out@ =~= render_lines(text@, first_prefix@, cont_prefix@));
            }
            out
        }
    }

    /// Render one record into its exact multi-line textual form.
    pub fn format_message(&self, tag: u64, now: &str, record: &Record, scope: &str) -> (out:
        String)
        ensures
            out@ == spec_render(
                self@,
                tag as nat,
                now@,
                record.severity,
                record.file@,
                record.line as nat,
                scope@,
                record.text@,
            ),
    {
        let mut first_prefix = String::new();
        let upper = severity_upper(record.severity);
        self.append_prefix(
            &mut first_prefix,
            tag,
            now,
            upper,
            record.severity,
            record.file.as_str(),
            record.line,
            scope,
        );
        let mut cont_prefix = String::new();
        let lower = severity_lower(record.severity);
        self.append_prefix(
            &mut cont_prefix,
            tag,
            now,
            lower,
            record.severity,
            record.file.as_str(),
            record.line,
            scope,
        );
        Self::render_text(first_prefix.as_str(), cont_prefix.as_str(), record.text.as_str())
    }
}

} // verus!
