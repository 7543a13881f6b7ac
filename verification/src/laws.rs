//! The general laws of the logger, stated over the state-machine model and
//! proved once for all inputs: what capturing collects, what debug and
//! filtered records leave alone, how counting regions nest, what a scope
//! rolls up, and what one thread's errors can and cannot touch.

use vstd::prelude::*;

use crate::format::{LoggyModel, RecordModel, spec_render};
use crate::harness::count_delta;
use crate::scope::{rollup_message, spec_scope_termination};
use crate::severity::{spec_enabled, Severity};
use crate::state::{
    resolved_scope, silent_outcome, spec_step, spec_take, tag_of, LoggerModel, ScopeModel,
    StepModel, ThreadModel,
};

verus! {

/// The state after a sequence of records is logged on one thread, one
/// transition each, with no timestamp.
pub open spec fn run_steps(l: LoggerModel, t: ThreadModel, rs: Seq<RecordModel>) -> (
    LoggerModel,
    ThreadModel,
)
    decreases rs.len(),
{
    if rs.len() == 0 {
        (l, t)
    } else {
        let s = spec_step(l, t, rs.first(), Seq::<char>::empty());
        run_steps(s.logger, s.thread, rs.drop_first())
    }
}

/// The rendering of one record as a pure function of the configuration, the
/// thread it is logged on, and the record — the form every record takes
/// when neither timestamps nor thread tags are shown.
pub open spec fn render_plain(c: LoggyModel, t: ThreadModel, r: RecordModel) -> Seq<char> {
    spec_render(
        c,
        tag_of(t),
        Seq::<char>::empty(),
        r.severity,
        r.file,
        r.line as nat,
        resolved_scope(t, r),
        r.text,
    )
}

/// The concatenation of the renderings of a sequence of records, in call
/// order.
pub open spec fn renders_of(c: LoggyModel, t: ThreadModel, rs: Seq<RecordModel>) -> Seq<char>
    decreases rs.len(),
{
    if rs.len() == 0 {
        Seq::<char>::empty()
    } else {
        render_plain(c, t, rs.first()) + renders_of(c, t, rs.drop_first())
    }
}

/// For every sequence of informational and warning records logged on a
/// single thread with capturing active (and no timestamps or thread tags
/// shown), the captured buffer ends as what it held followed by the
/// concatenation of each record's rendering, in call order; the thread's
/// state and every counter are untouched.
pub proof fn lemma_capture_concatenation(l: LoggerModel, t: ThreadModel, rs: Seq<RecordModel>)
    requires
        !l.config.show_time,
        !l.config.show_thread,
        l.sink is Some,
        forall|i: int|
            #![trigger rs[i]]
            0 <= i < rs.len() ==> (rs[i].severity == Severity::Info || rs[i].severity
                == Severity::Warn),
        forall|i: int| #![trigger rs[i]] 0 <= i < rs.len() ==> spec_enabled(
            rs[i].severity,
            l.threshold,
        ),
    ensures
        run_steps(l, t, rs).1 == t,
        run_steps(l, t, rs).0 == (LoggerModel {
            sink: Some(l.sink.unwrap() + renders_of(l.config, t, rs)),
            ..l
        }),
    decreases rs.len(),
{
    if rs.len() == 0 {
        assert(l.sink.unwrap() + renders_of(l.config, t, rs) =~= l.sink.unwrap());
        assert(run_steps(l, t, rs).0 =~~= LoggerModel {
            sink: Some(l.sink.unwrap() + renders_of(l.config, t, rs)),
            ..l
        });
    } else {
        let s = spec_step(l, t, rs.first(), Seq::<char>::empty());
        let rest = rs.drop_first();
        assert(s.thread =~~= t);
        assert(s.logger =~~= LoggerModel {
            sink: Some(l.sink.unwrap() + render_plain(l.config, t, rs.first())),
            ..l
        });
        assert forall|i: int| 0 <= i < rest.len() implies (#[trigger] rest[i]).severity
            == Severity::Info || rest[i].severity == Severity::Warn by {
            assert(rest[i] == rs[i + 1]);
        }
        assert forall|i: int| 0 <= i < rest.len() implies spec_enabled(
            (#[trigger] rest[i]).severity,
            l.threshold,
        ) by {
            assert(rest[i] == rs[i + 1]);
        }
        lemma_capture_concatenation(s.logger, t, rest);
        assert(s.logger.sink.unwrap() + renders_of(s.logger.config, t, rest) =~= l.sink.unwrap()
            + renders_of(l.config, t, rs));
        assert(run_steps(l, t, rs).0 =~~= LoggerModel {
            sink: Some(l.sink.unwrap() + renders_of(l.config, t, rs)),
            ..l
        });
    }
}

/// A debug record is never present in the captured buffer, whatever the
/// capture state, and is always written to the real error stream: the
/// transition leaves the sink as it was, writes exactly the rendering, and
/// terminates nothing.
pub proof fn lemma_debug_bypasses_capture(
    l: LoggerModel,
    t: ThreadModel,
    r: RecordModel,
    now: Seq<char>,
)
    requires
        r.severity == Severity::Debug,
    ensures
        spec_step(l, t, r, now).logger.sink == l.sink,
        spec_step(l, t, r, now).logger.total_errors == l.total_errors,
        spec_step(l, t, r, now).thread.errors == t.errors,
        spec_step(l, t, r, now).outcome.written == Some(
            spec_render(
                l.config,
                tag_of(spec_step(l, t, r, now).thread),
                now,
                r.severity,
                r.file,
                r.line as nat,
                resolved_scope(t, r),
                r.text,
            ),
        ),
        spec_step(l, t, r, now).outcome.termination is None,
{
}

/// A record whose severity is below the threshold (severities with special
/// handling aside) produces no output and changes no state: the transition
/// is the identity with a silent outcome.
pub proof fn lemma_filtered_record_is_dropped(
    l: LoggerModel,
    t: ThreadModel,
    r: RecordModel,
    now: Seq<char>,
)
    requires
        !spec_enabled(r.severity, l.threshold),
    ensures
        spec_step(l, t, r, now) == (StepModel { logger: l, thread: t, outcome: silent_outcome() }),
{
}

/// Taking the captured buffer and immediately taking it again yields an
/// empty text the second time.
pub proof fn lemma_take_and_clear_idempotent(l: LoggerModel)
    requires
        l.sink is Some,
    ensures
        spec_take(spec_take(l).0).1 == Some(Seq::<char>::empty()),
{
}

/// A scope stack whose innermost tally was raised by `n`.
pub open spec fn bumped_scopes(scopes: Seq<ScopeModel>, n: int) -> Seq<ScopeModel> {
    if scopes.len() == 0 {
        scopes
    } else {
        scopes.update(
            scopes.len() - 1,
            ScopeModel { name: scopes.last().name, errors: scopes.last().errors + n },
        )
    }
}

/// Error records logged under an active counting region accumulate: each
/// raises the thread tally, the process total and the innermost scope's
/// tally by exactly one, terminates nothing, and leaves the region active.
pub proof fn lemma_counted_errors_accumulate(l: LoggerModel, t: ThreadModel, rs: Seq<RecordModel>)
    requires
        !l.config.show_thread,
        t.counting,
        !t.force_panic,
        forall|i: int| #![trigger rs[i]] 0 <= i < rs.len() ==> rs[i].severity == Severity::Error,
        l.total_errors + rs.len() <= u64::MAX as int,
        t.errors + rs.len() <= u64::MAX as int,
        t.scopes.len() > 0 ==> t.scopes.last().errors + rs.len() <= u64::MAX as int,
    ensures
        run_steps(l, t, rs).1 == (ThreadModel {
            errors: t.errors + rs.len(),
            scopes: bumped_scopes(t.scopes, rs.len() as int),
            ..t
        }),
        run_steps(l, t, rs).0.total_errors == l.total_errors + rs.len(),
        run_steps(l, t, rs).0.config == l.config,
        run_steps(l, t, rs).0.threshold == l.threshold,
    decreases rs.len(),
{
    if rs.len() == 0 {
        assert(bumped_scopes(t.scopes, 0) =~= t.scopes);
        assert(run_steps(l, t, rs).1 =~~= ThreadModel {
            errors: t.errors + rs.len(),
            scopes: bumped_scopes(t.scopes, rs.len() as int),
            ..t
        });
    } else {
        let s = spec_step(l, t, rs.first(), Seq::<char>::empty());
        let rest = rs.drop_first();
        assert(s.thread =~~= ThreadModel {
            errors: t.errors + 1,
            scopes: bumped_scopes(t.scopes, 1),
            ..t
        });
        assert(s.logger.total_errors == l.total_errors + 1);
        assert(s.logger.config == l.config);
        assert forall|i: int| 0 <= i < rest.len() implies (#[trigger] rest[i]).severity
            == Severity::Error by {
            assert(rest[i] == rs[i + 1]);
        }
        if t.scopes.len() > 0 {
            assert(s.thread.scopes.last().errors == t.scopes.last().errors + 1);
        }
        lemma_counted_errors_accumulate(s.logger, s.thread, rest);
        assert(bumped_scopes(bumped_scopes(t.scopes, 1), rest.len() as int) =~= bumped_scopes(
            t.scopes,
            rs.len() as int,
        ));
        assert(run_steps(l, t, rs).1 =~~= ThreadModel {
            errors: t.errors + rs.len(),
            scopes: bumped_scopes(t.scopes, rs.len() as int),
            ..t
        });
    }
}

/// For all `n`: logging a counted error `n` times inside one counting
/// region yields a delta of exactly `n`, and raises the thread's running
/// tally by exactly `n`.
pub proof fn lemma_count_region_exact(l: LoggerModel, t: ThreadModel, rs: Seq<RecordModel>)
    requires
        !l.config.show_thread,
        !t.force_panic,
        forall|i: int| #![trigger rs[i]] 0 <= i < rs.len() ==> rs[i].severity == Severity::Error,
        l.total_errors + rs.len() <= u64::MAX as int,
        t.errors + rs.len() <= u64::MAX as int,
        t.scopes.len() > 0 ==> t.scopes.last().errors + rs.len() <= u64::MAX as int,
    ensures
        ({
            let s = run_steps(l, ThreadModel { counting: true, ..t }, rs);
            &&& count_delta(t.errors, s.1.errors) == rs.len()
            &&& s.1.errors == t.errors + rs.len()
            &&& s.0.total_errors == l.total_errors + rs.len()
        }),
{
    lemma_counted_errors_accumulate(l, ThreadModel { counting: true, ..t }, rs);
}

/// The nesting law: with an outer counting region active, the delta an
/// inner region reports plus the errors the outer region logged directly —
/// before and after the inner region — equals the outer region's own
/// delta.
pub proof fn lemma_nested_count_regions(
    l: LoggerModel,
    t: ThreadModel,
    before: Seq<RecordModel>,
    inner: Seq<RecordModel>,
    after: Seq<RecordModel>,
)
    requires
        !l.config.show_thread,
        !t.force_panic,
        forall|i: int| #![trigger before[i]] 0 <= i < before.len() ==> before[i].severity
            == Severity::Error,
        forall|i: int| #![trigger inner[i]] 0 <= i < inner.len() ==> inner[i].severity
            == Severity::Error,
        forall|i: int| #![trigger after[i]] 0 <= i < after.len() ==> after[i].severity
            == Severity::Error,
        l.total_errors + before.len() + inner.len() + after.len() <= u64::MAX as int,
        t.errors + before.len() + inner.len() + after.len() <= u64::MAX as int,
        t.scopes.len() > 0 ==> t.scopes.last().errors + before.len() + inner.len() + after.len()
            <= u64::MAX as int,
    ensures
        ({
            let entered = ThreadModel { counting: true, ..t };
            let s1 = run_steps(l, entered, before);
            let s2 = run_steps(s1.0, s1.1, inner);
            let s3 = run_steps(s2.0, s2.1, after);
            let inner_delta = count_delta(s1.1.errors, s2.1.errors);
            let outer_delta = count_delta(t.errors, s3.1.errors);
            inner_delta + before.len() + after.len() == outer_delta
        }),
{
    let entered = ThreadModel { counting: true, ..t };
    lemma_counted_errors_accumulate(l, entered, before);
    let s1 = run_steps(l, entered, before);
    lemma_counted_errors_accumulate(s1.0, s1.1, inner);
    let s2 = run_steps(s1.0, s1.1, inner);
    lemma_counted_errors_accumulate(s2.0, s2.1, after);
}

/// The scope roll-up law: a scope entered, with `m` errors logged while it
/// was active under a counting region, then exited, owes a summary abrupt
/// termination whose message carries exactly `m` — and owes none when `m`
/// is zero.
pub proof fn lemma_scope_rollup(
    l: LoggerModel,
    t: ThreadModel,
    name: Seq<char>,
    rs: Seq<RecordModel>,
)
    requires
        !l.config.show_thread,
        t.counting,
        !t.force_panic,
        forall|i: int| #![trigger rs[i]] 0 <= i < rs.len() ==> rs[i].severity == Severity::Error,
        l.total_errors + rs.len() <= u64::MAX as int,
        t.errors + rs.len() <= u64::MAX as int,
        rs.len() <= u64::MAX as int,
    ensures
        ({
            let entered = ThreadModel {
                scopes: t.scopes.push(ScopeModel { name, errors: 0 }),
                ..t
            };
            let s = run_steps(l, entered, rs);
            let summary = spec_scope_termination(l.config.prefix, s.1, false);
            &&& rs.len() > 0 ==> summary == Some(
                rollup_message(l.config.prefix, name, rs.len() as nat),
            )
            &&& rs.len() == 0 ==> summary is None
        }),
{
    let entered = ThreadModel { scopes: t.scopes.push(ScopeModel { name, errors: 0 }), ..t };
    lemma_counted_errors_accumulate(l, entered, rs);
    let s = run_steps(l, entered, rs);
    assert(s.1.scopes.last() == ScopeModel { name, errors: rs.len() as int });
}

/// Cross-thread isolation: an error logged on a worker thread raises the
/// process-wide total by exactly one, while a scope held by the spawning
/// thread — whose state is no input of the worker's transition — rolls up
/// afterwards exactly as it would have before.
pub proof fn lemma_cross_thread_isolation(
    l: LoggerModel,
    spawner: ThreadModel,
    worker: ThreadModel,
    r: RecordModel,
    now: Seq<char>,
)
    requires
        r.severity == Severity::Error,
        l.total_errors < u64::MAX as int,
    ensures
        spec_step(l, worker, r, now).logger.total_errors == l.total_errors + 1,
        spec_step(l, worker, r, now).logger.config == l.config,
        spec_scope_termination(
            spec_step(l, worker, r, now).logger.config.prefix,
            spawner,
            false,
        ) == spec_scope_termination(l.config.prefix, spawner, false),
{
}

} // verus!
