//! The timing harness: a fixed number of repetitions of one fallible
//! operation, stopped at the first failure, with the wall-clock time of the
//! whole run.
use vstd::prelude::*;
use vstd::string::StringExecFns;
use crate::text::{millis_text, push_millis};
use std::time::Instant;
use core::time::Duration;

verus! {

/// Number of timed repetitions of each pipeline variant.
pub const ITERS: usize = 10;

/// `std::time::Instant`, a reading of the monotonic clock. It is carried from
/// the start of a measurement to its end and nothing is known of what it
/// holds.
#[verifier::external_type_specification]
#[verifier::external_body]
pub struct ExInstant(Instant);

/// `Instant::now` reads the monotonic clock. Nothing is claimed of the value.
pub assume_specification[ Instant::now ]() -> Instant;

/// `Instant::elapsed` gives the time that has passed since the instant was
/// taken. Nothing is claimed of the value.
pub assume_specification[ Instant::elapsed ](start: &Instant) -> Duration;

/// `Duration::as_nanos` gives the whole duration in nanoseconds. The duration
/// is opaque here, so nothing is claimed of the number.
pub assume_specification[ Duration::as_nanos ](d: &Duration) -> u128;

/// What the harness does after a call of the timed operation.
pub enum Progress<E> {
    /// Call the operation again.
    Again,
    /// All repetitions succeeded.
    Finished,
    /// The call failed; no further call is made.
    Failed(E),
}

/// Decides what follows the call that came after `done` successful ones, in
/// a run of `limit` repetitions.
pub fn after_call<E>(done: usize, limit: usize, outcome: Result<(), E>) -> (p: Progress<E>)
    requires
        done < limit,
    ensures
        outcome is Err ==> p == Progress::Failed(outcome->Err_0),
        outcome is Ok && done + 1 < limit ==> p is Again,
        outcome is Ok && done + 1 == limit ==> p is Finished,
{
    match outcome {
        Err(e) => Progress::Failed(e),
        Ok(_) => if done + 1 < limit {
            Progress::Again
        } else {
            Progress::Finished
        },
    }
}

/// What one run of the repetition loop did: how often the operation was
/// called, and the failure that ended the run, if one did.
pub struct Repeated<E> {
    pub calls: usize,
    pub failure: Option<E>,
}

impl<E> Repeated<E> {
    /// The number of calls that succeeded: all of them, or all but the last.
    pub open spec fn succeeded(&self) -> int {
        if self.failure is Some {
            self.calls - 1
        } else {
            self.calls as int
        }
    }
}

/// Calls `f` up to `limit` times and stops after the first call that fails.
///
/// With no failure the operation is called exactly `limit` times. A failure
/// ends the run at once: the failing call is the last, so fewer than `limit`
/// calls succeeded.
pub fn repeat<E, F: Fn() -> Result<(), E>>(limit: usize, f: &F) -> (r: Repeated<E>)
    requires
        call_requires(*f, ()),
    ensures
        r.failure is None ==> r.calls == limit,
        r.failure is Some ==> 1 <= r.calls <= limit,
        r.failure is Some ==> r.succeeded() < limit,
        r.failure is Some ==> call_ensures(*f, (), Err::<(), E>(r.failure->0)),
        r.calls >= 2 || (r.calls == 1 && r.failure is None) ==> call_ensures(
            *f,
            (),
            Ok::<(), E>(()),
        ),
        (forall|e: E| !call_ensures(*f, (), Err::<(), E>(e))) ==> r.failure is None,
        limit > 0 && !call_ensures(*f, (), Ok::<(), E>(())) ==> r.failure is Some && r.calls == 1,
{
    let mut calls: usize = 0;
    while calls < limit
        invariant
            calls <= limit,
            call_requires(*f, ()),
            calls > 0 ==> call_ensures(*f, (), Ok::<(), E>(())),
        decreases limit - calls,
    {
        let outcome = f();
        proof {
            if let Ok(u) = outcome {
                assert(u == ());
                assert(outcome == Ok::<(), E>(u));
            }
        }
        match after_call(calls, limit, outcome) {
            Progress::Failed(e) => {
                return Repeated { calls: calls + 1, failure: Some(e) };
            },
            _ => {
                calls = calls + 1;
            },
        }
    }
    Repeated { calls, failure: None }
}

/// The measurement of one pipeline variant: it covers at least one
/// iteration.
pub struct TimingResult {
    label: String,
    iterations: usize,
    total_nanos: u128,
}

/// The line that reports a measurement: the label, the total time and the
/// average per iteration, both in milliseconds.
pub open spec fn report_text(label: Seq<char>, iterations: nat, total_nanos: nat) -> Seq<char>
    recommends
        iterations > 0,
{
    label + " pipeline: "@ + millis_text(total_nanos) + " ("@ + millis_text(
        total_nanos / iterations,
    ) + " per iteration)\n"@
}

impl TimingResult {
    #[verifier::type_invariant]
    spec fn covers_an_iteration(&self) -> bool {
        self.iterations > 0
    }

    /// The name of the variant.
    pub closed spec fn label(&self) -> Seq<char> {
        self.label@
    }

    /// How often the operation ran inside the timed region.
    pub closed spec fn iterations(&self) -> nat {
        self.iterations as nat
    }

    /// Wall-clock time of the whole timed region, in nanoseconds.
    pub closed spec fn total_nanos(&self) -> nat {
        self.total_nanos as nat
    }

    /// A measurement of `iterations` runs that took `total_nanos`
    /// nanoseconds together; none for a measurement of no run at all.
    pub fn new(label: &str, iterations: usize, total_nanos: u128) -> (r: Option<TimingResult>)
        ensures
            r is Some <==> iterations > 0,
            r is Some ==> r->0.label() == label@ && r->0.iterations() == iterations
                && r->0.total_nanos() == total_nanos,
    {
        if iterations == 0 {
            None
        } else {
            Some(TimingResult::measured(label, iterations, total_nanos))
        }
    }

    /// A measurement of at least one run.
    pub(crate) fn measured(label: &str, iterations: usize, total_nanos: u128) -> (t: TimingResult)
        requires
            iterations > 0,
        ensures
            t.label() == label@,
            t.iterations() == iterations,
            t.total_nanos() == total_nanos,
    {
        TimingResult { label: String::from_str(label), iterations, total_nanos }
    }

    /// How often the operation ran inside the timed region: at least once.
    pub fn iteration_count(&self) -> (n: usize)
        ensures
            n == self.iterations(),
            n > 0,
    {
        proof {
            use_type_invariant(self);
        }
        self.iterations
    }

    /// Wall-clock time of the whole timed region, in nanoseconds.
    pub fn elapsed_nanos(&self) -> (n: u128)
        ensures
            n == self.total_nanos(),
    {
        self.total_nanos
    }

    /// Average time of one iteration in nanoseconds, rounded down.
    pub fn average_nanos(&self) -> (avg: u128)
        ensures
            self.iterations() > 0,
            avg == self.total_nanos() / self.iterations(),
    {
        proof {
            use_type_invariant(self);
        }
        self.total_nanos / (self.iterations as u128)
    }

    /// The console line for this measurement.
    pub fn report_line(&self) -> (line: String)
        ensures
            line@ == report_text(self.label(), self.iterations(), self.total_nanos()),
    {
        let mut line = self.label.clone();
        line.append(" pipeline: ");
        push_millis(&mut line, self.total_nanos);
        line.append(" (");
        push_millis(&mut line, self.average_nanos());
        line.append(" per iteration)\n");
        line
    }
}

/// Runs `f` [`ITERS`] times in a tight loop and measures the wall-clock time
/// from just before the first call to just after the last.
///
/// The first failure is handed out at once: the remaining iterations are not
/// run and no timing is reported. The harness makes no warm-up call.
pub fn time_it<E, F: Fn() -> Result<(), E>>(label: &str, f: F) -> (r: Result<TimingResult, E>)
    requires
        call_requires(f, ()),
    ensures
        r is Ok ==> r->Ok_0.label() == label@ && r->Ok_0.iterations() == ITERS,
        r is Ok ==> call_ensures(f, (), Ok::<(), E>(())),
        r is Err ==> call_ensures(f, (), Err::<(), E>(r->Err_0)),
        (forall|e: E| !call_ensures(f, (), Err::<(), E>(e))) ==> r is Ok,
        !call_ensures(f, (), Ok::<(), E>(())) ==> r is Err,
{
    let start = Instant::now();
    let run = repeat(ITERS, &f);
    match run.failure {
        Some(e) => Err(e),
        None => {
            let elapsed = start.elapsed();
            Ok(TimingResult::measured(label, run.calls, elapsed.as_nanos()))
        },
    }
}

} // verus!
