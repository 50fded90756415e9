//! The record of one execution: when it started, when it ended, whether it
//! failed, and which worker produced it.
//!
//! Every operation that reads the clock comes in two forms. The `_at` form
//! takes the reading as an argument and is specified exactly; the plain form
//! reads the wall clock and then does the same. A record is finalized by
//! `stop`, `error` or `finalize`; the worker loop finalizes every record it
//! emits, and `finalize` is there for code that may leave early.

use vstd::prelude::*;

verus! {

/// Core data captured for every execution.
#[derive(Debug, Clone)]
pub struct OutputCore {
    /// Start time of this execution, in nanoseconds since the Unix epoch.
    pub start_ns: i64,
    /// End time of this execution, in nanoseconds since the Unix epoch.
    pub end_ns: i64,
    /// An error that may have occurred.
    pub error: Option<String>,
    /// The client that ran the execution.
    pub client: u32,
    /// The iteration of the client that this execution became.
    pub iteration: u32,
}

/// The output of an execution.
#[derive(Debug, Clone)]
pub struct Output<D> {
    /// The core output metrics.
    pub core: OutputCore,
    /// The custom data recorded.
    pub custom: D,
}

impl OutputCore {
    /// The record of an execution that starts at `now` and has not ended yet.
    pub open spec fn started(client: u32, iteration: u32, now: i64) -> OutputCore {
        OutputCore { start_ns: now, end_ns: now, error: None, client, iteration }
    }

    /// This record with its end moved to `now`.
    pub open spec fn stopped_at(self, now: i64) -> OutputCore {
        OutputCore { end_ns: now, ..self }
    }

    /// This record with `message` as its error and its end moved to `now`.
    pub open spec fn failed_at(self, message: String, now: i64) -> OutputCore {
        OutputCore { end_ns: now, error: Some(message), ..self }
    }

    /// This record after the safety net has run at `now`: one that was never
    /// stopped gets `now` as its end, any other is left alone.
    pub open spec fn finalized_at(self, now: i64) -> OutputCore {
        if self.end_ns == self.start_ns {
            self.stopped_at(now)
        } else {
            self
        }
    }

    /// Whether an error was ever recorded.
    pub open spec fn failed(self) -> bool {
        self.error is Some
    }

    /// The end is not before the start.
    pub open spec fn well_timed(self) -> bool {
        self.start_ns <= self.end_ns
    }

    /// Both timestamps lie at or after the epoch, as every clock reading does.
    pub open spec fn since_epoch(self) -> bool {
        0 <= self.start_ns && 0 <= self.end_ns
    }

    /// The time the execution took, in nanoseconds.
    pub open spec fn latency(self) -> int {
        self.end_ns - self.start_ns
    }

    /// The latency can be held in sixty-four bits.
    pub open spec fn latency_fits(self) -> bool {
        i64::MIN <= self.latency() <= i64::MAX
    }
}

/// Reads the wall clock through chrono: `Utc::now()` turned into nanoseconds
/// since the Unix epoch by `DateTime::timestamp_nanos_opt`. Nothing is
/// claimed of the instant itself. `Utc::now()` is built from a duration
/// measured forward from the epoch, so a reading is never negative; it is
/// absent once the instant no longer fits sixty-four bits.
#[verifier::external_body]
fn wall_clock_ns() -> (reading: Option<i64>)
    ensures
        reading matches Some(ns) ==> ns >= 0,
{
    chrono::Utc::now().timestamp_nanos_opt()
}

/// The current time in nanoseconds since the Unix epoch, held at the largest
/// value once the clock has run past what sixty-four bits can count.
pub(crate) fn now_ns() -> (now: i64)
    ensures
        now >= 0,
{
    reading_ns(wall_clock_ns())
}

/// The instant that a clock reading stands for: the reading itself, or the
/// largest instant that sixty-four bits can count where the clock has run
/// past it and gives no reading.
pub open spec fn reading_instant(reading: Option<i64>) -> i64 {
    match reading {
        Some(ns) => ns,
        None => i64::MAX,
    }
}

/// Turns a clock reading into an instant, holding the time at the largest
/// value once the clock gives no reading any more.
pub fn reading_ns(reading: Option<i64>) -> (now: i64)
    ensures
        now == reading_instant(reading),
{
    match reading {
        Some(ns) => ns,
        None => i64::MAX,
    }
}

impl<D: Default> Output<D> {
    /// Opens the record of iteration `iteration` of worker `client`, with the
    /// current time as both start and end and a default payload.
    pub fn start(client: u32, iteration: u32) -> (out: Self)
        ensures
            out.core == OutputCore::started(client, iteration, out.core.start_ns),
            out.core.start_ns >= 0,
            call_ensures(D::default, (), out.custom),
    {
        let now = now_ns();
        Output::start_at(client, iteration, now)
    }

    /// Opens the record of iteration `iteration` of worker `client` at the
    /// instant `now`.
    pub fn start_at(client: u32, iteration: u32, now: i64) -> (out: Self)
        ensures
            out.core == OutputCore::started(client, iteration, now),
            call_ensures(D::default, (), out.custom),
    {
        Output {
            core: OutputCore { start_ns: now, end_ns: now, error: None, client, iteration },
            custom: D::default(),
        }
    }
}

impl<D> Output<D> {
    /// Sets the end to the current time. The last call wins.
    pub fn stop(&mut self)
        ensures
            final(self).core == old(self).core.stopped_at(final(self).core.end_ns),
            final(self).core.end_ns >= 0,
            final(self).custom == old(self).custom,
    {
        let now = now_ns();
        self.stop_at(now);
    }

    /// Sets the end to `now`.
    pub fn stop_at(&mut self, now: i64)
        ensures
            final(self).core == old(self).core.stopped_at(now),
            final(self).custom == old(self).custom,
    {
        self.core.end_ns = now;
    }

    /// Records `error` and sets the end to the current time.
    pub fn error(&mut self, error: String)
        ensures
            final(self).core == old(self).core.failed_at(error, final(self).core.end_ns),
            final(self).core.end_ns >= 0,
            final(self).custom == old(self).custom,
    {
        let now = now_ns();
        self.error_at(error, now);
    }

    /// Records `error` and sets the end to `now`.
    pub fn error_at(&mut self, error: String, now: i64)
        ensures
            final(self).core == old(self).core.failed_at(error, now),
            final(self).custom == old(self).custom,
    {
        self.core.error = Some(error);
        self.core.end_ns = now;
    }

    /// The safety net for a record that may never have been stopped: if its
    /// end still equals its start, the end becomes the current time.
    pub fn finalize(&mut self)
        ensures
            final(self).core == old(self).core.stopped_at(final(self).core.end_ns),
            old(self).core.end_ns != old(self).core.start_ns ==> final(self).core == old(
                self,
            ).core,
            old(self).core.end_ns == old(self).core.start_ns ==> final(self).core.end_ns >= 0,
            final(self).custom == old(self).custom,
    {
        if self.core.end_ns == self.core.start_ns {
            self.stop();
        }
    }

    /// The safety net run at the instant `now`.
    pub fn finalize_at(&mut self, now: i64)
        ensures
            final(self).core == old(self).core.finalized_at(now),
            final(self).custom == old(self).custom,
    {
        if self.core.end_ns == self.core.start_ns {
            self.stop_at(now);
        }
    }

    /// True iff an error was recorded on this output.
    pub fn is_error(&self) -> (failed: bool)
        ensures
            failed == self.core.failed(),
    {
        self.core.error.is_some()
    }

    /// Access to the custom payload, for the dispatcher to fill in.
    pub fn data_mut(&mut self) -> (data: &mut D)
        ensures
            *data == old(self).custom,
            final(self).custom == *final(data),
            final(self).core == old(self).core,
    {
        &mut self.custom
    }
}

/// A record never ends before it starts, as long as the clock is not read
/// earlier at the end than at the start: a fresh record has equal start and
/// end, and stopping, failing or finalizing it at a reading `now` that is not
/// before its start leaves the end at or after the start.
pub proof fn lemma_end_not_before_start(core: OutputCore, message: String, now: i64)
    requires
        core.start_ns <= now,
    ensures
        OutputCore::started(core.client, core.iteration, now).well_timed(),
        core.stopped_at(now).well_timed(),
        core.failed_at(message, now).well_timed(),
        core.well_timed() ==> core.finalized_at(now).well_timed(),
{
}

/// Stopping is idempotent in everything but the time: after two stops the
/// record is what the second stop alone would have made of it, so its end is
/// the second reading and its error is untouched.
pub proof fn lemma_stop_last_call_wins(core: OutputCore, first: i64, second: i64)
    ensures
        core.stopped_at(first).stopped_at(second) == core.stopped_at(second),
        core.stopped_at(first).stopped_at(second).end_ns == second,
        core.stopped_at(first).stopped_at(second).error == core.error,
{
}

/// Whether a record counts as a failure does not depend on how it was
/// finalized: the safety net and an explicit stop at the same instant agree,
/// and both agree with the record before.
pub proof fn lemma_finalize_classifies_as_stop(core: OutputCore, now: i64)
    ensures
        core.finalized_at(now).failed() == core.stopped_at(now).failed(),
        core.finalized_at(now).failed() == core.failed(),
        core.end_ns == core.start_ns ==> core.finalized_at(now) == core.stopped_at(now),
{
}

/// Records whose timestamps both come from the clock have a latency that
/// fits sixty-four bits, whichever way round the two readings lie.
pub proof fn lemma_clock_latency_fits(core: OutputCore)
    requires
        core.since_epoch(),
    ensures
        core.latency_fits(),
{
}

} // verus!
