//! The stats reporter: the main control loop's verified logic.
//!
//! The reporter repeatedly waits on the reader's completion channel with the
//! configured interval as timeout. On a timeout it samples the shared
//! counter, reports the delta since the previous sample as a rate (unless
//! quiet), and waits again; as soon as the reader has finished it prints the
//! final summary and stops. The wait itself and the clock live outside the
//! library; the decisions, the delta arithmetic, the rate computation and the
//! exact report text are verified here.

use vstd::prelude::*;
use vstd::string::StringExecFns;
use crate::human::{get_human_readable_bytes, spec_human_readable};

verus! {

/// What the control loop does after one timed wait.
#[derive(Clone, Copy, PartialEq, Eq, Structural, Debug)]
pub enum ReporterAction {
    /// The interval elapsed: sample the counter and print a periodic rate.
    Report,
    /// The interval elapsed in quiet mode: wait again without sampling.
    KeepWaiting,
    /// The reader has finished: print the final summary and stop.
    Finish,
}

/// The loop decision as a function of the reader's liveness and the quiet
/// flag. Liveness is what one timed wait on the completion channel showed:
/// true exactly when the wait timed out (see `WaitOutcome` and
/// `reader_alive_after`).
pub open spec fn spec_reporter_step(reader_alive: bool, quiet: bool) -> ReporterAction {
    if reader_alive {
        if quiet {
            ReporterAction::KeepWaiting
        } else {
            ReporterAction::Report
        }
    } else {
        ReporterAction::Finish
    }
}

/// Decide the control loop's next action: while the reader is alive the
/// interval has elapsed, so report (or just keep waiting when quiet); once
/// the reader has finished, print the final summary and stop.
pub fn reporter_step(reader_alive: bool, quiet: bool) -> (a: ReporterAction)
    ensures
        a == spec_reporter_step(reader_alive, quiet),
{
    if reader_alive {
        if quiet {
            ReporterAction::KeepWaiting
        } else {
            ReporterAction::Report
        }
    } else {
        ReporterAction::Finish
    }
}


/// The periodic sampler: remembers the previous counter sample so each report
/// covers exactly the bytes transferred since the one before.
pub struct StatsReporter {
    prev_sample: usize,
    quiet: bool,
}

impl StatsReporter {
    /// The previous counter sample (0 before the first report).
    pub closed spec fn prev_sample(&self) -> int {
        self.prev_sample as int
    }

    /// Whether periodic reports are suppressed.
    pub closed spec fn quiet(&self) -> bool {
        self.quiet
    }

    /// A fresh reporter starts with a previous sample of zero.
    pub fn new(quiet: bool) -> (r: StatsReporter)
        ensures
            r.prev_sample() == 0,
            r.quiet() == quiet,
    {
        StatsReporter { prev_sample: 0, quiet }
    }

    /// The previous counter sample, for callers that must establish that a
    /// fresh sample is not below it before calling `sample` (the counter is
    /// monotone, so a fresh sample of it never is).
    pub fn previous_sample(&self) -> (prev: usize)
        ensures
            prev == self.prev_sample(),
    {
        self.prev_sample
    }

    /// Take one periodic sample: the delta is exactly the bytes transferred
    /// since the previous sample, and the sample becomes the new baseline.
    /// The counter is monotone, so `current` is never below the baseline.
    pub fn sample(&mut self, current: usize) -> (delta: usize)
        requires
            old(self).prev_sample() <= current,
        ensures
            delta == current - old(self).prev_sample(),
            final(self).prev_sample() == current,
            final(self).quiet() == old(self).quiet(),
    {
        let delta = current - self.prev_sample;
        self.prev_sample = current;
        delta
    }
}

/// Sum of the deltas a sequence of counter samples produces, starting from
/// the baseline `prev`: each sample contributes itself minus the sample
/// before it.
pub open spec fn sum_of_deltas(prev: int, samples: Seq<usize>) -> int
    decreases samples.len(),
{
    if samples.len() == 0 {
        0
    } else {
        (samples[0] - prev) + sum_of_deltas(samples[0] as int, samples.drop_first())
    }
}

/// The last periodic sample, or 0 when none was taken.
pub open spec fn last_sample(samples: Seq<usize>) -> int {
    if samples.len() == 0 {
        0
    } else {
        samples.last() as int
    }
}

/// The deltas telescope: their sum is the last sample minus the baseline.
proof fn lemma_deltas_telescope(prev: int, samples: Seq<usize>)
    requires
        samples.len() > 0,
    ensures
        sum_of_deltas(prev, samples) == samples.last() - prev,
    decreases samples.len(),
{
    if samples.len() == 1 {
        assert(samples.drop_first().len() == 0);
        assert(sum_of_deltas(samples[0] as int, samples.drop_first()) == 0);
        assert(samples.last() == samples[0]);
    } else {
        lemma_deltas_telescope(samples[0] as int, samples.drop_first());
        assert(samples.drop_first().last() == samples.last());
    }
}

/// The sum of all periodic deltas reported, plus the final delta (the total
/// minus the last periodic sample), equals the total bytes read — for every
/// sequence of periodic samples, including the empty one.
pub proof fn lemma_deltas_cover_total(samples: Seq<usize>, total: int)
    ensures
        sum_of_deltas(0, samples) + (total - last_sample(samples)) == total,
{
    if samples.len() > 0 {
        lemma_deltas_telescope(0, samples);
    }
}

/// The transfer rate in whole bytes per second: bytes scaled by nanoseconds,
/// truncated, saturating at the largest representable count; a zero elapsed
/// time (an immediate finish or interrupt) reports a rate of zero instead of
/// dividing by it.
pub open spec fn spec_rate(bytes: nat, elapsed_nanos: nat) -> nat {
    if elapsed_nanos == 0 {
        0
    } else {
        let q = bytes * 1000000000 / elapsed_nanos;
        if q > usize::MAX {
            usize::MAX as nat
        } else {
            q
        }
    }
}

/// Compute the transfer rate for `bytes` bytes over `elapsed_nanos`
/// nanoseconds of wall-clock time.
pub fn rate_bytes_per_second(bytes: usize, elapsed_nanos: u64) -> (rate: usize)
    ensures
        rate == spec_rate(bytes as nat, elapsed_nanos as nat),
{
    if elapsed_nanos == 0 {
        0
    } else {
        let q: u128 = (bytes as u128) * 1000000000 / (elapsed_nanos as u128);
        if q > (usize::MAX as u128) {
            usize::MAX
        } else {
            q as usize
        }
    }
}

/// The wall-clock time one report actually covers, in nanoseconds: the
/// nominal interval plus any extra time spent reacquiring the counter,
/// saturating at the largest representable duration.
pub open spec fn spec_waiting_nanos(interval_ms: nat, extra_nanos: nat) -> nat {
    let total = interval_ms * 1000000 + extra_nanos;
    if total > u64::MAX {
        u64::MAX as nat
    } else {
        total
    }
}

/// Compute the time one report covers from the configured interval and the
/// extra time the sampling itself took, so a delayed sample does not distort
/// the rate.
pub fn waiting_nanos(interval_ms: u64, extra_nanos: u64) -> (nanos: u64)
    ensures
        nanos == spec_waiting_nanos(interval_ms as nat, extra_nanos as nat),
{
    let total: u128 = (interval_ms as u128) * 1000000 + (extra_nanos as u128);
    if total > (u64::MAX as u128) {
        u64::MAX
    } else {
        total as u64
    }
}

/// The one periodic report line (without its newline): the rate formatted as
/// human-readable bytes, followed by `/s`.
pub open spec fn spec_periodic_line(rate: nat) -> Seq<char> {
    spec_human_readable(rate) + "/s"@
}

/// Render one periodic report line for an already computed rate.
pub fn periodic_line(rate: usize) -> (s: String)
    ensures
        s@ == spec_periodic_line(rate as nat),
{
    let mut s = get_human_readable_bytes(rate);
    s.append("/s");
    s
}

/// The final summary block, printed exactly once per run, on normal or
/// interrupted termination: the total bytes read and the average rate over
/// the whole run, both human-readable.
pub open spec fn spec_final_summary(total: nat, elapsed_nanos: nat) -> Seq<char> {
    "\nFinished!\nTotal data: "@ + spec_human_readable(total) + "\nAverage speed: "@
        + spec_human_readable(spec_rate(total, elapsed_nanos)) + "/s\n"@
}

/// Render the final summary block for `total` bytes read over
/// `elapsed_nanos` nanoseconds.
pub fn final_summary(total: usize, elapsed_nanos: u64) -> (s: String)
    ensures
        s@ == spec_final_summary(total as nat, elapsed_nanos as nat),
{
    proof {
        reveal_strlit("\nFinished!\nTotal data: ");
        reveal_strlit("\nAverage speed: ");
        reveal_strlit("/s\n");
    }
    let mut s = String::new();
    s.append("\nFinished!\nTotal data: ");
    let total_text = get_human_readable_bytes(total);
    s.append(total_text.as_str());
    s.append("\nAverage speed: ");
    let rate = rate_bytes_per_second(total, elapsed_nanos);
    let rate_text = get_human_readable_bytes(rate);
    s.append(rate_text.as_str());
    s.append("/s\n");
    proof {
        assert(s@ =~= spec_final_summary(total as nat, elapsed_nanos as nat));
    }
    s
}

} // verus!
