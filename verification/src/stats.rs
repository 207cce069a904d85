//! The statistics stage: it keeps the running total, asks the timer whether
//! a report is due and says what to put on the status stream.

use crate::format::{format_time, progress_line, progress_text, time_text};
use crate::timer::{Timer, TimerState, DEFAULT_PERIOD_NANOS};
use crossbeam::channel::Receiver;
use std::time::Instant;
use vstd::prelude::*;

verus! {

/// Nanoseconds in a second.
pub const NANOS_PER_SECOND: u128 = 1_000_000_000;

/// The receiving end of a crossbeam channel. Nothing is known of what a
/// value holds.
#[verifier::external_type_specification]
#[verifier::external_body]
#[verifier::reject_recursive_types(T)]
pub struct ExReceiver<T>(Receiver<T>);

/// Calls crossbeam's `Receiver::recv`, which blocks until a message arrives
/// and gives an error once the channel is empty and all its senders are
/// gone; the error becomes `None`. What arrives is up to the senders, so
/// nothing is claimed of the value.
#[verifier::external_body]
fn next_message(counts: &Receiver<usize>) -> (received: Option<usize>) {
    counts.recv().ok()
}

/// The byte count that a receive stands for: the message where one came,
/// and the end-of-stream sentinel where the senders are gone.
pub open spec fn count_received(received: Option<usize>) -> usize {
    match received {
        Some(count) => count,
        None => 0,
    }
}

/// The numbers of one progress report.
pub struct Report {
    /// Bytes moved since the run began.
    pub total_bytes: usize,
    /// Whole seconds since the run began.
    pub elapsed_secs: u64,
    /// Bytes per second over the latest chunk; `None` where no time passed.
    pub rate: Option<u128>,
}

/// What the statistics stage does for one byte count.
pub struct Tick {
    /// The report to put on the status stream, if one is due.
    pub report: Option<Report>,
    /// Whether the count was the end-of-stream sentinel: the stage stops.
    pub last: bool,
    /// Whether the status line is to be closed with a newline.
    pub newline: bool,
}

impl Tick {
    /// Whether the tick puts anything on the status stream.
    pub open spec fn writes_status(self) -> bool {
        self.report.is_some() || self.newline
    }
}

/// One byte count as the stage meets it: the count, the nanoseconds since
/// the previous one and the whole seconds since the run began.
pub struct Arrival {
    pub count: usize,
    pub delta: nat,
    pub elapsed_secs: u64,
}

/// `count` bytes in `delta` nanoseconds as bytes per second, rounded to the
/// nearest whole number, halves up; `None` where `delta` is zero. The
/// quotient is at most `count` times `NANOS_PER_SECOND` plus one, so it fits.
pub open spec fn rate_per_second(count: usize, delta: nat) -> Option<u128> {
    if delta == 0 {
        None
    } else {
        Some(((count * NANOS_PER_SECOND + delta / 2) / (delta as int)) as u128)
    }
}

/// The running total after `count` more bytes: it never wraps, and stays at
/// the largest value the machine can hold once it gets there.
pub open spec fn add_count(total: nat, count: nat) -> nat {
    if total + count > usize::MAX {
        usize::MAX as nat
    } else {
        total + count
    }
}

/// The running total after each of `counts` was added to `total`, in order.
pub open spec fn total_after(total: nat, counts: Seq<usize>) -> nat
    decreases counts.len(),
{
    if counts.len() == 0 {
        total
    } else {
        total_after(add_count(total, counts.first() as nat), counts.drop_first())
    }
}

/// The sum of `counts`.
pub open spec fn sum_counts(counts: Seq<usize>) -> nat
    decreases counts.len(),
{
    if counts.len() == 0 {
        0
    } else {
        counts.first() as nat + sum_counts(counts.drop_first())
    }
}

/// What the statistics stage holds, apart from the clock reading.
pub struct StatsState {
    pub total: nat,
    pub timer: TimerState,
    pub silent: bool,
}

impl StatsState {
    /// The total fits the machine and the timer is well formed.
    pub open spec fn wf(self) -> bool {
        self.total <= usize::MAX && self.timer.wf()
    }

    /// The state at the start of a run.
    pub open spec fn fresh(silent: bool) -> StatsState {
        StatsState { total: 0, timer: TimerState::fresh(DEFAULT_PERIOD_NANOS as nat), silent }
    }

    /// Whether the stage reports once its timer has been stepped by `delta`.
    pub open spec fn reports(self, delta: nat) -> bool {
        !self.silent && self.timer.step(delta).ready
    }

    /// The state after one byte count. The timer steps by `delta`, the total
    /// grows by `count`, and a report that is made consumes the readiness.
    pub open spec fn observed(self, count: usize, delta: nat) -> StatsState {
        StatsState {
            total: add_count(self.total, count as nat),
            timer: if self.reports(delta) {
                self.timer.step(delta).cleared()
            } else {
                self.timer.step(delta)
            },
            silent: self.silent,
        }
    }

    /// What the stage does for that byte count: a report with the new total
    /// and the rate over this chunk where one is due and the stage is not
    /// silent; the end of the run on the sentinel, with a closing newline
    /// unless silent.
    pub open spec fn tick(self, count: usize, delta: nat, elapsed_secs: u64) -> Tick {
        Tick {
            report: if self.reports(delta) {
                Some(
                    Report {
                        total_bytes: add_count(self.total, count as nat) as usize,
                        elapsed_secs,
                        rate: rate_per_second(count, delta),
                    },
                )
            } else {
                None
            },
            last: count == 0,
            newline: count == 0 && !self.silent,
        }
    }

    /// The state after each of `arrivals`, in order.
    pub open spec fn after(self, arrivals: Seq<Arrival>) -> StatsState
        decreases arrivals.len(),
    {
        if arrivals.len() == 0 {
            self
        } else {
            self.observed(arrivals.first().count, arrivals.first().delta).after(
                arrivals.drop_first(),
            )
        }
    }
}

/// The counts of `arrivals`, in order.
pub open spec fn counts_of(arrivals: Seq<Arrival>) -> Seq<usize> {
    Seq::new(arrivals.len(), |i: int| arrivals[i].count)
}

/// `count` bytes in `delta` nanoseconds as bytes per second.
pub fn chunk_rate(count: usize, delta: u128) -> (rate: Option<u128>)
    ensures
        rate == rate_per_second(count, delta as nat),
{
    if delta == 0 {
        None
    } else {
        let scaled: u128 = (count as u128) * NANOS_PER_SECOND;
        let half: u128 = delta / 2;
        Some((scaled + half) / delta)
    }
}

impl Report {
    /// The status line of this report: the total, the elapsed time as
    /// `H:MM:SS` and the rate, each with or without its colour.
    pub fn line(&self) -> (line: String)
        ensures
            exists|coloured: (bool, bool, bool)|
                line@ == #[trigger] progress_text(
                    self.total_bytes as nat,
                    time_text(self.elapsed_secs as nat),
                    self.rate,
                    coloured,
                ),
    {
        let elapsed = format_time(self.elapsed_secs);
        progress_line(self.total_bytes, elapsed.as_str(), self.rate)
    }
}

/// The statistics stage of one run.
pub struct Stats {
    total_bytes: usize,
    start: Instant,
    timer: Timer,
    silent: bool,
}

impl View for Stats {
    type V = StatsState;

    closed spec fn view(&self) -> StatsState {
        StatsState { total: self.total_bytes as nat, timer: self.timer@, silent: self.silent }
    }
}

impl Stats {
    /// The stage at the start of a run: nothing counted, the timer ready.
    pub fn new(silent: bool) -> (stats: Stats)
        ensures
            stats@.wf(),
            stats@ == StatsState::fresh(silent),
    {
        let start = Instant::now();
        Stats { total_bytes: 0, start, timer: Timer::new(), silent }
    }

    /// Bytes counted so far.
    pub fn total_bytes(&self) -> (total: usize)
        ensures
            total == self@.total,
    {
        self.total_bytes
    }

    /// Whether the stage keeps the status stream empty.
    pub fn is_silent(&self) -> (silent: bool)
        ensures
            silent == self@.silent,
    {
        self.silent
    }

    /// Takes one byte count from the reader, reading the clock for the time
    /// since the previous count and since the start of the run. Whatever the
    /// clock said, state and answer are those of `observe` for the delta that
    /// the timer now holds and some number of elapsed seconds.
    pub fn record(&mut self, count: usize) -> (tick: Tick)
        ensures
            final(self)@.wf(),
            final(self)@ == old(self)@.observed(count, final(self)@.timer.delta),
            exists|elapsed_secs: u64|
                tick == #[trigger] old(self)@.tick(count, final(self)@.timer.delta, elapsed_secs),
    {
        self.timer.update();
        let elapsed_secs = Instant::now().saturating_duration_since(self.start).as_secs();
        let tick = self.settle(count, elapsed_secs);
        assert(tick == old(self)@.tick(count, final(self)@.timer.delta, elapsed_secs));
        tick
    }

    /// Waits for the next byte count on the channel from the reader and takes
    /// it as `record` does. A channel whose senders are gone ends the stream
    /// as the sentinel does. Whatever arrived, state and answer are those of
    /// `observe` for some count, the delta that the timer now holds and some
    /// number of elapsed seconds.
    pub fn receive(&mut self, counts: &Receiver<usize>) -> (tick: Tick)
        ensures
            final(self)@.wf(),
            exists|received: Option<usize>, elapsed_secs: u64|
                {
                    &&& final(self)@ == old(self)@.observed(
                        count_received(received),
                        final(self)@.timer.delta,
                    )
                    &&& tick == #[trigger] old(self)@.tick(
                        count_received(received),
                        final(self)@.timer.delta,
                        elapsed_secs,
                    )
                },
    {
        let received = next_message(counts);
        let count = Stats::message_count(received);
        let tick = self.record(count);
        proof {
            let elapsed_secs = choose|elapsed_secs: u64|
                tick == #[trigger] old(self)@.tick(count, final(self)@.timer.delta, elapsed_secs);
            assert(tick == old(self)@.tick(
                count_received(received),
                final(self)@.timer.delta,
                elapsed_secs,
            ));
        }
        tick
    }

    /// The byte count that a receive stands for.
    pub fn message_count(received: Option<usize>) -> (count: usize)
        ensures
            count == count_received(received),
    {
        match received {
            Some(count) => count,
            None => 0,
        }
    }

    /// Takes one byte count that came `delta` nanoseconds after the previous
    /// one and `elapsed_secs` whole seconds into the run, without reading the
    /// clock.
    pub fn observe(&mut self, count: usize, delta: u128, elapsed_secs: u64) -> (tick: Tick)
        ensures
            final(self)@.wf(),
            final(self)@ == old(self)@.observed(count, delta as nat),
            tick == old(self)@.tick(count, delta as nat, elapsed_secs),
    {
        self.timer.advance(delta);
        self.settle(count, elapsed_secs)
    }

    /// The part of a tick that follows the timer's step.
    fn settle(&mut self, count: usize, elapsed_secs: u64) -> (tick: Tick)
        ensures
            final(self)@.wf(),
            final(self)@.total == add_count(old(self)@.total, count as nat),
            final(self)@.silent == old(self)@.silent,
            final(self)@.timer == if !old(self)@.silent && old(self)@.timer.ready {
                old(self)@.timer.cleared()
            } else {
                old(self)@.timer
            },
            tick.last == (count == 0),
            tick.newline == (count == 0 && !old(self)@.silent),
            tick.report == if !old(self)@.silent && old(self)@.timer.ready {
                Some(
                    Report {
                        total_bytes: final(self)@.total as usize,
                        elapsed_secs,
                        rate: rate_per_second(count, old(self)@.timer.delta),
                    },
                )
            } else {
                None
            },
    {
        let rate = chunk_rate(count, self.timer.get_delta());
        self.total_bytes = self.total_bytes.saturating_add(count);
        let report = if !self.silent && self.timer.get_ready() {
            self.timer.unready();
            Some(Report { total_bytes: self.total_bytes, elapsed_secs, rate })
        } else {
            None
        };
        Tick { report, last: count == 0, newline: count == 0 && !self.silent }
    }
}

/// While the sum stays within what the machine can hold, the running total
/// after a run of counts is the start plus their sum.
pub proof fn lemma_total_is_sum(total: nat, counts: Seq<usize>)
    requires
        total + sum_counts(counts) <= usize::MAX,
    ensures
        total_after(total, counts) == total + sum_counts(counts),
    decreases counts.len(),
{
    if counts.len() > 0 {
        lemma_total_is_sum(total + counts.first() as nat, counts.drop_first());
    }
}

/// The running total never shrinks.
pub proof fn lemma_total_monotone(total: nat, counts: Seq<usize>)
    requires
        total <= usize::MAX,
    ensures
        total <= total_after(total, counts) <= usize::MAX,
    decreases counts.len(),
{
    if counts.len() > 0 {
        lemma_total_monotone(add_count(total, counts.first() as nat), counts.drop_first());
    }
}

/// The total that the stage holds after a run of arrivals is the running
/// total of their counts: the times play no part in it.
pub proof fn lemma_stage_total(s: StatsState, arrivals: Seq<Arrival>)
    ensures
        s.after(arrivals).total == total_after(s.total, counts_of(arrivals)),
        s.after(arrivals).silent == s.silent,
    decreases arrivals.len(),
{
    if arrivals.len() > 0 {
        lemma_stage_total(
            s.observed(arrivals.first().count, arrivals.first().delta),
            arrivals.drop_first(),
        );
        assert(counts_of(arrivals).drop_first() =~= counts_of(arrivals.drop_first()));
    }
}

/// A silent stage never puts anything on the status stream: after any run
/// of arrivals, however long, the next one brings no report and no newline.
pub proof fn lemma_silent_writes_nothing(s: StatsState, arrivals: Seq<Arrival>, next: Arrival)
    requires
        s.silent,
    ensures
        s.after(arrivals).silent,
        !s.after(arrivals).tick(next.count, next.delta, next.elapsed_secs).writes_status(),
{
    lemma_stage_total(s, arrivals);
}

/// A stage that is not silent reports when an arrival takes the timer past
/// its countdown, and then not again on an arrival that comes within one
/// period of it.
pub proof fn lemma_report_then_quiet(s: StatsState, first: Arrival, next: Arrival)
    requires
        !s.silent,
        s.timer.countdown < first.delta,
        next.delta <= s.timer.period,
    ensures
        s.tick(first.count, first.delta, first.elapsed_secs).report.is_some(),
        s.observed(first.count, first.delta).tick(
            next.count,
            next.delta,
            next.elapsed_secs,
        ).report.is_none(),
{
}

} // verus!
