//! The timer that throttles progress reports.

use std::time::Duration;
use std::time::Instant;
use vstd::prelude::*;

verus! {

/// Nanoseconds in the default reporting period of one second.
pub const DEFAULT_PERIOD_NANOS: u128 = 1_000_000_000;

/// `std::time::Instant`, a point on the monotonic clock. Nothing is known of
/// what a value holds.
#[verifier::external_type_specification]
#[verifier::external_body]
pub struct ExInstant(Instant);

/// `Instant::now` reads the monotonic clock. Nothing is claimed of the value.
pub assume_specification[ Instant::now ]() -> (now: Instant);

/// `Instant::saturating_duration_since` gives the time from `earlier` to
/// `this`, or zero where `earlier` is the later one. Nothing is claimed of
/// the value.
pub assume_specification[ Instant::saturating_duration_since ](
    this: &Instant,
    earlier: Instant,
) -> (elapsed: Duration);

/// `Duration::as_nanos` gives the whole duration in nanoseconds. Nothing is
/// claimed of the value.
pub assume_specification[ Duration::as_nanos ](this: &Duration) -> (nanos: u128);

/// `Duration::as_secs` gives the whole seconds of the duration. Nothing is
/// claimed of the value.
pub assume_specification[ Duration::as_secs ](this: &Duration) -> (secs: u64);

/// What a timer holds, apart from the clock reading: all times in nanoseconds.
pub struct TimerState {
    /// Time between the two latest updates.
    pub delta: nat,
    /// The fixed reporting interval.
    pub period: nat,
    /// Time that remains until the next report is allowed.
    pub countdown: nat,
    /// Whether a report may be emitted now.
    pub ready: bool,
}

impl TimerState {
    /// The countdown never exceeds the period.
    pub open spec fn wf(self) -> bool {
        self.countdown <= self.period
    }

    /// The state of a fresh timer with the given period: ready, with nothing
    /// left to count down.
    pub open spec fn fresh(period: nat) -> TimerState {
        TimerState { delta: 0, period, countdown: 0, ready: true }
    }

    /// The state after an update that found `delta` elapsed. Where `delta`
    /// exceeds the countdown the timer becomes ready and the countdown starts
    /// again at a full period; otherwise the countdown shrinks by `delta` and
    /// readiness is left as it was.
    pub open spec fn step(self, delta: nat) -> TimerState {
        if self.countdown < delta {
            TimerState { delta, period: self.period, countdown: self.period, ready: true }
        } else {
            TimerState {
                delta,
                period: self.period,
                countdown: (self.countdown - delta) as nat,
                ready: self.ready,
            }
        }
    }

    /// The state after the reporter consumed the readiness.
    pub open spec fn cleared(self) -> TimerState {
        TimerState { ready: false, ..self }
    }

    /// The state after one update for each of `deltas`, in order.
    pub open spec fn after(self, deltas: Seq<nat>) -> TimerState
        decreases deltas.len(),
    {
        if deltas.len() == 0 {
            self
        } else {
            self.after(deltas.drop_last()).step(deltas.last())
        }
    }
}

/// The sum of `deltas`.
pub open spec fn elapsed_total(deltas: Seq<nat>) -> nat
    decreases deltas.len(),
{
    if deltas.len() == 0 {
        0
    } else {
        elapsed_total(deltas.drop_last()) + deltas.last()
    }
}

/// Tracks the time between updates and whether a reporting period has
/// elapsed since the last report.
pub struct Timer {
    last_instant: Instant,
    delta: u128,
    period: u128,
    countdown: u128,
    ready: bool,
}

impl View for Timer {
    type V = TimerState;

    closed spec fn view(&self) -> TimerState {
        TimerState {
            delta: self.delta as nat,
            period: self.period as nat,
            countdown: self.countdown as nat,
            ready: self.ready,
        }
    }
}

impl Timer {
    #[verifier::type_invariant]
    spec fn countdown_within_period(&self) -> bool {
        self.countdown <= self.period
    }

    /// A timer with a period of one second that is ready at once.
    pub fn new() -> (timer: Timer)
        ensures
            timer@.wf(),
            timer@ == TimerState::fresh(DEFAULT_PERIOD_NANOS as nat),
    {
        let now = Instant::now();
        Timer {
            last_instant: now,
            delta: 0,
            period: DEFAULT_PERIOD_NANOS,
            countdown: 0,
            ready: true,
        }
    }

    /// Reads the clock and advances by the time since the previous update.
    /// Whatever the clock said, the new state is the old one stepped by the
    /// delta that the timer now holds.
    pub fn update(&mut self)
        ensures
            final(self)@.wf(),
            final(self)@ == old(self)@.step(final(self)@.delta),
    {
        proof {
            use_type_invariant(&*self);
        }
        let now = Instant::now();
        let delta = now.saturating_duration_since(self.last_instant).as_nanos();
        self.last_instant = now;
        self.advance(delta);
    }

    /// Advances by `delta` nanoseconds, without reading the clock.
    pub fn advance(&mut self, delta: u128)
        ensures
            final(self)@.wf(),
            final(self)@ == old(self)@.step(delta as nat),
    {
        proof {
            use_type_invariant(&*self);
        }
        self.delta = delta;
        if self.countdown < delta {
            self.ready = true;
            self.countdown = self.period;
        } else {
            self.countdown = self.countdown - delta;
        }
    }

    /// Nanoseconds between the two latest updates.
    pub fn get_delta(&self) -> (delta: u128)
        ensures
            delta == self@.delta,
            self@.wf(),
    {
        proof {
            use_type_invariant(self);
        }
        self.delta
    }

    /// Whether a report may be emitted now.
    pub fn get_ready(&self) -> (ready: bool)
        ensures
            ready == self@.ready,
            self@.wf(),
    {
        proof {
            use_type_invariant(self);
        }
        self.ready
    }

    /// Consumes the readiness; the countdown is left as it is.
    pub fn unready(&mut self)
        ensures
            final(self)@.wf(),
            final(self)@ == old(self)@.cleared(),
    {
        proof {
            use_type_invariant(&*self);
        }
        self.ready = false;
    }
}

/// Updates whose deltas sum to no more than the countdown leave readiness
/// as it was and shrink the countdown by exactly that sum.
pub proof fn lemma_quiet_within_countdown(s: TimerState, deltas: Seq<nat>)
    requires
        elapsed_total(deltas) <= s.countdown,
    ensures
        s.after(deltas).ready == s.ready,
        s.after(deltas).countdown == s.countdown - elapsed_total(deltas),
        s.after(deltas).period == s.period,
    decreases deltas.len(),
{
    if deltas.len() > 0 {
        lemma_quiet_within_countdown(s, deltas.drop_last());
    }
}

/// Once the deltas sum to more than the countdown, the timer is ready, and
/// stays so until the readiness is consumed.
pub proof fn lemma_ready_past_countdown(s: TimerState, deltas: Seq<nat>)
    requires
        elapsed_total(deltas) > s.countdown,
    ensures
        s.after(deltas).ready,
    decreases deltas.len(),
{
    if deltas.len() > 0 {
        let earlier = deltas.drop_last();
        if elapsed_total(earlier) > s.countdown {
            lemma_ready_past_countdown(s, earlier);
        } else {
            lemma_quiet_within_countdown(s, earlier);
        }
    }
}

/// The update that first takes the sum of the deltas past the countdown is
/// the one that makes the timer ready, and it starts a full period.
pub proof fn lemma_ready_at_crossing(s: TimerState, deltas: Seq<nat>)
    requires
        deltas.len() > 0,
        elapsed_total(deltas.drop_last()) <= s.countdown < elapsed_total(deltas),
    ensures
        s.after(deltas.drop_last()).ready == s.ready,
        s.after(deltas).ready,
        s.after(deltas).countdown == s.period,
{
    lemma_quiet_within_countdown(s, deltas.drop_last());
}

/// After a report was made and its readiness consumed, no run of updates
/// whose deltas sum to at most one period makes the timer ready again.
pub proof fn lemma_one_report_per_period(s: TimerState, crossing: nat, deltas: Seq<nat>)
    requires
        s.countdown < crossing,
        elapsed_total(deltas) <= s.period,
    ensures
        s.step(crossing).ready,
        !s.step(crossing).cleared().after(deltas).ready,
{
    lemma_quiet_within_countdown(s.step(crossing).cleared(), deltas);
}

/// Every update keeps the countdown within the period, and so does
/// consuming the readiness.
pub proof fn lemma_step_keeps_wf(s: TimerState, delta: nat)
    requires
        s.wf(),
    ensures
        s.step(delta).wf(),
        s.cleared().wf(),
{
}

/// An update makes the timer ready only by taking it past its countdown,
/// and never takes readiness away: only consuming it does.
pub proof fn lemma_ready_only_past_countdown(s: TimerState, delta: nat)
    ensures
        s.step(delta).ready <==> (s.ready || s.countdown < delta),
        !s.cleared().ready,
        s.cleared().countdown == s.countdown,
{
}

} // verus!
