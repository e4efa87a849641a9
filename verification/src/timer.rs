//! The repeating timer that paces the greetings.

use vstd::prelude::*;
use vstd::arithmetic::div_mod::{
    lemma_basic_div, lemma_div_non_zero, lemma_fundamental_div_mod, lemma_mod_pos_bound,
};
use bevy::time::Timer;
use std::time::Duration;
use crate::span::{Span, NANOS_PER_SEC};

verus! {

/// How often a repeating timer of period `period` completes while `total`
/// nanoseconds pass, as the engine counts it: in 32 bits.
pub open spec fn laps(total: nat, period: nat) -> nat {
    (total / period) % 0x1_0000_0000
}

/// `bevy::time::Timer::tick` on a running, repeating timer of period
/// `period` that has `elapsed` on it, advanced by `delta`. Handed back are
/// the time on the timer after the tick and the number of times it
/// completed during the tick. The engine adds `delta` to the elapsed time,
/// counts the completed periods in 32 bits and takes that many periods off
/// again. It divides by the period and adds the two lengths as `Duration`s,
/// so the period must not be zero and the sum must fit.
#[verifier::external_body]
fn tick_repeating(period: Span, elapsed: Span, delta: Span) -> (after: (Span, u32))
    requires
        period.wf(),
        elapsed.wf(),
        delta.wf(),
        period.total_nanos() > 0,
        elapsed.total_nanos() + delta.total_nanos() <= Span::max_total(),
    ensures
        after.0.wf(),
        after.1 == laps(elapsed.total_nanos() + delta.total_nanos(), period.total_nanos()),
        after.0.total_nanos() == elapsed.total_nanos() + delta.total_nanos()
            - period.total_nanos() * after.1,
{
    let mut timer = Timer::new(Duration::new(period.secs, period.nanos), true);
    timer.set_elapsed(Duration::new(elapsed.secs, elapsed.nanos));
    timer.tick(Duration::new(delta.secs, delta.nanos));
    let rest = timer.elapsed();
    (Span { secs: rest.as_secs(), nanos: rest.subsec_nanos() }, timer.times_finished_this_tick())
}

/// A repeating timer: it runs for `period`, reports that it has finished,
/// and starts over with what was left of the last tick.
#[derive(Clone, Copy, Debug, PartialEq, Eq, Structural)]
pub struct GreetTimer {
    /// The time from one completion to the next.
    pub period: Span,
    /// The time on the timer since it last started over.
    pub elapsed: Span,
    /// How often the timer completed during the last tick.
    pub times_finished: u32,
}

impl GreetTimer {
    /// Both lengths are well formed and the period is not zero.
    pub open spec fn wf(self) -> bool {
        &&& self.period.wf()
        &&& self.elapsed.wf()
        &&& self.period.total_nanos() > 0
    }

    /// The time on the timer once `delta` has been added, before any
    /// completed period is taken off, in nanoseconds.
    pub open spec fn run_up(self, delta: Span) -> nat {
        self.elapsed.total_nanos() + delta.total_nanos()
    }

    /// The timer after a tick of `delta`.
    pub open spec fn after_tick(self, delta: Span) -> GreetTimer {
        let count = laps(self.run_up(delta), self.period.total_nanos());
        GreetTimer {
            period: self.period,
            elapsed: Span::from_total(
                (self.run_up(delta) - self.period.total_nanos() * count) as nat,
            ),
            times_finished: count as u32,
        }
    }

    /// Whether the last tick completed a period.
    pub open spec fn just_finished_spec(&self) -> bool {
        self.times_finished > 0
    }

    /// A timer of the given period with no time on it.
    pub fn new(period: Span) -> (timer: GreetTimer)
        requires
            period.wf(),
            period.total_nanos() > 0,
        ensures
            timer == (GreetTimer { period, elapsed: Span { secs: 0, nanos: 0 }, times_finished: 0 }),
            timer.wf(),
            !timer.just_finished_spec(),
    {
        GreetTimer { period, elapsed: Span::from_secs(0), times_finished: 0 }
    }

    /// The timer that paces the greetings: it completes every two seconds.
    pub fn every_two_seconds() -> (timer: GreetTimer)
        ensures
            timer == (GreetTimer {
                period: Span { secs: 2, nanos: 0 },
                elapsed: Span { secs: 0, nanos: 0 },
                times_finished: 0,
            }),
            timer.wf(),
    {
        GreetTimer::new(Span::from_secs(2))
    }

    /// Whether the timer is well formed.
    pub fn is_valid(&self) -> (valid: bool)
        ensures
            valid == self.wf(),
    {
        self.period.is_valid() && self.elapsed.is_valid() && (self.period.secs > 0
            || self.period.nanos > 0)
    }

    /// Whether the timer can be advanced by `delta`: both are well formed
    /// and the time run up still fits in a span.
    pub fn can_tick(&self, delta: Span) -> (fits: bool)
        ensures
            fits == (self.wf() && delta.wf() && self.run_up(delta) <= Span::max_total()),
    {
        if !self.is_valid() || !delta.is_valid() {
            return false;
        }
        let secs: u128 = self.elapsed.secs as u128 + delta.secs as u128;
        let nanos: u128 = self.elapsed.nanos as u128 + delta.nanos as u128;
        let longest: u128 = u64::MAX as u128 * NANOS_PER_SEC as u128 + (NANOS_PER_SEC as u128 - 1);
        secs * NANOS_PER_SEC as u128 + nanos <= longest
    }

    /// Advances the timer by `delta`.
    pub fn tick(&mut self, delta: Span)
        requires
            old(self).wf(),
            delta.wf(),
            old(self).run_up(delta) <= Span::max_total(),
        ensures
            *final(self) == old(self).after_tick(delta),
            final(self).wf(),
            final(self).times_finished == laps(
                old(self).run_up(delta),
                old(self).period.total_nanos(),
            ),
            final(self).elapsed.total_nanos() == old(self).run_up(delta)
                - old(self).period.total_nanos() * final(self).times_finished,
            final(self).elapsed.total_nanos() <= old(self).run_up(delta),
    {
        let after = tick_repeating(self.period, self.elapsed, delta);
        proof {
            after.0.lemma_total_is_exact();
            assert(self.period.total_nanos() * after.1 >= 0) by (nonlinear_arith);
        }
        self.elapsed = after.0;
        self.times_finished = after.1;
    }

    /// While fewer than 2^32 periods pass within one tick, the tick counts
    /// the periods that the time run up holds, completes one exactly when
    /// that time reaches the period, and leaves the remainder on the timer,
    /// which is less than a period.
    pub proof fn lemma_tick_wraps(self, delta: Span)
        requires
            self.wf(),
            delta.wf(),
            self.run_up(delta) / self.period.total_nanos() < 0x1_0000_0000,
        ensures
            self.after_tick(delta).wf(),
            self.after_tick(delta).times_finished == self.run_up(delta)
                / self.period.total_nanos(),
            self.after_tick(delta).just_finished_spec() <==> self.run_up(delta)
                >= self.period.total_nanos(),
            self.after_tick(delta).elapsed.total_nanos() == self.run_up(delta)
                % self.period.total_nanos(),
            self.after_tick(delta).elapsed.total_nanos() < self.period.total_nanos(),
    {
        let run = self.run_up(delta) as int;
        let period = self.period.total_nanos() as int;
        lemma_fundamental_div_mod(run, period);
        lemma_mod_pos_bound(run, period);
        if run >= period {
            lemma_div_non_zero(run, period);
        } else {
            lemma_basic_div(run, period);
        }
        self.period.lemma_total_is_exact();
        Span::lemma_from_total((run % period) as nat);
    }

    /// Whether the last tick completed a period.
    #[verifier::when_used_as_spec(just_finished_spec)]
    pub fn just_finished(&self) -> (done: bool)
        ensures
            done == self.just_finished_spec(),
    {
        self.times_finished > 0
    }

    /// The time on the timer since it last started over.
    pub fn elapsed(&self) -> (time: Span)
        ensures
            time == self.elapsed,
    {
        self.elapsed
    }
}

} // verus!
