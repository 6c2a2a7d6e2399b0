//! Time-based interpolation between values.
//!
//! An animation is created with a duration and a list of transitions and is
//! then asked, frame after frame, for the current value of each transition.
//! Time is counted in whole milliseconds.

use vstd::prelude::*;
use std::time::{Duration, Instant};

verus! {

/// `std::time::Instant`, a reading of the monotonic clock, carried as an
/// opaque value.
#[verifier::external_type_specification]
#[verifier::external_body]
pub struct ExInstant(Instant);

/// Reads the monotonic clock through `std::time::Instant::now`. Nothing is
/// claimed of the reading.
#[verifier::external_body]
pub(crate) fn clock_now() -> Instant {
    Instant::now()
}

/// The time since `start`, measured by `std::time::Instant::elapsed`. Nothing
/// is claimed of the measurement.
#[verifier::external_body]
pub(crate) fn clock_elapsed(start: &Instant) -> Duration {
    start.elapsed()
}

/// The whole milliseconds in a span of time, as
/// `std::time::Duration::as_millis` counts them.
pub uninterp spec fn millis_of(span: Duration) -> u128;

/// The whole milliseconds in a span of time, through
/// `std::time::Duration::as_millis`: the count depends on the span alone.
#[verifier::external_body]
pub(crate) fn whole_millis(span: &Duration) -> (millis: u128)
    ensures
        millis == millis_of(*span),
{
    span.as_millis()
}

/// A count of milliseconds as a `u64`, stopping at `u64::MAX`.
pub open spec fn capped(millis: u128) -> u64 {
    if millis > u64::MAX {
        u64::MAX
    } else {
        millis as u64
    }
}

pub fn cap_millis(millis: u128) -> (r: u64)
    ensures
        r == capped(millis),
{
    if millis > 0xffff_ffff_ffff_ffff {
        0xffff_ffff_ffff_ffff
    } else {
        millis as u64
    }
}

/// A way to move from one value to another over the duration of an animation.
#[derive(Copy, Clone, Debug, PartialEq, Eq, Structural)]
pub enum Transition {
    /// Moves from the first value to the second at constant speed.
    Linear(i32, i32),
}

impl Transition {
    /// The value once `elapsed` of `duration` has passed. Progress is
    /// `elapsed / duration`, held at 1 from `elapsed == duration` on; the
    /// distance covered is rounded towards the start value.
    pub open spec fn value_at(self, elapsed: u64, duration: u64) -> i32 {
        match self {
            Transition::Linear(from, to) => {
                if elapsed >= duration {
                    to
                } else if to >= from {
                    (from + ((to - from) * elapsed) / (duration as int)) as i32
                } else {
                    (from - ((from - to) * elapsed) / (duration as int)) as i32
                }
            },
        }
    }

    /// The value at which the transition ends.
    pub open spec fn end(self) -> i32 {
        match self {
            Transition::Linear(_, to) => to,
        }
    }

    /// The value at which the transition starts.
    pub open spec fn start(self) -> i32 {
        match self {
            Transition::Linear(from, _) => from,
        }
    }

    pub fn calculate(&self, elapsed: u64, duration: u64) -> (value: i32)
        ensures
            value == self.value_at(elapsed, duration),
    {
        match self {
            Transition::Linear(from, to) => {
                if elapsed >= duration {
                    *to
                } else if *to >= *from {
                    let span: u128 = (*to as i64 - *from as i64) as u128;
                    let part: u128 = covered(span, elapsed, duration);
                    (*from as i64 + part as i64) as i32
                } else {
                    let span: u128 = (*from as i64 - *to as i64) as u128;
                    let part: u128 = covered(span, elapsed, duration);
                    (*from as i64 - part as i64) as i32
                }
            },
        }
    }

    pub fn get_done(&self) -> (value: i32)
        ensures
            value == self.end(),
    {
        match self {
            Transition::Linear(_, end) => *end,
        }
    }
}

/// The part of `span` covered when `elapsed` of `duration` has passed.
fn covered(span: u128, elapsed: u64, duration: u64) -> (part: u128)
    requires
        span <= 0xffff_ffff,
        elapsed < duration,
    ensures
        part == (span * elapsed) / (duration as int),
        part <= span,
{
    assert(span * elapsed <= span * duration && span * duration <= 0xffff_ffff
        * 0xffff_ffff_ffff_ffff) by (nonlinear_arith)
        requires
            span <= 0xffff_ffff,
            elapsed < duration,
            duration <= 0xffff_ffff_ffff_ffff,
    ;
    assert((span * elapsed) / (duration as int) <= span) by (nonlinear_arith)
        requires
            span * elapsed <= span * duration,
            duration > 0,
            span >= 0,
            elapsed >= 0,
    ;
    span * (elapsed as u128) / (duration as u128)
}

/// The values of all transitions once `elapsed` of `duration` has passed.
pub open spec fn values_at(transitions: Seq<Transition>, elapsed: u64, duration: u64) -> Seq<i32> {
    Seq::new(transitions.len(), |i: int| transitions[i].value_at(elapsed, duration))
}

/// The values at which the transitions end.
pub open spec fn end_values(transitions: Seq<Transition>) -> Seq<i32> {
    Seq::new(transitions.len(), |i: int| transitions[i].end())
}

/// The values at which the transitions start.
pub open spec fn start_values(transitions: Seq<Transition>) -> Seq<i32> {
    Seq::new(transitions.len(), |i: int| transitions[i].start())
}

/// What an animation is: the clock reading it started at, its duration, its
/// transitions and whether it has reached its end.
pub ghost struct AnimationView {
    pub started: Instant,
    pub duration_ms: u64,
    pub transitions: Seq<Transition>,
    pub done: bool,
}

impl AnimationView {
    /// The values reported when `elapsed_ms` have passed since the start. A
    /// finished animation reports its end values whatever the time.
    pub open spec fn values(self, elapsed_ms: u64) -> Seq<i32> {
        if self.done {
            end_values(self.transitions)
        } else {
            values_at(self.transitions, elapsed_ms, self.duration_ms)
        }
    }

    /// The animation after it has been asked for its values at `elapsed_ms`:
    /// it is finished from the first time the duration has passed, and keeps
    /// the reading it started at.
    pub open spec fn advance(self, elapsed_ms: u64) -> AnimationView {
        AnimationView { done: self.done || elapsed_ms >= self.duration_ms, ..self }
    }

    /// The animation after a restart at the clock reading `now`.
    pub open spec fn restarted(self, now: Instant) -> AnimationView {
        AnimationView { started: now, done: false, ..self }
    }

    /// An animation that starts at the clock reading `now`.
    pub open spec fn fresh(now: Instant, duration_ms: u64, transitions: Seq<Transition>) -> AnimationView {
        AnimationView { started: now, duration_ms, transitions, done: false }
    }
}

/// A running or finished animation.
pub struct Animation {
    start_time: Instant,
    duration_ms: u64,
    transitions: Vec<Transition>,
    done: bool,
}

impl View for Animation {
    type V = AnimationView;

    closed spec fn view(&self) -> AnimationView {
        AnimationView {
            started: self.start_time,
            duration_ms: self.duration_ms,
            transitions: self.transitions@,
            done: self.done,
        }
    }
}

impl Animation {
    /// Starts an animation now. Its duration is the whole milliseconds of
    /// `duration`, at most `u64::MAX`.
    pub fn new(duration: Duration, transitions: Vec<Transition>) -> (animation: Self)
        ensures
            animation@ == AnimationView::fresh(
                animation@.started,
                capped(millis_of(duration)),
                transitions@,
            ),
    {
        let millis: u128 = whole_millis(&duration);
        Animation::with_millis(cap_millis(millis), transitions)
    }

    /// Starts an animation of `duration_ms` milliseconds now.
    pub fn with_millis(duration_ms: u64, transitions: Vec<Transition>) -> (animation: Self)
        ensures
            animation@ == AnimationView::fresh(animation@.started, duration_ms, transitions@),
    {
        Animation::started_at(clock_now(), duration_ms, transitions)
    }

    /// An animation of `duration_ms` milliseconds that started at the clock
    /// reading `now`.
    pub fn started_at(now: Instant, duration_ms: u64, transitions: Vec<Transition>) -> (animation:
        Self)
        ensures
            animation@ == AnimationView::fresh(now, duration_ms, transitions@),
    {
        Animation { start_time: now, duration_ms, transitions, done: false }
    }

    /// Starts the animation again from now, whatever the clock reads.
    pub fn reset(&mut self)
        ensures
            final(self)@ == old(self)@.restarted(final(self)@.started),
    {
        self.reset_at(clock_now());
    }

    /// Starts the animation again from the clock reading `now`.
    pub fn reset_at(&mut self, now: Instant)
        ensures
            final(self)@ == old(self)@.restarted(now),
    {
        self.done = false;
        self.start_time = now;
    }

    /// The clock reading the animation started at.
    pub fn started(&self) -> (start: Instant)
        ensures
            start == self@.started,
    {
        self.start_time
    }

    /// Whether the animation has reached its end.
    pub fn is_done(&self) -> (done: bool)
        ensures
            done == self@.done,
    {
        self.done
    }

    /// The number of transitions.
    pub fn arity(&self) -> (n: usize)
        ensures
            n == self@.transitions.len(),
    {
        self.transitions.len()
    }

    /// The current values by the clock. A finished animation reports its end
    /// values and does not read the clock; a running one reports the values
    /// for the milliseconds that have passed since the reading it started at,
    /// whatever that count turns out to be. The start reading is kept.
    pub fn animate(&mut self) -> (values: Vec<i32>)
        ensures
            old(self)@.done ==> final(self)@ == old(self)@ && values@ == end_values(
                old(self)@.transitions,
            ),
            !old(self)@.done ==> exists|elapsed_ms: u64|
                final(self)@ == old(self)@.advance(elapsed_ms) && values@ == old(self)@.values(
                    elapsed_ms,
                ),
    {
        if self.done {
            return self.animate_at(0);
        }
        let span: Duration = clock_elapsed(&self.start_time);
        let elapsed_ms: u64 = cap_millis(whole_millis(&span));
        self.animate_at(elapsed_ms)
    }

    /// The values when `elapsed_ms` milliseconds have passed since the start.
    /// Duration, transitions and the start reading are kept.
    pub fn animate_at(&mut self, elapsed_ms: u64) -> (values: Vec<i32>)
        ensures
            final(self)@ == old(self)@.advance(elapsed_ms),
            values@ == old(self)@.values(elapsed_ms),
    {
        let n: usize = self.transitions.len();
        let mut values: Vec<i32> = Vec::new();
        let mut i: usize = 0;
        if self.done {
            while i < n
                invariant
                    n == self.transitions.len(),
                    i <= n,
                    values@ == end_values(self.transitions@).take(i as int),
                decreases n - i,
            {
                values.push(self.transitions[i].get_done());
                i = i + 1;
                assert(values@ =~= end_values(self.transitions@).take(i as int));
            }
            assert(values@ =~= end_values(self.transitions@));
            return values;
        }
        let duration: u64 = self.duration_ms;
        while i < n
            invariant
                n == self.transitions.len(),
                i <= n,
                values@ == values_at(self.transitions@, elapsed_ms, duration).take(i as int),
            decreases n - i,
        {
            values.push(self.transitions[i].calculate(elapsed_ms, duration));
            i = i + 1;
            assert(values@ =~= values_at(self.transitions@, elapsed_ms, duration).take(i as int));
        }
        assert(values@ =~= values_at(self.transitions@, elapsed_ms, duration));
        if elapsed_ms >= duration {
            self.done = true;
        }
        values
    }
}

/// Once the duration has passed, an animation reports its end values at every
/// later query, whatever time that query is made at.
pub proof fn lemma_finished_stays_at_end(animation: AnimationView, elapsed_ms: u64, later_ms: u64)
    requires
        elapsed_ms >= animation.duration_ms,
    ensures
        animation.values(elapsed_ms) == end_values(animation.transitions),
        animation.advance(elapsed_ms).done,
        animation.advance(elapsed_ms).values(later_ms) == end_values(animation.transitions),
        animation.advance(elapsed_ms).advance(later_ms) == animation.advance(elapsed_ms),
{
    assert(animation.values(elapsed_ms) =~= end_values(animation.transitions));
}

/// After a restart, a query at time zero reports the start values of an
/// animation with a positive duration, finished or not before.
pub proof fn lemma_restart_begins_at_start(animation: AnimationView, now: Instant)
    requires
        animation.duration_ms > 0,
    ensures
        animation.restarted(now).values(0) == start_values(animation.transitions),
        !animation.restarted(now).advance(0).done,
        animation.restarted(now).started == now,
{
    assert(animation.restarted(now).values(0) =~= start_values(animation.transitions));
}

/// While it runs, a linear transition from 0 reports the end value scaled by
/// the progress: `to * min(elapsed, duration) / duration`.
pub proof fn lemma_linear_from_zero(to: i32, elapsed: u64, duration: u64)
    requires
        to >= 0,
        duration > 0,
    ensures
        Transition::Linear(0, to).value_at(elapsed, duration) == if elapsed >= duration {
            to as int
        } else {
            (to * elapsed) / (duration as int)
        },
{
    if elapsed < duration {
        assert((to * elapsed) / (duration as int) <= to) by (nonlinear_arith)
            requires
                0 <= elapsed < duration,
                to >= 0,
        ;
        assert((to * elapsed) / (duration as int) >= 0) by (nonlinear_arith)
            requires
                0 <= elapsed < duration,
                to >= 0,
        ;
    }
}

} // verus!
