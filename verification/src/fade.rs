//! Timed screen transitions: a full-screen overlay fades in and out over a
//! fixed duration, measured in accumulated elapsed time (frame-rate
//! independent), and emits exactly one transition request when it finishes.

use crate::screen::Screen;
use vstd::prelude::*;

verus! {

/// Default length of a fade, in milliseconds.
pub const FADE_MILLIS: u64 = 600;

/// One in-flight fade: where it is going, how long it runs, how much time
/// has accumulated, and whether its transition request has already been
/// emitted.
#[derive(Clone, Copy, Debug, PartialEq, Eq, Structural)]
pub struct Fade {
    pub target: Screen,
    pub duration_ms: u64,
    pub elapsed_ms: u64,
    pub requested: bool,
}

/// What one tick of `dt` milliseconds does to a fade: elapsed time
/// accumulates (saturating at the counter's ceiling), and the transition
/// request is emitted on the first tick where the accumulated time reaches
/// the duration — and never again.
pub open spec fn spec_tick(f: Fade, dt: u64) -> (Fade, Option<Screen>) {
    let elapsed = if f.elapsed_ms + dt <= u64::MAX {
        (f.elapsed_ms + dt) as u64
    } else {
        u64::MAX
    };
    let fire = elapsed >= f.duration_ms && !f.requested;
    (
        Fade {
            target: f.target,
            duration_ms: f.duration_ms,
            elapsed_ms: elapsed,
            requested: f.requested || fire,
        },
        if fire {
            Some(f.target)
        } else {
            None
        },
    )
}

/// Overlay opacity for a given accumulated time, in thousandths of full
/// opacity: rises 0 to 1000 over the first half of the duration, falls back
/// to 0 over the second half, and stays 0 once the fade is over.
pub open spec fn spec_opacity_permille(elapsed_ms: u64, duration_ms: u64) -> u64
    recommends
        2 <= duration_ms,
{
    let half = duration_ms as int / 2;
    if elapsed_ms <= half {
        (1000 * elapsed_ms / half) as u64
    } else if elapsed_ms < duration_ms {
        (1000 * (duration_ms - elapsed_ms) / (duration_ms - half)) as u64
    } else {
        0
    }
}

impl Fade {
    /// Starts a fade that will request a transition to `target` after
    /// `duration_ms` of accumulated time.
    pub fn fade_to(target: Screen, duration_ms: u64) -> (f: Fade)
        ensures
            f.target == target,
            f.duration_ms == duration_ms,
            f.elapsed_ms == 0,
            !f.requested,
    {
        Fade { target, duration_ms, elapsed_ms: 0, requested: false }
    }

    /// The standard outgoing fade used when a screen hands over to the next
    /// one: a `FADE_MILLIS` fade to `target`.
    pub fn fade_out(target: Screen) -> (f: Fade)
        ensures
            f.target == target,
            f.duration_ms == FADE_MILLIS,
            f.elapsed_ms == 0,
            !f.requested,
    {
        Fade::fade_to(target, FADE_MILLIS)
    }

    /// Advances the fade by one frame's delta. Returns the transition
    /// request to the fade's target on the single tick where the
    /// accumulated time first reaches the duration.
    pub fn tick(&mut self, dt_ms: u64) -> (r: Option<Screen>)
        ensures
            (*final(self), r) == spec_tick(*old(self), dt_ms),
    {
        self.elapsed_ms = if dt_ms <= u64::MAX - self.elapsed_ms {
            self.elapsed_ms + dt_ms
        } else {
            u64::MAX
        };
        if self.elapsed_ms >= self.duration_ms && !self.requested {
            self.requested = true;
            Some(self.target)
        } else {
            None
        }
    }

    /// Current overlay opacity in thousandths, computed from accumulated
    /// time alone.
    pub fn opacity_permille(&self) -> (r: u64)
        requires
            2 <= self.duration_ms,
            self.duration_ms <= u64::MAX / 1000,
        ensures
            r == spec_opacity_permille(self.elapsed_ms, self.duration_ms),
    {
        let half = self.duration_ms / 2;
        if self.elapsed_ms <= half {
            1000 * self.elapsed_ms / half
        } else if self.elapsed_ms < self.duration_ms {
            1000 * (self.duration_ms - self.elapsed_ms) / (self.duration_ms - half)
        } else {
            0
        }
    }
}

/// The sum of a sequence of frame deltas, as an unbounded integer.
pub open spec fn sum_of(dts: Seq<u64>) -> int
    decreases dts.len(),
{
    if dts.len() == 0 {
        0
    } else {
        dts[0] + sum_of(dts.drop_first())
    }
}

/// How many transition requests a fade emits over a whole sequence of
/// ticks.
pub open spec fn requests_over(f: Fade, dts: Seq<u64>) -> nat
    decreases dts.len(),
{
    if dts.len() == 0 {
        0
    } else {
        let (f2, r) = spec_tick(f, dts[0]);
        (if r is Some {
            1nat
        } else {
            0nat
        }) + requests_over(f2, dts.drop_first())
    }
}

/// Law: however the frame loop slices time, a fade emits exactly one
/// transition request — one, on whichever tick the accumulated deltas first
/// reach the remaining duration; none while they fall short; and none at
/// all if its request is already out.
pub proof fn lemma_fade_requests_exactly_once(f: Fade, dts: Seq<u64>)
    ensures
        sum_of(dts) >= 0,
        f.requested ==> requests_over(f, dts) == 0,
        !f.requested && dts.len() > 0 && f.elapsed_ms + sum_of(dts) >= f.duration_ms
            ==> requests_over(f, dts) == 1,
        !f.requested && f.elapsed_ms + sum_of(dts) < f.duration_ms ==> requests_over(f, dts) == 0,
    decreases dts.len(),
{
    if dts.len() > 0 {
        let (f2, r) = spec_tick(f, dts[0]);
        lemma_fade_requests_exactly_once(f2, dts.drop_first());
    }
}

} // verus!
