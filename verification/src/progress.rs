//! Loading-progress aggregation: per tracked screen a `(done, total)` pair
//! fed by named contributors, and the edge detector that turns the frame
//! where `done` first reaches `total` into a one-shot signal.

use crate::screen::Screen;
use vstd::prelude::*;

verus! {

/// Fractional completion for one tracked screen: `done` of `total` items.
#[derive(Clone, Copy, Debug, PartialEq, Eq, Structural)]
pub struct ProgressState {
    pub done: u32,
    pub total: u32,
}

/// Aggregated completion for each tracked screen. Invariant: `done <= total`
/// for every screen, kept by every operation.
pub struct ProgressTracker {
    pub splash: ProgressState,
    pub title: ProgressState,
    pub gameplay: ProgressState,
}

impl ProgressTracker {
    /// The pair tracked for `screen`.
    pub open spec fn spec_of(&self, screen: Screen) -> ProgressState {
        match screen {
            Screen::Splash => self.splash,
            Screen::Title => self.title,
            Screen::Gameplay => self.gameplay,
        }
    }

    /// The tracker's invariant: completed work never exceeds registered work.
    pub open spec fn wf(&self) -> bool {
        forall|s: Screen| (#[trigger] self.spec_of(s)).done <= self.spec_of(s).total
    }

    /// A fresh tracker has no registered work anywhere.
    pub fn new() -> (t: ProgressTracker)
        ensures
            t.wf(),
            forall|s: Screen| t.spec_of(s) == (ProgressState { done: 0, total: 0 }),
    {
        ProgressTracker {
            splash: ProgressState { done: 0, total: 0 },
            title: ProgressState { done: 0, total: 0 },
            gameplay: ProgressState { done: 0, total: 0 },
        }
    }

    fn entry_mut(&mut self, screen: Screen) -> (e: &mut ProgressState)
        ensures
            *e == old(self).spec_of(screen),
            final(self).spec_of(screen) == *final(e),
            forall|s: Screen| s != screen ==> final(self).spec_of(s) == old(self).spec_of(s),
    {
        match screen {
            Screen::Splash => &mut self.splash,
            Screen::Title => &mut self.title,
            Screen::Gameplay => &mut self.gameplay,
        }
    }

    /// A loading contributor announces `expected_item_count` more items of
    /// work for `screen`: `total` grows by that much (saturating at the
    /// counter's ceiling), `done` is untouched, other screens are untouched.
    pub fn register_contributor(&mut self, screen: Screen, expected_item_count: u32)
        requires
            old(self).wf(),
        ensures
            final(self).wf(),
            final(self).spec_of(screen).done == old(self).spec_of(screen).done,
            old(self).spec_of(screen).total + expected_item_count <= u32::MAX
                ==> final(self).spec_of(screen).total
                    == old(self).spec_of(screen).total + expected_item_count,
            old(self).spec_of(screen).total + expected_item_count > u32::MAX
                ==> final(self).spec_of(screen).total == u32::MAX,
            forall|s: Screen| s != screen ==> final(self).spec_of(s) == old(self).spec_of(s),
    {
        let e = self.entry_mut(screen);
        e.total = if e.total <= u32::MAX - expected_item_count {
            e.total + expected_item_count
        } else {
            u32::MAX
        };
    }

    /// A contributor reports `n` more items finished for `screen`: `done`
    /// grows by `n` but is clamped so it never exceeds `total`. `total` and
    /// the other screens are untouched.
    pub fn report_done(&mut self, screen: Screen, n: u32)
        requires
            old(self).wf(),
        ensures
            final(self).wf(),
            final(self).spec_of(screen).total == old(self).spec_of(screen).total,
            final(self).spec_of(screen).done
                == if old(self).spec_of(screen).done + n <= old(self).spec_of(screen).total {
                    old(self).spec_of(screen).done + n
                } else {
                    old(self).spec_of(screen).total as int
                },
            forall|s: Screen| s != screen ==> final(self).spec_of(s) == old(self).spec_of(s),
    {
        let e = self.entry_mut(screen);
        e.done = if n <= e.total - e.done {
            e.done + n
        } else {
            e.total
        };
    }

    /// Read-only snapshot of `(done, total)` for `screen`.
    pub fn combined_progress(&self, screen: Screen) -> (r: (u32, u32))
        ensures
            r.0 == self.spec_of(screen).done,
            r.1 == self.spec_of(screen).total,
            self.wf() ==> r.0 <= r.1,
    {
        match screen {
            Screen::Splash => (self.splash.done, self.splash.total),
            Screen::Title => (self.title.done, self.title.total),
            Screen::Gameplay => (self.gameplay.done, self.gameplay.total),
        }
    }

    /// Conceptual reset on re-entering a tracked screen: contributors will
    /// register again, so both counters return to zero for that screen.
    pub fn reset(&mut self, screen: Screen)
        requires
            old(self).wf(),
        ensures
            final(self).wf(),
            final(self).spec_of(screen) == (ProgressState { done: 0, total: 0 }),
            forall|s: Screen| s != screen ==> final(self).spec_of(s) == old(self).spec_of(s),
    {
        let e = self.entry_mut(screen);
        e.done = 0;
        e.total = 0;
    }
}

/// What one observation of `(done, total)` returns and leaves behind:
/// the observer remembers the last `done` it saw, ignores frames where
/// `done` did not move, and signals completion only on a frame where `done`
/// both moved and reached `total`.
pub open spec fn spec_observe(last_done: u32, done: u32, total: u32) -> (bool, u32) {
    if done == last_done {
        (false, last_done)
    } else {
        (done == total, done)
    }
}

/// Edge detector owned by one consumer of a tracker (a fade trigger, a
/// progress-bar fill): its private `done` baseline across frames.
pub struct ProgressObserver {
    pub last_done: u32,
}

impl ProgressObserver {
    /// A fresh observer has seen no completed work.
    pub fn new() -> (o: ProgressObserver)
        ensures
            o.last_done == 0,
    {
        ProgressObserver { last_done: 0 }
    }

    /// One per-frame observation of a snapshot. Returns the "just completed"
    /// edge: true exactly when `done` differs from the remembered baseline
    /// and equals `total`.
    pub fn observe(&mut self, done: u32, total: u32) -> (edge: bool)
        ensures
            (edge, final(self).last_done) == spec_observe(old(self).last_done, done, total),
    {
        if done == self.last_done {
            false
        } else {
            self.last_done = done;
            done == total
        }
    }
}

/// Law: the completion edge fires at most once while `done` stays constant.
/// Once an observation of `(done, total)` has been made, every later
/// observation of the same `done` — in particular every frame after
/// completion, where `done == total` persists — reports no edge.
pub proof fn lemma_edge_fires_at_most_once(last_done: u32, done: u32, total: u32)
    ensures
        spec_observe(spec_observe(last_done, done, total).1, done, total).0 == false,
{
}

} // verus!
