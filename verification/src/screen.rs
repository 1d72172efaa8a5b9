//! The top-level screen state machine: which presentation (splash, title,
//! gameplay) is active, and the pending-transition protocol that the frame
//! loop flushes once per tick.

use vstd::prelude::*;

verus! {

/// One value of the closed set of top-level presentations. Exactly one is
/// current at any time.
#[derive(Clone, Copy, Debug, PartialEq, Eq, Structural)]
pub enum Screen {
    Splash,
    Title,
    Gameplay,
}

/// Finite-state controller over `Screen`. Transition requests are recorded
/// here and applied at the frame's state-flush phase; a request made while
/// another is pending overwrites it (last request wins, no queue).
pub struct ScreenMachine {
    pub current: Screen,
    pub pending: Option<Screen>,
}

impl ScreenMachine {
    /// A fresh machine starts in `Splash` with no transition pending.
    pub fn new() -> (m: ScreenMachine)
        ensures
            m.current == Screen::Splash,
            m.pending is None,
    {
        ScreenMachine { current: Screen::Splash, pending: None }
    }

    /// Records the intent to move to `target`. Not applied immediately:
    /// the state-flush phase commits it. Last request wins.
    pub fn request_transition(&mut self, target: Screen)
        ensures
            final(self).current == old(self).current,
            final(self).pending == Some(target),
    {
        self.pending = Some(target);
    }

    /// Commits a pending transition, returning the screen that was left and
    /// the screen that was entered; with nothing pending, nothing changes.
    /// The caller runs exit hooks on the first element before enter hooks on
    /// the second.
    pub fn flush(&mut self) -> (r: Option<(Screen, Screen)>)
        ensures
            final(self).pending is None,
            old(self).pending is None ==> {
                &&& r is None
                &&& final(self).current == old(self).current
            },
            old(self).pending matches Some(t) ==> {
                &&& r == Some((old(self).current, t))
                &&& final(self).current == t
            },
    {
        match self.pending {
            None => None,
            Some(t) => {
                let from = self.current;
                self.current = t;
                self.pending = None;
                Some((from, t))
            },
        }
    }
}

} // verus!
