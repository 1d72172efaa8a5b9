//! The process-wide goal counter pair, and the mathematical model of how
//! boundary collision-start events act on it.

use vstd::prelude::*;

verus! {

/// Which side boundary of the play area a collision-start event hit.
/// `Start` is the left ("x start") wall, `End` the right ("x end") wall.
#[derive(Clone, Copy, Debug, PartialEq, Eq, Structural)]
pub enum BoundarySide {
    Start,
    End,
}

/// One discrete collision-start event against a side boundary, as the
/// physics layer reports it: which wall was hit, and whether the colliding
/// entity carries the ball role.
#[derive(Clone, Copy, Debug, PartialEq, Eq, Structural)]
pub struct GoalEvent {
    pub side: BoundarySide,
    pub is_ball: bool,
}

/// Goal counters for the two players. Created once with value `(0, 0)`;
/// mutated only by the boundary collision responders; never reset while the
/// process lives (re-entering gameplay keeps the totals).
pub struct Score {
    pub player1: u32,
    pub player2: u32,
}

/// Mathematical view of a score: the two counters as unbounded naturals.
pub struct ScoreView {
    pub player1: nat,
    pub player2: nat,
}

/// How one collision-start event acts on a score: a ball reaching the
/// start wall is a goal for player two, a ball reaching the end wall a goal
/// for player one; anything that is not the ball changes nothing.
pub open spec fn apply_event(s: ScoreView, e: GoalEvent) -> ScoreView {
    if !e.is_ball {
        s
    } else if e.side == BoundarySide::Start {
        ScoreView { player1: s.player1, player2: s.player2 + 1 }
    } else {
        ScoreView { player1: s.player1 + 1, player2: s.player2 }
    }
}

/// The score after a whole sequence of events, applied in order.
pub open spec fn apply_events(s: ScoreView, es: Seq<GoalEvent>) -> ScoreView
    decreases es.len(),
{
    if es.len() == 0 {
        s
    } else {
        apply_events(apply_event(s, es[0]), es.drop_first())
    }
}

impl Score {
    pub open spec fn view(&self) -> ScoreView {
        ScoreView { player1: self.player1 as nat, player2: self.player2 as nat }
    }

    /// Both counters start at zero.
    pub fn new() -> (s: Score)
        ensures
            s@.player1 == 0,
            s@.player2 == 0,
    {
        Score { player1: 0, player2: 0 }
    }

    /// Applies one collision-start event: exactly one goal is credited to
    /// the side opposite the wall the ball reached, and a non-ball collider
    /// changes nothing.
    pub fn record_event(&mut self, e: GoalEvent)
        requires
            e.is_ball && e.side == BoundarySide::Start ==> old(self).player2 < u32::MAX,
            e.is_ball && e.side == BoundarySide::End ==> old(self).player1 < u32::MAX,
        ensures
            final(self)@ == apply_event(old(self)@, e),
    {
        if e.is_ball {
            match e.side {
                BoundarySide::Start => {
                    self.player2 = self.player2 + 1;
                },
                BoundarySide::End => {
                    self.player1 = self.player1 + 1;
                },
            }
        }
    }
}

/// Law: over any sequence of collision-start events against the start wall
/// that all carry the ball role, player two's score rises by exactly one per
/// event and player one's score is untouched.
pub proof fn lemma_start_goals_credit_player2(s: ScoreView, es: Seq<GoalEvent>)
    requires
        forall|i: int|
            0 <= i < es.len() ==> (#[trigger] es[i]).side == BoundarySide::Start && es[i].is_ball,
    ensures
        apply_events(s, es).player2 == s.player2 + es.len(),
        apply_events(s, es).player1 == s.player1,
    decreases es.len(),
{
    if es.len() > 0 {
        lemma_start_goals_credit_player2(apply_event(s, es[0]), es.drop_first());
    }
}

/// Law: symmetric to `lemma_start_goals_credit_player2` — ball events
/// against the end wall credit player one only.
pub proof fn lemma_end_goals_credit_player1(s: ScoreView, es: Seq<GoalEvent>)
    requires
        forall|i: int|
            0 <= i < es.len() ==> (#[trigger] es[i]).side == BoundarySide::End && es[i].is_ball,
    ensures
        apply_events(s, es).player1 == s.player1 + es.len(),
        apply_events(s, es).player2 == s.player2,
    decreases es.len(),
{
    if es.len() > 0 {
        lemma_end_goals_credit_player1(apply_event(s, es[0]), es.drop_first());
    }
}

/// Law: a collision-start event whose collider is not the ball leaves both
/// scores unchanged, whichever wall it hit.
pub proof fn lemma_non_ball_event_changes_nothing(s: ScoreView, e: GoalEvent)
    requires
        !e.is_ball,
    ensures
        apply_event(s, e) == s,
{
}

} // verus!
