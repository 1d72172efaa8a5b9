//! The entity store and per-screen entity lifetimes: every entity spawned
//! by a screen's enter hooks carries a tag with that screen's value, and
//! exiting the screen destroys every so-tagged entity in one pass.

use crate::score::BoundarySide;
use crate::screen::Screen;
use crate::widget::UiNode;
use vstd::prelude::*;

verus! {

/// Which of the two paddles an entity is.
#[derive(Clone, Copy, Debug, PartialEq, Eq, Structural)]
pub enum PlayerSide {
    One,
    Two,
}

/// Which edge of the play area a boundary closes off. `XStart` and `XEnd`
/// are the left and right goal walls; `YStart` and `YEnd` the top and
/// bottom.
#[derive(Clone, Copy, Debug, PartialEq, Eq, Structural)]
pub enum Wall {
    YStart,
    YEnd,
    XStart,
    XEnd,
}

/// What a live entity is, with the plain component values the policy layer
/// reads and writes. Positions and velocities are in engine length units.
pub enum EntityKind {
    /// The score readout text.
    ScoreBoard { text: String },
    /// A paddle: kinematic, movable along the vertical axis only.
    Player { side: PlayerSide, x: i64, y: i64, velocity_y: i64 },
    /// The free-moving ball.
    Ball { x: i64, y: i64, velocity_x: i64, velocity_y: i64 },
    /// A static wall of the play area. The two goal walls report collision
    /// events and carry a responder crediting the opposite side.
    Boundary {
        wall: Wall,
        x: i64,
        y: i64,
        width: i64,
        height: i64,
        events_enabled: bool,
        responder: Option<BoundarySide>,
    },
    /// A UI tree (splash image, menus, loading bars).
    Ui(UiNode),
}

/// One live entity: its handle, the screen whose enter hooks spawned it,
/// and its components.
pub struct Entity {
    pub id: u64,
    pub tag: Screen,
    pub kind: EntityKind,
}

/// The entities that survive exiting screen `s`: exactly those not tagged
/// `s`, in their original order.
pub open spec fn surviving(es: Seq<Entity>, s: Screen) -> Seq<Entity>
    decreases es.len(),
{
    if es.len() == 0 {
        Seq::empty()
    } else {
        let rest = surviving(es.drop_last(), s);
        if es.last().tag == s {
            rest
        } else {
            rest.push(es.last())
        }
    }
}

/// How many of the entities carry tag `s`.
pub open spec fn count_tagged(es: Seq<Entity>, s: Screen) -> nat
    decreases es.len(),
{
    if es.len() == 0 {
        0
    } else {
        count_tagged(es.drop_last(), s) + if es.last().tag == s {
            1nat
        } else {
            0nat
        }
    }
}

/// Law: exiting a screen removes all of the entities tagged with it and
/// none of the entities tagged with any other screen — every survivor comes
/// from the store, no survivor carries the exited tag, every entity with
/// another tag survives, and the counts add up.
pub proof fn lemma_exit_removes_exactly_tagged(es: Seq<Entity>, s: Screen)
    ensures
        surviving(es, s).len() + count_tagged(es, s) == es.len(),
        forall|i: int| 0 <= i < surviving(es, s).len() ==> (#[trigger] surviving(es, s)[i]).tag != s,
        forall|i: int| 0 <= i < es.len() && (#[trigger] es[i]).tag != s ==> surviving(es, s).contains(es[i]),
        forall|i: int| 0 <= i < surviving(es, s).len() ==> es.contains(#[trigger] surviving(es, s)[i]),
    decreases es.len(),
{
    if es.len() > 0 {
        lemma_exit_removes_exactly_tagged(es.drop_last(), s);
        let pre = es.drop_last();
        assert forall|i: int| 0 <= i < es.len() && (#[trigger] es[i]).tag != s implies surviving(
            es,
            s,
        ).contains(es[i]) by {
            if i < es.len() - 1 {
                assert(pre[i] == es[i]);
                assert(surviving(pre, s).contains(es[i]));
                let j = choose|j: int|
                    0 <= j < surviving(pre, s).len() && surviving(pre, s)[j] == es[i];
                assert(surviving(es, s)[j] == es[i]);
            } else {
                assert(surviving(es, s).last() == es[i]);
            }
        }
        assert forall|i: int| 0 <= i < surviving(es, s).len() implies es.contains(
            #[trigger] surviving(es, s)[i],
        ) by {
            if i < surviving(pre, s).len() {
                assert(surviving(pre, s)[i] == surviving(es, s)[i]);
                assert(pre.contains(surviving(pre, s)[i]));
                let j = choose|j: int| 0 <= j < pre.len() && pre[j] == surviving(pre, s)[i];
                assert(es[j] == surviving(es, s)[i]);
            } else {
                assert(surviving(es, s)[i] == es.last());
            }
        }
    }
}

/// The engine-owned arena of live entities, with the id counter handles are
/// drawn from.
pub struct World {
    pub entities: Vec<Entity>,
    pub next_id: u64,
}

impl World {
    /// An empty world.
    pub fn new() -> (w: World)
        ensures
            w.entities@.len() == 0,
            w.next_id == 0,
    {
        World { entities: Vec::new(), next_id: 0 }
    }

    /// Spawns one entity tagged with the screen whose enter hook is running,
    /// appending it to the store under a fresh handle.
    pub fn spawn(&mut self, tag: Screen, kind: EntityKind) -> (id: u64)
        requires
            old(self).next_id < u64::MAX,
        ensures
            id == old(self).next_id,
            final(self).next_id == old(self).next_id + 1,
            final(self).entities@ == old(self).entities@.push(Entity { id, tag, kind }),
    {
        let id = self.next_id;
        self.next_id = self.next_id + 1;
        self.entities.push(Entity { id, tag, kind });
        id
    }

    /// Destroys, in one pass, every entity tagged with the exited screen
    /// `s`, keeping all others in order.
    pub fn despawn_tagged(&mut self, s: Screen)
        ensures
            final(self).entities@ == surviving(old(self).entities@, s),
            final(self).next_id == old(self).next_id,
    {
        let mut source: Vec<Entity> = Vec::new();
        core::mem::swap(&mut self.entities, &mut source);
        let ghost all = source@;
        let ghost taken: int = 0;
        proof {
            assert(all.take(0) =~= Seq::<Entity>::empty());
            assert(self.entities@ =~= surviving(all.take(0), s));
        }
        while source.len() > 0
            invariant
                0 <= taken <= all.len(),
                source@ == all.skip(taken),
                self.entities@ == surviving(all.take(taken), s),
                self.next_id == old(self).next_id,
            decreases source@.len(),
        {
            let e = source.remove(0);
            proof {
                assert(all.skip(taken).drop_first() =~= all.skip(taken + 1));
                assert(e == all[taken]);
                assert(all.take(taken + 1).drop_last() =~= all.take(taken));
                assert(all.take(taken + 1).last() == all[taken]);
            }
            if e.tag != s {
                self.entities.push(e);
            }
            proof {
                taken = taken + 1;
            }
        }
        proof {
            assert(all.take(all.len() as int) =~= all);
        }
    }
}

} // verus!
