//! The gameplay session: what entering the gameplay screen spawns, how
//! directional input becomes paddle velocity each frame, and how boundary
//! collision-start events become goals.

use crate::lifecycle::{Entity, EntityKind, PlayerSide, Wall, World};
use crate::score::{apply_event, BoundarySide, GoalEvent, Score};
use crate::screen::Screen;
use crate::text::{score_line, score_text};
use vstd::prelude::*;

verus! {

/// Paddle collider width, in engine length units.
pub const PLAYER_WIDTH: i64 = 20;

/// Paddle collider height.
pub const PLAYER_HEIGHT: i64 = 200;

/// Horizontal distance of each paddle from the play-area center.
pub const PLAYER_OFFSET_X: i64 = 400;

/// Ball collider radius.
pub const BALL_RADIUS: i64 = 10;

/// Magnitude of the ball's initial horizontal velocity.
pub const BALL_SPEED_X: i64 = 200;

/// Magnitude of the ball's initial vertical velocity.
pub const BALL_SPEED_Y: i64 = 150;

/// Thickness of each boundary wall.
pub const BOUNDARY_THICKNESS: i64 = 20;

/// Paddle speed gained per millisecond of frame delta (25000 length units
/// per second).
pub const SPEED_GAIN_PER_MS: u64 = 25;

/// The held state of the two directional key pairs, one pair per player.
#[derive(Clone, Copy, Debug, PartialEq, Eq, Structural)]
pub struct DirectionalInput {
    pub p1_up: bool,
    pub p1_down: bool,
    pub p2_up: bool,
    pub p2_down: bool,
}

/// Whether the "up" key of `side`'s pair is held.
pub open spec fn up_held(input: DirectionalInput, side: PlayerSide) -> bool {
    match side {
        PlayerSide::One => input.p1_up,
        PlayerSide::Two => input.p2_up,
    }
}

/// Whether the "down" key of `side`'s pair is held.
pub open spec fn down_held(input: DirectionalInput, side: PlayerSide) -> bool {
    match side {
        PlayerSide::One => input.p1_down,
        PlayerSide::Two => input.p2_down,
    }
}

/// The vertical velocity the key pair dictates: the algebraic sum of the
/// two contributions, so `+speed` for up alone, `-speed` for down alone,
/// and zero when neither or both keys are held.
pub open spec fn net_velocity(up: bool, down: bool, speed: int) -> int {
    (if up {
        speed
    } else {
        0
    }) - (if down {
        speed
    } else {
        0
    })
}

/// The paddle speed magnitude for one frame: the frame delta times the
/// constant gain.
pub open spec fn player_speed(delta_ms: u64) -> int {
    delta_ms * SPEED_GAIN_PER_MS
}

/// Computes the vertical velocity for one key pair at the given speed.
pub fn vertical_velocity(up: bool, down: bool, speed: i64) -> (v: i64)
    requires
        0 <= speed,
    ensures
        v == net_velocity(up, down, speed as int),
        up && !down ==> v == speed,
        down && !up ==> v == -speed,
        up == down ==> v == 0,
{
    let mut v: i64 = 0;
    if up {
        v = v + speed;
    }
    if down {
        v = v - speed;
    }
    v
}

/// Computes the paddle speed for one frame's delta.
pub fn speed_from_delta(delta_ms: u64) -> (speed: i64)
    requires
        player_speed(delta_ms) <= i64::MAX,
    ensures
        speed == player_speed(delta_ms),
        0 <= speed,
{
    (delta_ms * SPEED_GAIN_PER_MS) as i64
}

/// Reads the two key pairs and *sets* (does not accumulate) every paddle's
/// vertical velocity for this frame; every other entity, and every other
/// component of the paddles, is untouched. A paddle that is not in the
/// store is simply not updated.
pub fn move_players(world: &mut World, input: DirectionalInput, delta_ms: u64)
    requires
        player_speed(delta_ms) <= i64::MAX,
    ensures
        final(world).next_id == old(world).next_id,
        final(world).entities@.len() == old(world).entities@.len(),
        forall|i: int|
            #![trigger old(world).entities@[i]]
            0 <= i < old(world).entities@.len() ==> {
                let e = old(world).entities@[i];
                match e.kind {
                    EntityKind::Player { side, x, y, velocity_y: _ } => final(world).entities@[i]
                        == (Entity {
                        id: e.id,
                        tag: e.tag,
                        kind: EntityKind::Player {
                            side,
                            x,
                            y,
                            velocity_y: net_velocity(
                                up_held(input, side),
                                down_held(input, side),
                                player_speed(delta_ms),
                            ) as i64,
                        },
                    }),
                    _ => final(world).entities@[i] == e,
                }
            },
{
    let speed = speed_from_delta(delta_ms);
    let n = world.entities.len();
    let mut i: usize = 0;
    while i < n
        invariant
            n == world.entities@.len(),
            world.entities@.len() == old(world).entities@.len(),
            world.next_id == old(world).next_id,
            i <= n,
            0 <= speed,
            speed == player_speed(delta_ms),
            forall|j: int|
                i <= j < n ==> world.entities@[j] == old(world).entities@[j],
            forall|j: int|
                #![trigger old(world).entities@[j]]
                0 <= j < i ==> {
                    let e = old(world).entities@[j];
                    match e.kind {
                        EntityKind::Player { side, x, y, velocity_y: _ } => world.entities@[j] == (
                        Entity {
                            id: e.id,
                            tag: e.tag,
                            kind: EntityKind::Player {
                                side,
                                x,
                                y,
                                velocity_y: net_velocity(
                                    up_held(input, side),
                                    down_held(input, side),
                                    player_speed(delta_ms),
                                ) as i64,
                            },
                        }),
                        _ => world.entities@[j] == e,
                    }
                },
        decreases n - i,
    {
        let id = world.entities[i].id;
        let tag = world.entities[i].tag;
        let mut update: Option<EntityKind> = None;
        match &world.entities[i].kind {
            EntityKind::Player { side, x, y, velocity_y: _ } => {
                let (up, down) = match side {
                    PlayerSide::One => (input.p1_up, input.p1_down),
                    PlayerSide::Two => (input.p2_up, input.p2_down),
                };
                update = Some(
                    EntityKind::Player {
                        side: *side,
                        x: *x,
                        y: *y,
                        velocity_y: vertical_velocity(up, down, speed),
                    },
                );
            },
            _ => {},
        }
        match update {
            Some(kind) => {
                world.entities[i] = Entity { id, tag, kind };
            },
            None => {},
        }
        i = i + 1;
    }
}

/// Spawns the score readout, initialized to the current score and tagged
/// for destruction when the gameplay screen exits.
pub fn add_score(world: &mut World, score: &Score)
    requires
        old(world).next_id < u64::MAX,
    ensures
        final(world).next_id == old(world).next_id + 1,
        final(world).entities@.len() == old(world).entities@.len() + 1,
        forall|j: int|
            0 <= j < old(world).entities@.len() ==> final(world).entities@[j] == old(
                world,
            ).entities@[j],
        final(world).entities@.last().id == old(world).next_id,
        final(world).entities@.last().tag == Screen::Gameplay,
        final(world).entities@.last().kind matches EntityKind::ScoreBoard { text } && text@
            == score_line(score@.player1, score@.player2),
{
    let text = score_text(score.player1, score.player2);
    world.spawn(Screen::Gameplay, EntityKind::ScoreBoard { text });
}

/// Spawns the two paddles, mirrored at the fixed horizontal offsets, at
/// rest on the vertical center line.
pub fn add_players(world: &mut World)
    requires
        old(world).next_id < u64::MAX - 1,
    ensures
        final(world).next_id == old(world).next_id + 2,
        final(world).entities@ == old(world).entities@.push(
            Entity {
                id: old(world).next_id,
                tag: Screen::Gameplay,
                kind: EntityKind::Player {
                    side: PlayerSide::One,
                    x: (-(PLAYER_OFFSET_X as int)) as i64,
                    y: 0,
                    velocity_y: 0,
                },
            },
        ).push(
            Entity {
                id: (old(world).next_id + 1) as u64,
                tag: Screen::Gameplay,
                kind: EntityKind::Player {
                    side: PlayerSide::Two,
                    x: PLAYER_OFFSET_X,
                    y: 0,
                    velocity_y: 0,
                },
            },
        ),
{
    world.spawn(
        Screen::Gameplay,
        EntityKind::Player { side: PlayerSide::One, x: -PLAYER_OFFSET_X, y: 0, velocity_y: 0 },
    );
    world.spawn(
        Screen::Gameplay,
        EntityKind::Player { side: PlayerSide::Two, x: PLAYER_OFFSET_X, y: 0, velocity_y: 0 },
    );
}

/// The ball's initial velocity for a direction choice: one of the four
/// fixed diagonals, selected by the two low bits of the choice.
pub open spec fn ball_velocity(choice: u8) -> (int, int) {
    if choice % 4 == 0 {
        (-(BALL_SPEED_X as int), -(BALL_SPEED_Y as int))
    } else if choice % 4 == 1 {
        (-(BALL_SPEED_X as int), BALL_SPEED_Y as int)
    } else if choice % 4 == 2 {
        (BALL_SPEED_X as int, -BALL_SPEED_Y as int)
    } else {
        (BALL_SPEED_X as int, BALL_SPEED_Y as int)
    }
}

/// Spawns the ball at the play-area center with one of the four fixed
/// diagonal velocities. The choice comes from the caller's random source,
/// so tests can pin a direction.
pub fn add_ball(world: &mut World, direction_choice: u8)
    requires
        old(world).next_id < u64::MAX,
    ensures
        final(world).next_id == old(world).next_id + 1,
        final(world).entities@ == old(world).entities@.push(
            Entity {
                id: old(world).next_id,
                tag: Screen::Gameplay,
                kind: EntityKind::Ball {
                    x: 0,
                    y: 0,
                    velocity_x: ball_velocity(direction_choice).0 as i64,
                    velocity_y: ball_velocity(direction_choice).1 as i64,
                },
            },
        ),
{
    let (vx, vy): (i64, i64) = match direction_choice % 4 {
        0 => (-BALL_SPEED_X, -BALL_SPEED_Y),
        1 => (-BALL_SPEED_X, BALL_SPEED_Y),
        2 => (BALL_SPEED_X, -BALL_SPEED_Y),
        _ => (BALL_SPEED_X, BALL_SPEED_Y),
    };
    world.spawn(
        Screen::Gameplay,
        EntityKind::Ball { x: 0, y: 0, velocity_x: vx, velocity_y: vy },
    );
}

/// The four boundary walls for a viewport, sized to it and offset so each
/// inner face touches the play-area edge; the two side walls report
/// collision events and carry the responder crediting the opposite side.
pub open spec fn boundary_entities(first_id: u64, vw: u32, vh: u32) -> Seq<Entity> {
    seq![
        Entity {
            id: first_id,
            tag: Screen::Gameplay,
            kind: EntityKind::Boundary {
                wall: Wall::YStart,
                x: 0,
                y: (vh as int / 2 + BOUNDARY_THICKNESS as int / 2) as i64,
                width: vw as i64,
                height: BOUNDARY_THICKNESS,
                events_enabled: false,
                responder: None,
            },
        },
        Entity {
            id: (first_id + 1) as u64,
            tag: Screen::Gameplay,
            kind: EntityKind::Boundary {
                wall: Wall::YEnd,
                x: 0,
                y: (-(vh as int / 2) - BOUNDARY_THICKNESS as int / 2) as i64,
                width: vw as i64,
                height: BOUNDARY_THICKNESS,
                events_enabled: false,
                responder: None,
            },
        },
        Entity {
            id: (first_id + 2) as u64,
            tag: Screen::Gameplay,
            kind: EntityKind::Boundary {
                wall: Wall::XStart,
                x: (-(vw as int / 2) - BOUNDARY_THICKNESS as int / 2) as i64,
                y: 0,
                width: BOUNDARY_THICKNESS,
                height: vh as i64,
                events_enabled: true,
                responder: Some(BoundarySide::Start),
            },
        },
        Entity {
            id: (first_id + 3) as u64,
            tag: Screen::Gameplay,
            kind: EntityKind::Boundary {
                wall: Wall::XEnd,
                x: (vw as int / 2 + BOUNDARY_THICKNESS as int / 2) as i64,
                y: 0,
                width: BOUNDARY_THICKNESS,
                height: vh as i64,
                events_enabled: true,
                responder: Some(BoundarySide::End),
            },
        },
    ]
}

/// Spawns the four boundary walls for the given viewport size.
pub fn add_boundaries(world: &mut World, viewport_width: u32, viewport_height: u32)
    requires
        old(world).next_id < u64::MAX - 3,
    ensures
        final(world).next_id == old(world).next_id + 4,
        final(world).entities@ == old(world).entities@ + boundary_entities(
            old(world).next_id,
            viewport_width,
            viewport_height,
        ),
{
    let half_thickness = BOUNDARY_THICKNESS / 2;
    let x_offset = (viewport_width / 2) as i64 + half_thickness;
    let y_offset = (viewport_height / 2) as i64 + half_thickness;
    world.spawn(
        Screen::Gameplay,
        EntityKind::Boundary {
            wall: Wall::YStart,
            x: 0,
            y: y_offset,
            width: viewport_width as i64,
            height: BOUNDARY_THICKNESS,
            events_enabled: false,
            responder: None,
        },
    );
    world.spawn(
        Screen::Gameplay,
        EntityKind::Boundary {
            wall: Wall::YEnd,
            x: 0,
            y: -y_offset,
            width: viewport_width as i64,
            height: BOUNDARY_THICKNESS,
            events_enabled: false,
            responder: None,
        },
    );
    world.spawn(
        Screen::Gameplay,
        EntityKind::Boundary {
            wall: Wall::XStart,
            x: -x_offset,
            y: 0,
            width: BOUNDARY_THICKNESS,
            height: viewport_height as i64,
            events_enabled: true,
            responder: Some(BoundarySide::Start),
        },
    );
    world.spawn(
        Screen::Gameplay,
        EntityKind::Boundary {
            wall: Wall::XEnd,
            x: x_offset,
            y: 0,
            width: BOUNDARY_THICKNESS,
            height: viewport_height as i64,
            events_enabled: true,
            responder: Some(BoundarySide::End),
        },
    );
    proof {
        assert(world.entities@ =~= old(world).entities@ + boundary_entities(
            old(world).next_id,
            viewport_width,
            viewport_height,
        ));
    }
}

/// Refreshes the score readout: every scoreboard's text becomes the
/// current `"<p1> - <p2>"` line, everything else is untouched. With no
/// scoreboard in the store this frame, nothing changes.
pub fn update_score(world: &mut World, score: &Score)
    ensures
        final(world).next_id == old(world).next_id,
        final(world).entities@.len() == old(world).entities@.len(),
        forall|i: int|
            #![trigger old(world).entities@[i]]
            0 <= i < old(world).entities@.len() ==> {
                let e = old(world).entities@[i];
                match e.kind {
                    EntityKind::ScoreBoard { text: _ } => {
                        &&& final(world).entities@[i].id == e.id
                        &&& final(world).entities@[i].tag == e.tag
                        &&& final(world).entities@[i].kind matches EntityKind::ScoreBoard { text }
                            && text@ == score_line(score@.player1, score@.player2)
                    },
                    _ => final(world).entities@[i] == e,
                }
            },
{
    let n = world.entities.len();
    let mut i: usize = 0;
    while i < n
        invariant
            n == world.entities@.len(),
            world.entities@.len() == old(world).entities@.len(),
            world.next_id == old(world).next_id,
            i <= n,
            forall|j: int|
                i <= j < n ==> world.entities@[j] == old(world).entities@[j],
            forall|j: int|
                #![trigger old(world).entities@[j]]
                0 <= j < i ==> {
                    let e = old(world).entities@[j];
                    match e.kind {
                        EntityKind::ScoreBoard { text: _ } => {
                            &&& world.entities@[j].id == e.id
                            &&& world.entities@[j].tag == e.tag
                            &&& world.entities@[j].kind matches EntityKind::ScoreBoard { text }
                                && text@ == score_line(score@.player1, score@.player2)
                        },
                        _ => world.entities@[j] == e,
                    }
                },
        decreases n - i,
    {
        let id = world.entities[i].id;
        let tag = world.entities[i].tag;
        let is_board = match &world.entities[i].kind {
            EntityKind::ScoreBoard { .. } => true,
            _ => false,
        };
        if is_board {
            let text = score_text(score.player1, score.player2);
            world.entities[i] = Entity { id, tag, kind: EntityKind::ScoreBoard { text } };
        }
        i = i + 1;
    }
}

/// One side boundary's collision responder. On a collision-start event
/// whose collider carries the ball role, the score of the side opposite
/// the wall rises by one and every ball returns to the play-area center,
/// keeping whatever velocity it had at impact. Any other collider changes
/// nothing.
pub fn on_collision_start(
    world: &mut World,
    score: &mut Score,
    side: BoundarySide,
    collider_is_ball: bool,
)
    requires
        collider_is_ball && side == BoundarySide::Start ==> old(score).player2 < u32::MAX,
        collider_is_ball && side == BoundarySide::End ==> old(score).player1 < u32::MAX,
    ensures
        final(score)@ == apply_event(old(score)@, GoalEvent { side, is_ball: collider_is_ball }),
        final(world).next_id == old(world).next_id,
        final(world).entities@.len() == old(world).entities@.len(),
        !collider_is_ball ==> final(world).entities@ == old(world).entities@,
        collider_is_ball ==> forall|i: int|
            #![trigger old(world).entities@[i]]
            0 <= i < old(world).entities@.len() ==> {
                let e = old(world).entities@[i];
                match e.kind {
                    EntityKind::Ball { x: _, y: _, velocity_x, velocity_y } => final(world).entities@[i]
                        == (Entity {
                        id: e.id,
                        tag: e.tag,
                        kind: EntityKind::Ball { x: 0, y: 0, velocity_x, velocity_y },
                    }),
                    _ => final(world).entities@[i] == e,
                }
            },
{
    score.record_event(GoalEvent { side, is_ball: collider_is_ball });
    if !collider_is_ball {
        return ;
    }
    let n = world.entities.len();
    let mut i: usize = 0;
    while i < n
        invariant
            n == world.entities@.len(),
            world.entities@.len() == old(world).entities@.len(),
            world.next_id == old(world).next_id,
            i <= n,
            forall|j: int|
                i <= j < n ==> world.entities@[j] == old(world).entities@[j],
            forall|j: int|
                #![trigger old(world).entities@[j]]
                0 <= j < i ==> {
                    let e = old(world).entities@[j];
                    match e.kind {
                        EntityKind::Ball { x: _, y: _, velocity_x, velocity_y } => world.entities@[j]
                            == (Entity {
                            id: e.id,
                            tag: e.tag,
                            kind: EntityKind::Ball { x: 0, y: 0, velocity_x, velocity_y },
                        }),
                        _ => world.entities@[j] == e,
                    }
                },
        decreases n - i,
    {
        let id = world.entities[i].id;
        let tag = world.entities[i].tag;
        let mut update: Option<EntityKind> = None;
        match &world.entities[i].kind {
            EntityKind::Ball { x: _, y: _, velocity_x, velocity_y } => {
                update = Some(
                    EntityKind::Ball { x: 0, y: 0, velocity_x: *velocity_x, velocity_y: *velocity_y },
                );
            },
            _ => {},
        }
        match update {
            Some(kind) => {
                world.entities[i] = Entity { id, tag, kind };
            },
            None => {},
        }
        i = i + 1;
    }
}

} // verus!
