use pong_core::lifecycle::{Entity, EntityKind, World};
use pong_core::score::{BoundarySide, GoalEvent, Score};
use pong_core::screen::Screen;
use pong_core::gameplay::on_collision_start;
use pong_core::text::{score_text, u32_string};

fn world_with_ball(x: i64, y: i64) -> World {
    let mut world = World::new();
    world.spawn(
        Screen::Gameplay,
        EntityKind::Ball { x, y, velocity_x: 200, velocity_y: -150 },
    );
    world
}

fn ball_position(world: &World) -> (i64, i64) {
    for e in &world.entities {
        if let Entity { kind: EntityKind::Ball { x, y, .. }, .. } = e {
            return (*x, *y);
        }
    }
    panic!("no ball in the world");
}

#[test]
fn score_starts_at_zero() {
    let s = Score::new();
    assert_eq!(s.player1, 0);
    assert_eq!(s.player2, 0);
}

#[test]
fn ball_on_start_wall_credits_player_two() {
    let mut world = world_with_ball(-390, 12);
    let mut score = Score::new();
    on_collision_start(&mut world, &mut score, BoundarySide::Start, true);
    assert_eq!(score.player1, 0);
    assert_eq!(score.player2, 1);
}

#[test]
fn ball_on_end_wall_credits_player_one() {
    let mut world = world_with_ball(390, -7);
    let mut score = Score::new();
    on_collision_start(&mut world, &mut score, BoundarySide::End, true);
    assert_eq!(score.player1, 1);
    assert_eq!(score.player2, 0);
}

#[test]
fn repeated_start_goals_accumulate_for_player_two_only() {
    let mut world = world_with_ball(-390, 0);
    let mut score = Score::new();
    for _ in 0..5 {
        on_collision_start(&mut world, &mut score, BoundarySide::Start, true);
    }
    assert_eq!(score.player1, 0);
    assert_eq!(score.player2, 5);
}

#[test]
fn non_ball_collision_changes_no_score() {
    let mut world = world_with_ball(100, 100);
    let mut score = Score::new();
    score.record_event(GoalEvent { side: BoundarySide::End, is_ball: true });
    assert_eq!((score.player1, score.player2), (1, 0));
    on_collision_start(&mut world, &mut score, BoundarySide::Start, false);
    on_collision_start(&mut world, &mut score, BoundarySide::End, false);
    assert_eq!((score.player1, score.player2), (1, 0));
}

#[test]
fn non_ball_collision_leaves_ball_where_it_was() {
    let mut world = world_with_ball(123, -45);
    let mut score = Score::new();
    on_collision_start(&mut world, &mut score, BoundarySide::Start, false);
    assert_eq!(ball_position(&world), (123, -45));
}

#[test]
fn goal_resets_ball_to_center_from_any_position() {
    for (x, y) in [(-390, 12), (390, -300), (0, 250), (17, 0)] {
        let mut world = world_with_ball(x, y);
        let mut score = Score::new();
        on_collision_start(&mut world, &mut score, BoundarySide::Start, true);
        assert_eq!(ball_position(&world), (0, 0));
    }
}

#[test]
fn goal_keeps_ball_velocity() {
    let mut world = World::new();
    world.spawn(
        Screen::Gameplay,
        EntityKind::Ball { x: 390, y: 3, velocity_x: -200, velocity_y: 150 },
    );
    let mut score = Score::new();
    on_collision_start(&mut world, &mut score, BoundarySide::End, true);
    match &world.entities[0].kind {
        EntityKind::Ball { x, y, velocity_x, velocity_y } => {
            assert_eq!((*x, *y), (0, 0));
            assert_eq!((*velocity_x, *velocity_y), (-200, 150));
        },
        _ => panic!("entity is not the ball"),
    }
}

#[test]
fn u32_string_renders_decimal_digits() {
    assert_eq!(u32_string(0), "0");
    assert_eq!(u32_string(7), "7");
    assert_eq!(u32_string(105), "105");
    assert_eq!(u32_string(4294967295), "4294967295");
}

#[test]
fn score_text_is_the_readout_line() {
    assert_eq!(score_text(0, 0), "0 - 0");
    assert_eq!(score_text(3, 12), "3 - 12");
    assert_eq!(score_text(10, 2), "10 - 2");
}
