use pong_core::game::{plugin, FrameInput, GameApp};
use pong_core::gameplay::{on_collision_start, DirectionalInput};
use pong_core::lifecycle::EntityKind;
use pong_core::score::BoundarySide;
use pong_core::screen::Screen;

fn frame() -> FrameInput {
    FrameInput {
        delta_ms: 16,
        keys: DirectionalInput { p1_up: false, p1_down: false, p2_up: false, p2_down: false },
        ball_direction_choice: 0,
        viewport_width: 800,
        viewport_height: 600,
    }
}

fn scoreboard_text(app: &GameApp) -> String {
    for e in &app.world.entities {
        if let EntityKind::ScoreBoard { text } = &e.kind {
            return text.clone();
        }
    }
    panic!("no score readout in the world");
}

fn ball_position(app: &GameApp) -> (i64, i64) {
    for e in &app.world.entities {
        if let EntityKind::Ball { x, y, .. } = &e.kind {
            return (*x, *y);
        }
    }
    panic!("no ball in the world");
}

#[test]
fn plugin_installs_the_startup_resources() {
    let mut app = GameApp::new();
    app.score.player1 = 9;
    plugin(&mut app);
    assert_eq!((app.score.player1, app.score.player2), (0, 0));
    assert_eq!(app.friction_permille, 0);
    assert_eq!(app.restitution_permille, 1000);
    assert_eq!(app.machine.current, Screen::Splash);
}

#[test]
fn splash_completion_edge_fires_once_and_fades_to_title() {
    let mut app = GameApp::new();
    plugin(&mut app);
    app.progress.register_contributor(Screen::Splash, 3);

    // Frame with nothing reported: no fade.
    app.state_flush(frame());
    app.update(frame());
    assert!(app.fade.is_none());

    // Frames where done reaches 1 and then 2: still no fade.
    app.progress.report_done(Screen::Splash, 1);
    app.state_flush(frame());
    app.update(frame());
    assert!(app.fade.is_none());

    app.progress.report_done(Screen::Splash, 1);
    app.state_flush(frame());
    app.update(frame());
    assert!(app.fade.is_none());

    // The frame where done moves 2 -> 3 == total: the fade to Title starts.
    app.progress.report_done(Screen::Splash, 1);
    app.state_flush(frame());
    app.update(frame());
    let started = app.fade.expect("the completing frame should start a fade");
    assert_eq!(started.target, Screen::Title);
    assert_eq!(started.elapsed_ms, 0);

    // Many more frames with done == total: the fade is never restarted and
    // exactly one transition request comes out of it.
    let mut requests: u32 = 0;
    for _ in 0..100 {
        app.state_flush(frame());
        app.update(frame());
        if app.machine.pending == Some(Screen::Title) {
            requests += 1;
        }
    }
    assert_eq!(requests, 1);
    app.state_flush(frame());
    assert_eq!(app.machine.current, Screen::Title);
    assert!(app.fade.is_none());
}

#[test]
fn entering_gameplay_spawns_the_whole_session() {
    let mut app = GameApp::new();
    plugin(&mut app);
    app.machine.request_transition(Screen::Gameplay);
    app.state_flush(frame());
    assert_eq!(app.machine.current, Screen::Gameplay);
    assert_eq!(app.world.entities.len(), 8);
    assert!(app.world.entities.iter().all(|e| e.tag == Screen::Gameplay));
    assert_eq!(scoreboard_text(&app), "0 - 0");
    assert_eq!(ball_position(&app), (0, 0));
}

#[test]
fn ball_reaching_the_end_boundary_scores_one_nil() {
    let mut app = GameApp::new();
    plugin(&mut app);
    app.machine.request_transition(Screen::Gameplay);
    app.state_flush(frame());

    // Knock the ball off-center first, then deliver the collision-start
    // event from the right ("end") goal wall.
    for e in &mut app.world.entities {
        if let EntityKind::Ball { x, y, .. } = &mut e.kind {
            *x = 405;
            *y = -33;
        }
    }
    on_collision_start(&mut app.world, &mut app.score, BoundarySide::End, true);
    assert_eq!((app.score.player1, app.score.player2), (1, 0));
    assert_eq!(ball_position(&app), (0, 0));

    // The readout catches up on the next update.
    app.update(frame());
    assert_eq!(scoreboard_text(&app), "1 - 0");
}

#[test]
fn leaving_gameplay_despawns_the_session_but_keeps_the_score() {
    let mut app = GameApp::new();
    plugin(&mut app);
    app.machine.request_transition(Screen::Gameplay);
    app.state_flush(frame());
    on_collision_start(&mut app.world, &mut app.score, BoundarySide::Start, true);

    app.machine.request_transition(Screen::Title);
    app.state_flush(frame());
    assert_eq!(app.machine.current, Screen::Title);
    assert_eq!(app.world.entities.len(), 0);
    assert_eq!((app.score.player1, app.score.player2), (0, 1));

    // Re-entering spawns a fresh session whose readout shows the kept score.
    app.machine.request_transition(Screen::Gameplay);
    app.state_flush(frame());
    assert_eq!(app.world.entities.len(), 8);
    assert_eq!(scoreboard_text(&app), "0 - 1");
}

#[test]
fn gameplay_update_moves_paddles_and_nothing_else() {
    let mut app = GameApp::new();
    plugin(&mut app);
    app.machine.request_transition(Screen::Gameplay);
    app.state_flush(frame());
    let mut input = frame();
    input.keys.p1_up = true;
    input.keys.p2_down = true;
    app.update(input);
    let mut seen: u32 = 0;
    for e in &app.world.entities {
        if let EntityKind::Player { side, velocity_y, .. } = &e.kind {
            match side {
                pong_core::lifecycle::PlayerSide::One => assert_eq!(*velocity_y, 400),
                pong_core::lifecycle::PlayerSide::Two => assert_eq!(*velocity_y, -400),
            }
            seen += 1;
        }
    }
    assert_eq!(seen, 2);
    assert_eq!(app.machine.current, Screen::Gameplay);
}

#[test]
fn entering_splash_spawns_its_ui() {
    let mut app = GameApp::new();
    plugin(&mut app);
    app.machine.request_transition(Screen::Gameplay);
    app.state_flush(frame());
    app.machine.request_transition(Screen::Splash);
    app.state_flush(frame());
    assert_eq!(app.world.entities.len(), 1);
    assert_eq!(app.world.entities[0].tag, Screen::Splash);
    match &app.world.entities[0].kind {
        EntityKind::Ui(n) => {
            assert_eq!(n.name, "ColumnCenter");
            assert_eq!(n.children.len(), 1);
            assert_eq!(n.children[0].name, "SplashImage");
        },
        _ => panic!("the splash entity is not a UI tree"),
    }
}
