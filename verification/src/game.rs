//! The composition root: the whole game's state, the resources `plugin`
//! installs, and the two ordered frame phases — the state flush that
//! commits screen transitions (exit hooks, then enter hooks), and the
//! per-frame update that runs the active screen's hooks and drives fades.

use crate::fade::{spec_tick, Fade, FADE_MILLIS};
use crate::gameplay::{
    add_ball, add_boundaries, add_players, add_score, ball_velocity, boundary_entities,
    down_held, move_players, net_velocity, player_speed, up_held, update_score,
    DirectionalInput, PLAYER_OFFSET_X,
};
use crate::lifecycle::{surviving, Entity, EntityKind, PlayerSide, World};
use crate::progress::{spec_observe, ProgressObserver, ProgressState, ProgressTracker};
use crate::score::{Score, ScoreView};
use crate::screen::{Screen, ScreenMachine};
use crate::text::score_line;
use crate::widget::{column_center, Layout, NodeContent, NodeStyle, ThemeColor, UiNode, Val};
use vstd::prelude::*;

verus! {

/// Everything the engine hands the policy layer for one frame: elapsed
/// time, held keys, the random draw for a ball spawn, and the viewport.
#[derive(Clone, Copy, Debug, PartialEq, Eq, Structural)]
pub struct FrameInput {
    pub delta_ms: u64,
    pub keys: DirectionalInput,
    pub ball_direction_choice: u8,
    pub viewport_width: u32,
    pub viewport_height: u32,
}

/// The game's whole policy state: the screen machine, the two shared
/// resources (score, progress), the entity store, the in-flight fade, and
/// the physics defaults installed at startup.
pub struct GameApp {
    pub machine: ScreenMachine,
    pub score: Score,
    pub progress: ProgressTracker,
    pub world: World,
    pub fade: Option<Fade>,
    pub splash_observer: ProgressObserver,
    /// Default friction of spawned colliders, in thousandths.
    pub friction_permille: u64,
    /// Default restitution of spawned colliders, in thousandths.
    pub restitution_permille: u64,
}

/// Whether `n` is the splash screen's UI: a centered column holding the
/// splash image, tinted with the body-text color, at seven tenths of the
/// viewport width.
pub open spec fn is_splash_ui(n: UiNode) -> bool {
    &&& n.name@ == "ColumnCenter"@
    &&& n.style == (NodeStyle {
        layout: Layout::ColumnCenter,
        width: Val::PercentTenths(1000),
        height: Val::PercentTenths(1000),
        ..NodeStyle::spec_plain()
    })
    &&& n.children@.len() == 1
    &&& n.children@[0].name@ == "SplashImage"@
    &&& n.children@[0].style.width == Val::VwTenths(700)
    &&& n.children@[0].content matches NodeContent::Image { color } && color
        == ThemeColor::BodyText
    &&& n.children@[0].children@.len() == 0
}

/// Whether `e` is the score readout entity for score `s` under handle `id`.
pub open spec fn is_scoreboard_for(e: Entity, id: u64, s: ScoreView) -> bool {
    &&& e.id == id
    &&& e.tag == Screen::Gameplay
    &&& e.kind matches EntityKind::ScoreBoard { text } && text@ == score_line(s.player1, s.player2)
}

/// How many entities entering a screen spawns.
pub open spec fn enter_count(s: Screen) -> nat {
    match s {
        Screen::Splash => 1,
        Screen::Title => 0,
        Screen::Gameplay => 8,
    }
}

/// What the enter hooks of screen `s` leave in the store: the splash UI
/// for `Splash`; the score readout, the two paddles, the ball and the four
/// boundary walls, in that order, for `Gameplay`.
pub open spec fn entered_entities_ok(
    s: Screen,
    es: Seq<Entity>,
    first_id: u64,
    score: ScoreView,
    input: FrameInput,
) -> bool {
    match s {
        Screen::Splash => {
            &&& es.len() == 1
            &&& es[0].id == first_id
            &&& es[0].tag == Screen::Splash
            &&& es[0].kind matches EntityKind::Ui(n) && is_splash_ui(n)
        },
        Screen::Title => es.len() == 0,
        Screen::Gameplay => {
            &&& es.len() == 8
            &&& is_scoreboard_for(es[0], first_id, score)
            &&& es[1] == (Entity {
                id: (first_id + 1) as u64,
                tag: Screen::Gameplay,
                kind: EntityKind::Player {
                    side: PlayerSide::One,
                    x: (-(PLAYER_OFFSET_X as int)) as i64,
                    y: 0,
                    velocity_y: 0,
                },
            })
            &&& es[2] == (Entity {
                id: (first_id + 2) as u64,
                tag: Screen::Gameplay,
                kind: EntityKind::Player {
                    side: PlayerSide::Two,
                    x: PLAYER_OFFSET_X,
                    y: 0,
                    velocity_y: 0,
                },
            })
            &&& es[3] == (Entity {
                id: (first_id + 3) as u64,
                tag: Screen::Gameplay,
                kind: EntityKind::Ball {
                    x: 0,
                    y: 0,
                    velocity_x: ball_velocity(input.ball_direction_choice).0 as i64,
                    velocity_y: ball_velocity(input.ball_direction_choice).1 as i64,
                },
            })
            &&& es.skip(4) == boundary_entities(
                (first_id + 4) as u64,
                input.viewport_width,
                input.viewport_height,
            )
        },
    }
}

/// Spawns the splash screen's UI, tagged to the splash screen.
pub fn spawn_splash_screen(world: &mut World)
    requires
        old(world).next_id < u64::MAX,
    ensures
        final(world).next_id == old(world).next_id + 1,
        final(world).entities@.len() == old(world).entities@.len() + 1,
        forall|j: int|
            0 <= j < old(world).entities@.len() ==> final(world).entities@[j] == old(
                world,
            ).entities@[j],
        final(world).entities@.last().id == old(world).next_id,
        final(world).entities@.last().tag == Screen::Splash,
        final(world).entities@.last().kind matches EntityKind::Ui(n) && is_splash_ui(n),
{
    let mut image_style = NodeStyle::plain();
    image_style.width = Val::VwTenths(700);
    let image = UiNode {
        name: String::from_str("SplashImage"),
        style: image_style,
        content: NodeContent::Image { color: ThemeColor::BodyText },
        pickable_ignore: false,
        focus_block: false,
        z_index: 0,
        border_color: None,
        background: None,
        children: Vec::new(),
    };
    let mut children: Vec<UiNode> = Vec::new();
    children.push(image);
    let column = column_center(children);
    world.spawn(Screen::Splash, EntityKind::Ui(column));
}

/// The splash screen's per-frame hook: watches the splash screen's loading
/// progress and, on the single frame where it completes, starts the fade to
/// the title screen — overwriting any fade already in flight.
pub fn update_splash(
    progress: &ProgressTracker,
    observer: &mut ProgressObserver,
    fade: &mut Option<Fade>,
)
    ensures
        ({
            let snap = progress.spec_of(Screen::Splash);
            let (edge, last) = spec_observe(old(observer).last_done, snap.done, snap.total);
            &&& final(observer).last_done == last
            &&& (edge ==> *final(fade) == Some(
                Fade {
                    target: Screen::Title,
                    duration_ms: FADE_MILLIS,
                    elapsed_ms: 0,
                    requested: false,
                },
            ))
            &&& (!edge ==> *final(fade) == *old(fade))
        }),
{
    let (done, total) = progress.combined_progress(Screen::Splash);
    let edge = observer.observe(done, total);
    if edge {
        *fade = Some(Fade::fade_out(Screen::Title));
    }
}

/// An in-flight fade advanced by one frame: the fade afterwards, and the
/// transition request it emits, if any.
pub open spec fn ticked_fade(f: Option<Fade>, dt: u64) -> (Option<Fade>, Option<Screen>) {
    match f {
        None => (None::<Fade>, None::<Screen>),
        Some(f0) => {
            let r = spec_tick(f0, dt);
            (Some(r.0), r.1)
        },
    }
}

impl GameApp {
    /// A fresh app: in the splash screen with nothing pending, zero scores,
    /// no registered loading work, an empty world and no fade.
    pub fn new() -> (app: GameApp)
        ensures
            app.machine.current == Screen::Splash,
            app.machine.pending is None,
            app.score@ == (ScoreView { player1: 0, player2: 0 }),
            app.progress.wf(),
            forall|s: Screen| app.progress.spec_of(s) == (ProgressState { done: 0, total: 0 }),
            app.world.entities@.len() == 0,
            app.world.next_id == 0,
            app.fade is None,
            app.splash_observer.last_done == 0,
            app.friction_permille == 0,
            app.restitution_permille == 1000,
    {
        GameApp {
            machine: ScreenMachine::new(),
            score: Score::new(),
            progress: ProgressTracker::new(),
            world: World::new(),
            fade: None,
            splash_observer: ProgressObserver::new(),
            friction_permille: 0,
            restitution_permille: 1000,
        }
    }
}

/// Installs the startup resources: a zero score, frictionless colliders
/// and perfectly elastic restitution. Everything else is left as it is.
pub fn plugin(app: &mut GameApp)
    ensures
        final(app).score@ == (ScoreView { player1: 0, player2: 0 }),
        final(app).friction_permille == 0,
        final(app).restitution_permille == 1000,
        final(app).machine == old(app).machine,
        final(app).progress == old(app).progress,
        final(app).world == old(app).world,
        final(app).fade == old(app).fade,
        final(app).splash_observer == old(app).splash_observer,
{
    app.score = Score::new();
    app.friction_permille = 0;
    app.restitution_permille = 1000;
}

impl GameApp {
    /// The state-flush phase: commits a pending screen transition. The exit
    /// hooks destroy every entity tagged with the exited screen and drop
    /// the finished fade; then the new screen is committed, its tracked
    /// progress returns to zero (contributors re-register on enter), and
    /// its enter hooks spawn its entities. Scores survive transitions.
    /// With no transition pending, nothing changes.
    pub fn state_flush(&mut self, input: FrameInput)
        requires
            old(self).progress.wf(),
            old(self).world.next_id < u64::MAX - 8,
        ensures
            final(self).machine.pending is None,
            final(self).progress.wf(),
            final(self).score == old(self).score,
            final(self).splash_observer == old(self).splash_observer,
            final(self).friction_permille == old(self).friction_permille,
            final(self).restitution_permille == old(self).restitution_permille,
            old(self).machine.pending is None ==> *final(self) == *old(self),
            old(self).machine.pending matches Some(t) ==> {
                let from = old(self).machine.current;
                let kept = surviving(old(self).world.entities@, from);
                &&& final(self).machine.current == t
                &&& final(self).fade is None
                &&& final(self).progress.spec_of(t) == (ProgressState { done: 0, total: 0 })
                &&& forall|s: Screen|
                    s != t ==> final(self).progress.spec_of(s) == old(self).progress.spec_of(s)
                &&& final(self).world.entities@.len() == kept.len() + enter_count(t)
                &&& final(self).world.entities@.take(kept.len() as int) == kept
                &&& entered_entities_ok(
                    t,
                    final(self).world.entities@.skip(kept.len() as int),
                    old(self).world.next_id,
                    old(self).score@,
                    input,
                )
            },
    {
        let flushed = self.machine.flush();
        match flushed {
            None => {},
            Some((from, to)) => {
                self.world.despawn_tagged(from);
                self.fade = None;
                self.progress.reset(to);
                let ghost kept = self.world.entities@;
                match to {
                    Screen::Splash => {
                        spawn_splash_screen(&mut self.world);
                    },
                    Screen::Title => {},
                    Screen::Gameplay => {
                        add_score(&mut self.world, &self.score);
                        add_players(&mut self.world);
                        add_ball(&mut self.world, input.ball_direction_choice);
                        add_boundaries(
                            &mut self.world,
                            input.viewport_width,
                            input.viewport_height,
                        );
                    },
                }
                proof {
                    assert(self.world.entities@.take(kept.len() as int) =~= kept);
                    if to == Screen::Gameplay {
                        assert(self.world.entities@.skip(kept.len() as int).skip(4)
                            =~= self.world.entities@.skip(kept.len() as int + 4));
                        assert(self.world.entities@.skip(kept.len() as int + 4)
                            =~= boundary_entities(
                            (old(self).world.next_id + 4) as u64,
                            input.viewport_width,
                            input.viewport_height,
                        ));
                    }
                }
            },
        }
    }

    /// The per-frame update phase. The in-flight fade accumulates this
    /// frame's delta and, when it finishes, requests its transition. Then
    /// the active screen's hooks run: in the splash screen the loading
    /// watcher (which may start the fade to the title screen); in gameplay
    /// the paddles take their velocity from the held keys and the score
    /// readout is refreshed. Screens, scores and progress do not change
    /// here.
    pub fn update(&mut self, input: FrameInput)
        requires
            player_speed(input.delta_ms) <= i64::MAX,
        ensures
            final(self).machine.current == old(self).machine.current,
            final(self).score == old(self).score,
            final(self).progress == old(self).progress,
            final(self).friction_permille == old(self).friction_permille,
            final(self).restitution_permille == old(self).restitution_permille,
            final(self).world.next_id == old(self).world.next_id,
            ({
                let (f1, req) = ticked_fade(old(self).fade, input.delta_ms);
                let pend = if req is Some {
                    req
                } else {
                    old(self).machine.pending
                };
                &&& final(self).machine.pending == pend
                &&& (old(self).machine.current != Screen::Splash ==> final(self).fade == f1
                    && final(self).splash_observer == old(self).splash_observer)
                &&& (old(self).machine.current == Screen::Splash ==> {
                    let snap = old(self).progress.spec_of(Screen::Splash);
                    let (edge, last) = spec_observe(
                        old(self).splash_observer.last_done,
                        snap.done,
                        snap.total,
                    );
                    &&& final(self).splash_observer.last_done == last
                    &&& (edge ==> final(self).fade == Some(
                        Fade {
                            target: Screen::Title,
                            duration_ms: FADE_MILLIS,
                            elapsed_ms: 0,
                            requested: false,
                        },
                    ))
                    &&& (!edge ==> final(self).fade == f1)
                })
            }),
            old(self).machine.current != Screen::Gameplay ==> final(self).world == old(self).world,
            old(self).machine.current == Screen::Gameplay ==> {
                &&& final(self).world.entities@.len() == old(self).world.entities@.len()
                &&& forall|i: int|
                    #![trigger old(self).world.entities@[i]]
                    0 <= i < old(self).world.entities@.len() ==> {
                        let e = old(self).world.entities@[i];
                        match e.kind {
                            EntityKind::Player { side, x, y, velocity_y: _ } => final(self).world.entities@[i]
                                == (Entity {
                                id: e.id,
                                tag: e.tag,
                                kind: EntityKind::Player {
                                    side,
                                    x,
                                    y,
                                    velocity_y: net_velocity(
                                        up_held(input.keys, side),
                                        down_held(input.keys, side),
                                        player_speed(input.delta_ms),
                                    ) as i64,
                                },
                            }),
                            EntityKind::ScoreBoard { text: _ } => {
                                &&& final(self).world.entities@[i].id == e.id
                                &&& final(self).world.entities@[i].tag == e.tag
                                &&& final(self).world.entities@[i].kind matches EntityKind::ScoreBoard { text }
                                    && text@ == score_line(
                                    old(self).score@.player1,
                                    old(self).score@.player2,
                                )
                            },
                            _ => final(self).world.entities@[i] == e,
                        }
                    }
            },
    {
        let mut request: Option<Screen> = None;
        match &mut self.fade {
            Some(f) => {
                request = f.tick(input.delta_ms);
            },
            None => {},
        }
        match request {
            Some(t) => self.machine.request_transition(t),
            None => {},
        }
        match self.machine.current {
            Screen::Splash => {
                update_splash(&self.progress, &mut self.splash_observer, &mut self.fade);
            },
            Screen::Title => {},
            Screen::Gameplay => {
                move_players(&mut self.world, input.keys, input.delta_ms);
                update_score(&mut self.world, &self.score);
            },
        }
    }
}

} // verus!
