use pong_core::progress::{ProgressObserver, ProgressTracker};
use pong_core::screen::Screen;
use pong_core::widget::fill_permille;

#[test]
fn registering_work_grows_total_only() {
    let mut t = ProgressTracker::new();
    t.register_contributor(Screen::Splash, 3);
    assert_eq!(t.combined_progress(Screen::Splash), (0, 3));
    t.register_contributor(Screen::Splash, 2);
    assert_eq!(t.combined_progress(Screen::Splash), (0, 5));
    assert_eq!(t.combined_progress(Screen::Gameplay), (0, 0));
}

#[test]
fn reporting_done_is_clamped_to_total() {
    let mut t = ProgressTracker::new();
    t.register_contributor(Screen::Splash, 3);
    t.report_done(Screen::Splash, 2);
    assert_eq!(t.combined_progress(Screen::Splash), (2, 3));
    t.report_done(Screen::Splash, 5);
    assert_eq!(t.combined_progress(Screen::Splash), (3, 3));
}

#[test]
fn done_never_exceeds_total() {
    let mut t = ProgressTracker::new();
    t.report_done(Screen::Title, 10);
    assert_eq!(t.combined_progress(Screen::Title), (0, 0));
    t.register_contributor(Screen::Title, 1);
    t.report_done(Screen::Title, u32::MAX);
    let (done, total) = t.combined_progress(Screen::Title);
    assert!(done <= total);
    assert_eq!((done, total), (1, 1));
}

#[test]
fn screens_are_tracked_independently() {
    let mut t = ProgressTracker::new();
    t.register_contributor(Screen::Splash, 4);
    t.register_contributor(Screen::Gameplay, 9);
    t.report_done(Screen::Gameplay, 1);
    assert_eq!(t.combined_progress(Screen::Splash), (0, 4));
    assert_eq!(t.combined_progress(Screen::Gameplay), (1, 9));
}

#[test]
fn reset_zeroes_one_screen_only() {
    let mut t = ProgressTracker::new();
    t.register_contributor(Screen::Splash, 4);
    t.report_done(Screen::Splash, 4);
    t.register_contributor(Screen::Title, 2);
    t.reset(Screen::Splash);
    assert_eq!(t.combined_progress(Screen::Splash), (0, 0));
    assert_eq!(t.combined_progress(Screen::Title), (0, 2));
}

#[test]
fn completion_edge_fires_on_the_completing_frame_only() {
    let mut o = ProgressObserver::new();
    assert!(!o.observe(0, 3));
    assert!(!o.observe(1, 3));
    assert!(!o.observe(2, 3));
    assert!(o.observe(3, 3));
    assert!(!o.observe(3, 3));
    assert!(!o.observe(3, 3));
}

#[test]
fn edge_does_not_fire_while_done_is_constant() {
    let mut o = ProgressObserver::new();
    assert!(!o.observe(0, 0));
    assert!(!o.observe(0, 0));
    let mut o2 = ProgressObserver::new();
    assert!(o2.observe(2, 2));
    for _ in 0..10 {
        assert!(!o2.observe(2, 2));
    }
}

#[test]
fn fill_permille_is_the_exact_fraction() {
    assert_eq!(fill_permille(1, 3), 333);
    assert_eq!(fill_permille(2, 3), 666);
    assert_eq!(fill_permille(3, 3), 1000);
    assert_eq!(fill_permille(0, 5), 0);
    assert_eq!(fill_permille(1, 2), 500);
}
