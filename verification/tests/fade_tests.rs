use pong_core::fade::{Fade, FADE_MILLIS};
use pong_core::screen::Screen;

#[test]
fn fade_out_uses_the_default_duration() {
    let f = Fade::fade_out(Screen::Title);
    assert_eq!(f.target, Screen::Title);
    assert_eq!(f.duration_ms, FADE_MILLIS);
    assert_eq!(f.elapsed_ms, 0);
    assert!(!f.requested);
}

#[test]
fn fade_requests_its_transition_exactly_once() {
    let mut f = Fade::fade_to(Screen::Title, 100);
    assert_eq!(f.tick(60), None);
    assert_eq!(f.tick(60), Some(Screen::Title));
    assert_eq!(f.tick(60), None);
    assert_eq!(f.tick(1000), None);
}

#[test]
fn fade_fires_whatever_the_frame_slicing() {
    let mut coarse = Fade::fade_to(Screen::Gameplay, 90);
    let mut requests: u32 = 0;
    for _ in 0..3 {
        if coarse.tick(45).is_some() {
            requests += 1;
        }
    }
    assert_eq!(requests, 1);

    let mut fine = Fade::fade_to(Screen::Gameplay, 90);
    requests = 0;
    for _ in 0..90 {
        if fine.tick(1).is_some() {
            requests += 1;
        }
    }
    assert_eq!(requests, 1);
}

#[test]
fn fade_short_of_its_duration_requests_nothing() {
    let mut f = Fade::fade_to(Screen::Title, 1000);
    for _ in 0..9 {
        assert_eq!(f.tick(100), None);
    }
    assert_eq!(f.tick(100), Some(Screen::Title));
}

#[test]
fn opacity_rises_then_falls() {
    let mut f = Fade::fade_to(Screen::Title, 100);
    assert_eq!(f.opacity_permille(), 0);
    f.tick(25);
    assert_eq!(f.opacity_permille(), 500);
    f.tick(25);
    assert_eq!(f.opacity_permille(), 1000);
    f.tick(25);
    assert_eq!(f.opacity_permille(), 500);
    f.tick(25);
    assert_eq!(f.opacity_permille(), 0);
    f.tick(100);
    assert_eq!(f.opacity_permille(), 0);
}
