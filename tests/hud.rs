use crabbit::components::hud::{Hud, Score, Splash, SplashState};
use crabbit::components::DynComp;
use crabbit::graphics::{Pos, Size};

fn screen() -> Size {
    Size { width: 80, height: 24 }
}

#[test]
fn score_starts_at_zero() {
    let s = Score::new();
    assert_eq!(s.current(), 0);
    assert_eq!(s.record(), 0);
    assert_eq!(s.curr_to_string(), "Score: 0000000000");
    assert_eq!(s.best_to_string(), "Record: 0000000000");
    let d = Score::default();
    assert_eq!(d.current(), 0);
}

#[test]
fn score_counts_frames() {
    let mut s = Score::new();
    for _ in 0..1234 {
        s.update();
    }
    assert_eq!(s.current(), 1234);
    assert_eq!(s.curr_to_string(), "Score: 0000001234");
    let line: String = s.curr_ascii_matrix().iter().collect();
    assert_eq!(line, "Score: 0000001234");
}

#[test]
fn score_reset_keeps_the_best() {
    let mut s = Score::new();
    for _ in 0..7 {
        s.update();
    }
    s.reset();
    assert_eq!(s.current(), 0);
    assert_eq!(s.record(), 7);
    for _ in 0..3 {
        s.update();
    }
    s.reset();
    assert_eq!(s.record(), 7);
    assert_eq!(s.best_to_string(), "Record: 0000000007");
    let line: String = s.best_ascii_matrix().iter().collect();
    assert_eq!(line, "Record: 0000000007");
}

#[test]
fn splash_is_centered() {
    let sp = Splash::new(&screen(), "Hello", "b".to_string(), "Paused", "m".to_string());
    assert!(sp.is_off());
    assert!(sp.shown().is_none());
    let mut sp = sp;
    sp.title();
    let o = sp.shown().unwrap();
    assert_eq!(o.pos, Pos { col: 39, row: 12 });
    assert_eq!(o.sprite.size(), (5, 1));
    assert_eq!(o.color, "b");
    sp.pause();
    assert_eq!(*sp.state(), SplashState::Pause);
    assert_eq!(sp.shown().unwrap().pos, Pos { col: 38, row: 12 });
    sp.off();
    assert!(sp.is_off());
    sp.title();
    sp.default_state();
    assert_eq!(*sp.state(), SplashState::OffScreen);
    assert_eq!(SplashState::default(), SplashState::OffScreen);
}

#[test]
fn splash_wider_than_screen_starts_at_column_one() {
    let sp = Splash::new(&Size { width: 4, height: 2 }, "a long title", String::new(), "p", String::new());
    let mut sp = sp;
    sp.title();
    assert_eq!(sp.shown().unwrap().pos, Pos { col: 1, row: 1 });
}

#[test]
fn hud_update_and_reset() {
    let mut hud = Hud::new(Splash::new(&screen(), "T", String::new(), "P", String::new()));
    hud.splash_mut().pause();
    hud.update();
    hud.update();
    assert_eq!(hud.score().current(), 2);
    assert!(!hud.splash().is_off());
    hud.reset();
    assert_eq!(hud.score().current(), 0);
    assert_eq!(hud.score().record(), 2);
    assert!(hud.splash().is_off());
    hud.score_mut().update();
    assert_eq!(hud.score().current(), 1);
}
