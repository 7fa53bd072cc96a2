use glider::game::combo::{Combo, Landing};
use glider::game::flow::{
    frame_step, game_over_best_note, screen_code, BestNote, GameState, Session,
};

#[test]
fn screen_codes() {
    assert_eq!(screen_code(GameState::Playing), 1);
    assert_eq!(screen_code(GameState::Paused), 2);
    assert_eq!(screen_code(GameState::GameOver), 3);
}

#[test]
fn playing_frame_simulates_unless_back() {
    let f = frame_step(GameState::Playing, false, true);
    assert_eq!(f.state, GameState::Playing);
    assert_eq!(f.screen, GameState::Playing);
    assert!(f.simulate && !f.restart);
    let f = frame_step(GameState::Playing, true, false);
    assert_eq!(f.state, GameState::Paused);
    assert_eq!(f.screen, GameState::Paused);
    assert!(!f.simulate && !f.restart);
}

#[test]
fn paused_resumes_on_back_or_enter() {
    let f = frame_step(GameState::Paused, false, false);
    assert_eq!(f.state, GameState::Paused);
    assert!(!f.simulate);
    assert_eq!(frame_step(GameState::Paused, true, false).state, GameState::Playing);
    let f = frame_step(GameState::Paused, false, true);
    assert_eq!(f.state, GameState::Playing);
    assert_eq!(f.screen, GameState::Paused);
    assert!(!f.simulate && !f.restart);
}

#[test]
fn game_over_waits_for_enter() {
    let f = frame_step(GameState::GameOver, true, false);
    assert_eq!(f.state, GameState::GameOver);
    assert_eq!(f.screen, GameState::GameOver);
    assert!(!f.restart && !f.simulate);
    let f = frame_step(GameState::GameOver, false, true);
    assert_eq!(f.state, GameState::Playing);
    assert!(f.restart && !f.simulate);
}

#[test]
fn pause_round_trip_keeps_run() {
    let mut s = Session::new(50);
    s.land(true, true);
    let f = s.frame(true, false);
    assert_eq!(s.state(), GameState::Paused);
    assert!(!f.simulate);
    s.frame(false, false);
    assert_eq!(s.state(), GameState::Paused);
    s.frame(true, false);
    assert_eq!(s.state(), GameState::Playing);
    assert_eq!(s.combo_halves(), 3);
    assert_eq!(s.hi_score(), 50);
}

#[test]
fn crash_records_best_and_resets_combo() {
    let mut s = Session::new(100);
    s.land(true, true);
    s.land(true, true);
    assert_eq!(s.combo_halves(), 4);
    assert_eq!(s.kill(250), Some(250));
    assert_eq!(s.state(), GameState::GameOver);
    assert_eq!(s.hi_score(), 250);
    assert_eq!(s.combo_halves(), 2);
    assert_eq!(s.kill(999), None);
    assert_eq!(s.hi_score(), 250);
}

#[test]
fn crash_below_best_keeps_best() {
    let mut s = Session::new(300);
    assert_eq!(s.kill(120), None);
    assert_eq!(s.hi_score(), 300);
    assert_eq!(s.state(), GameState::GameOver);
    let mut t = Session::new(300);
    assert_eq!(t.kill(300), None);
    assert_eq!(t.hi_score(), 300);
}

#[test]
fn restart_starts_fresh_run() {
    let mut s = Session::new(0);
    s.land(true, true);
    s.kill(80);
    s.land(true, true);
    let f = s.frame(false, true);
    assert!(f.restart);
    assert_eq!(s.state(), GameState::Playing);
    assert_eq!(s.combo_halves(), 2);
    assert_eq!(s.hi_score(), 80);
}

#[test]
fn combo_rules() {
    let mut c = Combo::new();
    assert_eq!(c.multiplier_halves(), 2);
    assert_eq!(c.land(true, true), Landing::CleanBackflip);
    assert_eq!(c.multiplier_halves(), 3);
    assert_eq!(c.land(true, false), Landing::Clean);
    assert_eq!(c.multiplier_halves(), 3);
    assert_eq!(c.land(true, true), Landing::CleanBackflip);
    assert_eq!(c.multiplier_halves(), 4);
    assert_eq!(c.land(false, true), Landing::Rough);
    assert_eq!(c.multiplier_halves(), 2);
    c.land(true, true);
    assert_eq!(c.land(false, false), Landing::Rough);
    assert_eq!(c.multiplier_halves(), 2);
    c.land(true, true);
    c.reset();
    assert_eq!(c.multiplier_halves(), 2);
}

#[test]
fn best_note_lines() {
    assert_eq!(game_over_best_note(10, 0), BestNote::Hidden);
    assert_eq!(game_over_best_note(0, -3), BestNote::Hidden);
    assert_eq!(game_over_best_note(250, 250), BestNote::NewBest);
    assert_eq!(game_over_best_note(251, 250), BestNote::NewBest);
    assert_eq!(game_over_best_note(120, 250), BestNote::Best(250));
}

#[test]
fn beaten_best_is_announced() {
    let mut s = Session::new(40);
    s.kill(90);
    assert_eq!(game_over_best_note(90, s.hi_score()), BestNote::NewBest);
}
