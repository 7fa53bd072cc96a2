use glider::game::effects::{fade_step, FadeState};
use glider::game::rider::Rider;

#[test]
fn jump_only_from_the_ground() {
    let mut r = Rider::new();
    assert!(r.on_ground());
    assert!(!r.jump(false));
    assert!(r.on_ground());
    assert!(r.jump(true));
    assert!(!r.on_ground());
    assert!(!r.jump(true));
}

#[test]
fn tap_only_jumps() {
    let mut r = Rider::new();
    assert!(r.jump(true));
    // take-off frame: pressed and held, rotation still short of a backflip
    assert_eq!(r.settle(false, true, false), None);
    assert!(!r.backflip_happened());
    assert_eq!(r.settle(false, false, false), None);
    assert_eq!(r.settle(true, false, false), Some(false));
    assert!(r.on_ground());
}

#[test]
fn held_spin_is_a_backflip_reported_at_touchdown() {
    let mut r = Rider::new();
    r.jump(true);
    assert_eq!(r.settle(false, true, false), None);
    assert!(!r.backflip_happened());
    assert_eq!(r.settle(false, true, true), None);
    assert!(r.backflip_happened());
    assert_eq!(r.settle(false, false, true), None);
    assert!(r.backflip_happened());
    assert_eq!(r.settle(true, true, true), Some(true));
    assert!(!r.backflip_happened());
    assert!(r.on_ground());
    assert_eq!(r.settle(true, true, true), None);
}

#[test]
fn spin_without_hold_is_no_backflip() {
    let mut r = Rider::new();
    r.jump(true);
    assert_eq!(r.settle(false, false, true), None);
    assert_eq!(r.settle(true, false, true), Some(false));
}

#[test]
fn jump_starts_a_fresh_airtime() {
    let mut r = Rider::new();
    r.jump(true);
    r.settle(false, true, true);
    r.settle(true, false, false);
    r.jump(true);
    assert!(!r.backflip_happened());
    // falling off an edge without jumping is airtime too
    let mut f = Rider::new();
    assert_eq!(f.settle(false, true, true), None);
    assert!(f.backflip_happened());
    assert_eq!(f.settle(true, false, false), Some(true));
}

#[test]
fn entrance_drops_then_stands() {
    let mut r = Rider::new();
    r.jump(true);
    r.settle(false, true, true);
    r.start_entrance();
    assert!(!r.on_ground());
    assert!(!r.backflip_happened());
    r.finish_entrance();
    assert!(r.on_ground());
    assert!(!r.backflip_happened());
}

#[test]
fn fade_transitions() {
    assert_eq!(fade_step(FadeState::FadingOut, false), FadeState::FadingOut);
    assert_eq!(fade_step(FadeState::FadingOut, true), FadeState::HoldBlack);
    assert_eq!(fade_step(FadeState::FadingIn, false), FadeState::FadingIn);
    assert_eq!(fade_step(FadeState::FadingIn, true), FadeState::Idle);
    assert_eq!(fade_step(FadeState::HoldBlack, true), FadeState::HoldBlack);
    assert_eq!(fade_step(FadeState::Idle, true), FadeState::Idle);
}
