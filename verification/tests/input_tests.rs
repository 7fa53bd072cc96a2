use glider::input::tv_input_manager::{
    deliver_key_event, get_tv_input_manager, get_tv_input_manager_mut, init_tv_input_manager,
    TvAction, TvInputManager,
};

#[test]
fn new_manager_has_nothing_held() {
    let m = TvInputManager::new();
    assert!(!m.any_direction());
    assert!(!m.is_action_held());
    assert!(!m.action_just_pressed());
    assert!(!m.back_just_pressed());
    assert!(!m.up_just_pressed());
    assert!(!m.down_just_pressed());
    assert!(!m.left_just_pressed());
    assert!(!m.right_just_pressed());
    let d = TvInputManager::default();
    assert!(!d.any_direction() && !d.is_action_held() && !d.back);
}

#[test]
fn set_action_sets_only_that_action() {
    let mut m = TvInputManager::new();
    m.set_action(TvAction::Left, true);
    assert!(m.left);
    assert!(!m.up && !m.down && !m.right && !m.action && !m.back);
    assert!(m.any_direction());
    assert!(m.left_just_pressed());
    assert!(!m.right_just_pressed());
    m.set_action(TvAction::Left, false);
    assert!(!m.left);
    assert!(!m.any_direction());
}

#[test]
fn each_action_maps_to_its_field() {
    let mut m = TvInputManager::new();
    m.set_action(TvAction::Up, true);
    assert!(m.up && m.up_just_pressed());
    m.set_action(TvAction::Down, true);
    assert!(m.down && m.down_just_pressed());
    m.set_action(TvAction::Right, true);
    assert!(m.right && m.right_just_pressed());
    m.set_action(TvAction::Action, true);
    assert!(m.action && m.is_action_held() && m.action_just_pressed());
    m.set_action(TvAction::Back, true);
    assert!(m.back && m.back_just_pressed());
}

#[test]
fn press_pulses_for_one_frame() {
    let mut m = TvInputManager::new();
    m.sync_prev_from_current();
    m.set_action(TvAction::Action, true);
    assert!(m.action_just_pressed());
    m.sync_prev_from_current();
    assert!(!m.action_just_pressed());
    assert!(m.is_action_held());
    m.set_action(TvAction::Action, false);
    assert!(!m.action_just_pressed());
    m.sync_prev_from_current();
    m.set_action(TvAction::Action, true);
    assert!(m.action_just_pressed());
}

#[test]
fn sync_ends_every_pulse() {
    let mut m = TvInputManager::new();
    for a in [
        TvAction::Up,
        TvAction::Down,
        TvAction::Left,
        TvAction::Right,
        TvAction::Action,
        TvAction::Back,
    ] {
        m.set_action(a, true);
    }
    assert!(m.up_just_pressed() && m.back_just_pressed());
    m.sync_prev_from_current();
    assert!(!m.up_just_pressed());
    assert!(!m.down_just_pressed());
    assert!(!m.left_just_pressed());
    assert!(!m.right_just_pressed());
    assert!(!m.action_just_pressed());
    assert!(!m.back_just_pressed());
    assert!(m.any_direction());
    m.sync_prev_from_current();
    assert!(!m.back_just_pressed());
}

#[test]
fn release_never_pulses() {
    let mut m = TvInputManager::new();
    m.set_action(TvAction::Back, true);
    m.sync_prev_from_current();
    m.set_action(TvAction::Back, false);
    assert!(!m.back_just_pressed());
}

#[test]
fn last_set_wins_and_distinct_sets_commute() {
    let mut a = TvInputManager::new();
    a.set_action(TvAction::Up, true);
    a.set_action(TvAction::Up, false);
    assert!(!a.up);
    let mut b = TvInputManager::new();
    b.set_action(TvAction::Up, true);
    b.set_action(TvAction::Back, true);
    let mut c = TvInputManager::new();
    c.set_action(TvAction::Back, true);
    c.set_action(TvAction::Up, true);
    assert_eq!((b.up, b.back, b.up_just_pressed()), (c.up, c.back, c.up_just_pressed()));
}

#[test]
fn deliver_key_event_reaches_installed_manager() {
    let mut slot: Option<TvInputManager> = None;
    deliver_key_event(&mut slot, TvAction::Up, 1);
    assert!(slot.is_none());
    slot = Some(TvInputManager::new());
    deliver_key_event(&mut slot, TvAction::Up, 7);
    assert!(slot.as_ref().unwrap().up);
    deliver_key_event(&mut slot, TvAction::Up, 0);
    assert!(!slot.as_ref().unwrap().up);
    deliver_key_event(&mut slot, TvAction::Back, -1);
    assert!(slot.as_ref().unwrap().back);
}

#[test]
fn no_global_manager_outside_browser() {
    init_tv_input_manager();
    assert!(get_tv_input_manager().is_none());
    assert!(get_tv_input_manager_mut().is_none());
}

#[test]
fn per_action_getters() {
    let mut m = TvInputManager::new();
    for a in [
        TvAction::Up,
        TvAction::Down,
        TvAction::Left,
        TvAction::Right,
        TvAction::Action,
        TvAction::Back,
    ] {
        assert!(!m.is_held(a));
        m.set_action(a, true);
        assert!(m.is_held(a));
        assert!(!m.was_held_last_frame(a));
    }
    m.sync_prev_from_current();
    m.set_action(TvAction::Left, false);
    assert!(!m.is_held(TvAction::Left));
    assert!(m.was_held_last_frame(TvAction::Left));
    assert!(m.is_held(TvAction::Right) && m.was_held_last_frame(TvAction::Right));
}

#[test]
fn syncing_twice_equals_syncing_once() {
    let mut a = TvInputManager::new();
    let mut b = TvInputManager::new();
    a.set_action(TvAction::Back, true);
    b.set_action(TvAction::Back, true);
    a.sync_prev_from_current();
    a.sync_prev_from_current();
    b.sync_prev_from_current();
    for x in [TvAction::Up, TvAction::Back, TvAction::Action] {
        assert_eq!(a.is_held(x), b.is_held(x));
        assert_eq!(a.was_held_last_frame(x), b.was_held_last_frame(x));
    }
    assert_eq!(a.back_just_pressed(), b.back_just_pressed());
}
