//! TV input manager: maps D-pad / remote actions (Up, Down, Left, Right,
//! Action, Back) to game controls, with edge detection against the state
//! captured at the end of the previous frame.
use vstd::prelude::*;

verus! {

/// TV action types corresponding to the platform key mappings.
#[derive(Debug, Clone, Copy, PartialEq, Eq, Structural)]
pub enum TvAction {
    Up,
    Down,
    Left,
    Right,
    /// OK / Select: jump.
    Action,
    /// Return / Back: pause.
    Back,
}

/// Tracks the pressed state of each TV action, and the state it had when
/// the previous frame ended.
#[derive(Debug)]
pub struct TvInputManager {
    pub up: bool,
    pub down: bool,
    pub left: bool,
    pub right: bool,
    /// Jump / confirm.
    pub action: bool,
    /// Pause.
    pub back: bool,
    up_prev: bool,
    down_prev: bool,
    left_prev: bool,
    right_prev: bool,
    action_prev: bool,
    back_prev: bool,
}

impl TvInputManager {
    /// Whether `a` is held now.
    pub closed spec fn held(self, a: TvAction) -> bool {
        match a {
            TvAction::Up => self.up,
            TvAction::Down => self.down,
            TvAction::Left => self.left,
            TvAction::Right => self.right,
            TvAction::Action => self.action,
            TvAction::Back => self.back,
        }
    }

    /// Whether `a` was held when the previous frame ended.
    pub closed spec fn held_last_frame(self, a: TvAction) -> bool {
        match a {
            TvAction::Up => self.up_prev,
            TvAction::Down => self.down_prev,
            TvAction::Left => self.left_prev,
            TvAction::Right => self.right_prev,
            TvAction::Action => self.action_prev,
            TvAction::Back => self.back_prev,
        }
    }

    /// `a` went down during this frame: held now, not held last frame.
    pub open spec fn pulse(self, a: TvAction) -> bool {
        self.held(a) && !self.held_last_frame(a)
    }

    /// Nothing held, now or last frame.
    pub open spec fn is_idle(self) -> bool {
        forall|a: TvAction| !self.held(a) && !self.held_last_frame(a)
    }

    /// `self` and `other` agree on every action, now and last frame.
    pub open spec fn same_input(self, other: Self) -> bool {
        forall|a: TvAction|
            self.held(a) == other.held(a) && self.held_last_frame(a) == other.held_last_frame(a)
    }

    /// The manager after `set_action(a, pressed)`.
    pub closed spec fn after_set(self, a: TvAction, pressed: bool) -> Self {
        TvInputManager {
            up: if a == TvAction::Up { pressed } else { self.up },
            down: if a == TvAction::Down { pressed } else { self.down },
            left: if a == TvAction::Left { pressed } else { self.left },
            right: if a == TvAction::Right { pressed } else { self.right },
            action: if a == TvAction::Action { pressed } else { self.action },
            back: if a == TvAction::Back { pressed } else { self.back },
            ..self
        }
    }

    /// The manager after `sync_prev_from_current()`.
    pub closed spec fn after_sync(self) -> Self {
        TvInputManager {
            up_prev: self.up,
            down_prev: self.down,
            left_prev: self.left,
            right_prev: self.right,
            action_prev: self.action,
            back_prev: self.back,
            ..self
        }
    }

    /// A manager with nothing held.
    pub fn new() -> (m: Self)
        ensures
            m.is_idle(),
    {
        TvInputManager {
            up: false,
            down: false,
            left: false,
            right: false,
            action: false,
            back: false,
            up_prev: false,
            down_prev: false,
            left_prev: false,
            right_prev: false,
            action_prev: false,
            back_prev: false,
        }
    }

    /// Set an action's pressed state (called from the platform bridge).
    pub fn set_action(&mut self, action: TvAction, pressed: bool)
        ensures
            *final(self) == old(self).after_set(action, pressed),
            final(self).held(action) == pressed,
            forall|b: TvAction| b != action ==> final(self).held(b) == old(self).held(b),
            forall|b: TvAction| final(self).held_last_frame(b) == old(self).held_last_frame(b),
    {
        match action {
            TvAction::Up => self.up = pressed,
            TvAction::Down => self.down = pressed,
            TvAction::Left => self.left = pressed,
            TvAction::Right => self.right = pressed,
            TvAction::Action => self.action = pressed,
            TvAction::Back => self.back = pressed,
        }
    }

    /// Whether `action` is held now.
    pub fn is_held(&self, action: TvAction) -> (r: bool)
        ensures
            r == self.held(action),
    {
        match action {
            TvAction::Up => self.up,
            TvAction::Down => self.down,
            TvAction::Left => self.left,
            TvAction::Right => self.right,
            TvAction::Action => self.action,
            TvAction::Back => self.back,
        }
    }

    /// Whether `action` was held when the previous frame ended.
    pub fn was_held_last_frame(&self, action: TvAction) -> (r: bool)
        ensures
            r == self.held_last_frame(action),
    {
        match action {
            TvAction::Up => self.up_prev,
            TvAction::Down => self.down_prev,
            TvAction::Left => self.left_prev,
            TvAction::Right => self.right_prev,
            TvAction::Action => self.action_prev,
            TvAction::Back => self.back_prev,
        }
    }

    /// Whether any directional input is held.
    pub fn any_direction(&self) -> (r: bool)
        ensures
            r == (self.held(TvAction::Up) || self.held(TvAction::Down) || self.held(
                TvAction::Left,
            ) || self.held(TvAction::Right)),
    {
        self.up || self.down || self.left || self.right
    }

    /// Held Action (OK), as for the jump / backflip hold.
    pub fn is_action_held(&self) -> (r: bool)
        ensures
            r == self.held(TvAction::Action),
    {
        self.action
    }

    /// One-frame pulse when Action goes down.
    pub fn action_just_pressed(&self) -> (r: bool)
        ensures
            r == self.pulse(TvAction::Action),
    {
        self.action && !self.action_prev
    }

    /// One-frame pulse when Back goes down.
    pub fn back_just_pressed(&self) -> (r: bool)
        ensures
            r == self.pulse(TvAction::Back),
    {
        self.back && !self.back_prev
    }

    /// One-frame pulse when Up goes down.
    pub fn up_just_pressed(&self) -> (r: bool)
        ensures
            r == self.pulse(TvAction::Up),
    {
        self.up && !self.up_prev
    }

    /// One-frame pulse when Down goes down.
    pub fn down_just_pressed(&self) -> (r: bool)
        ensures
            r == self.pulse(TvAction::Down),
    {
        self.down && !self.down_prev
    }

    /// One-frame pulse when Left goes down.
    pub fn left_just_pressed(&self) -> (r: bool)
        ensures
            r == self.pulse(TvAction::Left),
    {
        self.left && !self.left_prev
    }

    /// One-frame pulse when Right goes down.
    pub fn right_just_pressed(&self) -> (r: bool)
        ensures
            r == self.pulse(TvAction::Right),
    {
        self.right && !self.right_prev
    }

    /// Records the current state as "last frame"; call once at the end of
    /// each game update, after all input has been read.
    pub fn sync_prev_from_current(&mut self)
        ensures
            *final(self) == old(self).after_sync(),
            forall|b: TvAction| final(self).held(b) == old(self).held(b),
            forall|b: TvAction| final(self).held_last_frame(b) == old(self).held(b),
    {
        self.up_prev = self.up;
        self.down_prev = self.down;
        self.left_prev = self.left;
        self.right_prev = self.right;
        self.action_prev = self.action;
        self.back_prev = self.back;
    }
}

impl Default for TvInputManager {
    fn default() -> (m: Self)
        ensures
            m.is_idle(),
    {
        TvInputManager::new()
    }
}

/// Delivers a key event from the platform bridge: when a manager is
/// installed in `slot`, sets `action` to pressed exactly when `pressed` is
/// non-zero; when none is installed, the event is dropped.
pub fn deliver_key_event(slot: &mut Option<TvInputManager>, action: TvAction, pressed: i32)
    ensures
        match *old(slot) {
            None => *final(slot) is None,
            Some(m) => *final(slot) == Some(m.after_set(action, pressed != 0)),
        },
{
    match slot {
        Some(manager) => manager.set_action(action, pressed != 0),
        None => {},
    }
}

/// Initializes the process-wide TV input manager. Only the browser build
/// keeps one; here there is nothing to initialize.
pub fn init_tv_input_manager() {
}

/// The process-wide TV input manager: none outside the browser build.
pub fn get_tv_input_manager() -> (r: Option<&'static TvInputManager>)
    ensures
        r is None,
{
    None
}

/// Mutable access to the process-wide TV input manager: none outside the
/// browser build.
pub fn get_tv_input_manager_mut() -> (r: Option<&'static mut TvInputManager>)
    ensures
        r is None,
{
    None
}

/// After the end-of-frame sync, no action is "just pressed": a press pulse
/// lasts one frame at most.
pub proof fn lemma_sync_ends_every_pulse(m: TvInputManager)
    ensures
        forall|a: TvAction| !(#[trigger] m.after_sync().pulse(a)),
        forall|a: TvAction| #[trigger] m.after_sync().held(a) == m.held(a),
{
}

/// Pressing an action that was up at the last sync gives exactly one
/// frame of pulse: it is "just pressed" in the frame of the press, and no
/// longer in the next frame, although it is still held.
pub proof fn lemma_press_pulses_for_one_frame(m: TvInputManager, a: TvAction)
    requires
        !m.held(a),
    ensures
        m.after_sync().after_set(a, true).pulse(a),
        !m.after_sync().after_set(a, true).after_sync().pulse(a),
        m.after_sync().after_set(a, true).after_sync().held(a),
{
}

/// Releasing an action never produces a pulse for it.
pub proof fn lemma_release_never_pulses(m: TvInputManager, a: TvAction)
    ensures
        !m.after_set(a, false).pulse(a),
{
}

/// Setting the same action twice keeps only the last value.
pub proof fn lemma_last_set_wins(m: TvInputManager, a: TvAction, p: bool, q: bool)
    ensures
        m.after_set(a, p).after_set(a, q) == m.after_set(a, q),
{
}

/// Events on different actions do not interfere: their order does not matter.
pub proof fn lemma_distinct_sets_commute(
    m: TvInputManager,
    a: TvAction,
    b: TvAction,
    p: bool,
    q: bool,
)
    requires
        a != b,
    ensures
        m.after_set(a, p).after_set(b, q) == m.after_set(b, q).after_set(a, p),
{
}

/// Syncing twice is the same as syncing once: the two managers are equal
/// and agree on every action, now and last frame.
pub proof fn lemma_sync_idempotent(m: TvInputManager)
    ensures
        m.after_sync().after_sync() == m.after_sync(),
        m.after_sync().after_sync().same_input(m.after_sync()),
{
}

/// Equal managers stay equal under the same events, and agree on every query.
pub proof fn lemma_equal_managers_agree(m1: TvInputManager, m2: TvInputManager, a: TvAction, p: bool)
    requires
        m1 == m2,
    ensures
        m1.after_sync().after_sync() == m2.after_sync(),
        m1.after_set(a, p) == m2.after_set(a, p),
        m1.same_input(m2),
{
}

} // verus!
