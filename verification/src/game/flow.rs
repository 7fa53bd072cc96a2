//! The run's screen flow (playing, paused, game over), the best score kept
//! across runs, and the combo of the current run.
use vstd::prelude::*;
use crate::game::combo::{Combo, Landing, landing_kind, flips_after};

verus! {

/// Which screen the game is on.
#[derive(Debug, Clone, Copy, PartialEq, Eq, Structural)]
pub enum GameState {
    Playing,
    Paused,
    GameOver,
}

/// The code the page overlay uses for a screen: 1 playing, 2 paused,
/// 3 game over.
pub open spec fn screen_code_of(s: GameState) -> int {
    match s {
        GameState::Playing => 1,
        GameState::Paused => 2,
        GameState::GameOver => 3,
    }
}

/// The overlay code of a screen.
pub fn screen_code(s: GameState) -> (code: i32)
    ensures
        code == screen_code_of(s),
{
    match s {
        GameState::Playing => 1,
        GameState::Paused => 2,
        GameState::GameOver => 3,
    }
}

/// The best-score line of the game-over screen.
#[derive(Debug, Clone, Copy, PartialEq, Eq, Structural)]
pub enum BestNote {
    /// "New Best!": the run's score reached the best score.
    NewBest,
    /// "Best: n": the standing best score.
    Best(i32),
    /// No line: no best score yet.
    Hidden,
}

/// The best-score line for a run that scored `score` (rounded down) when
/// the best score is `hi_score`: none until a best score above 0 exists;
/// "New Best!" when the run reached it.
pub open spec fn best_note_of(score: int, hi_score: i32) -> BestNote {
    if hi_score <= 0 {
        BestNote::Hidden
    } else if score >= hi_score {
        BestNote::NewBest
    } else {
        BestNote::Best(hi_score)
    }
}

/// Which best-score line the game-over screen shows (see `best_note_of`).
pub fn game_over_best_note(score: i32, hi_score: i32) -> (n: BestNote)
    ensures
        n == best_note_of(score as int, hi_score),
{
    if score >= hi_score && hi_score > 0 {
        BestNote::NewBest
    } else if hi_score > 0 {
        BestNote::Best(hi_score)
    } else {
        BestNote::Hidden
    }
}

/// What one frame's pause / confirm input does.
#[derive(Debug, Clone, Copy, PartialEq, Eq, Structural)]
pub struct FrameStep {
    /// The screen after the input is handled.
    pub state: GameState,
    /// The screen reported to the page overlay this frame.
    pub screen: GameState,
    /// Whether this frame runs the play simulation (terrain, physics,
    /// collisions, camera, particles).
    pub simulate: bool,
    /// Whether this frame starts a new run.
    pub restart: bool,
}

/// One frame from `state` with the back (pause) and enter (confirm) keys:
/// while playing, back pauses and nothing else happens, otherwise the
/// simulation runs; while paused, back or enter resumes; on the game-over
/// screen, enter starts a new run.
pub open spec fn frame_step_of(state: GameState, back_pressed: bool, enter_pressed: bool) -> FrameStep {
    match state {
        GameState::Playing => if back_pressed {
            FrameStep {
                state: GameState::Paused,
                screen: GameState::Paused,
                simulate: false,
                restart: false,
            }
        } else {
            FrameStep {
                state: GameState::Playing,
                screen: GameState::Playing,
                simulate: true,
                restart: false,
            }
        },
        GameState::Paused => FrameStep {
            state: if back_pressed || enter_pressed {
                GameState::Playing
            } else {
                GameState::Paused
            },
            screen: GameState::Paused,
            simulate: false,
            restart: false,
        },
        GameState::GameOver => FrameStep {
            state: if enter_pressed {
                GameState::Playing
            } else {
                GameState::GameOver
            },
            screen: GameState::GameOver,
            simulate: false,
            restart: enter_pressed,
        },
    }
}

/// Decides what one frame's pause / confirm input does.
pub fn frame_step(state: GameState, back_pressed: bool, enter_pressed: bool) -> (f: FrameStep)
    ensures
        f == frame_step_of(state, back_pressed, enter_pressed),
{
    match state {
        GameState::Playing => {
            if back_pressed {
                FrameStep {
                    state: GameState::Paused,
                    screen: GameState::Paused,
                    simulate: false,
                    restart: false,
                }
            } else {
                FrameStep {
                    state: GameState::Playing,
                    screen: GameState::Playing,
                    simulate: true,
                    restart: false,
                }
            }
        },
        GameState::Paused => {
            let next = if back_pressed || enter_pressed {
                GameState::Playing
            } else {
                GameState::Paused
            };
            FrameStep { state: next, screen: GameState::Paused, simulate: false, restart: false }
        },
        GameState::GameOver => {
            let next = if enter_pressed {
                GameState::Playing
            } else {
                GameState::GameOver
            };
            FrameStep {
                state: next,
                screen: GameState::GameOver,
                simulate: false,
                restart: enter_pressed,
            }
        },
    }
}

/// The abstract session: screen, best score, clean backflips of the run.
pub struct SessionView {
    pub state: GameState,
    pub hi_score: int,
    pub flips: nat,
}

/// The session after one frame's pause / confirm input; a restart also
/// resets the combo.
pub open spec fn after_frame(s: SessionView, back_pressed: bool, enter_pressed: bool) -> SessionView {
    let f = frame_step_of(s.state, back_pressed, enter_pressed);
    SessionView {
        state: f.state,
        hi_score: s.hi_score,
        flips: if f.restart {
            0
        } else {
            s.flips
        },
    }
}

/// The session after a crash with `final_score` points: the run ends, the
/// combo resets, and a beaten best score is replaced; a crash on the
/// game-over screen changes nothing.
pub open spec fn after_kill(s: SessionView, final_score: int) -> SessionView {
    if s.state == GameState::GameOver {
        s
    } else {
        SessionView {
            state: GameState::GameOver,
            hi_score: if final_score > s.hi_score {
                final_score
            } else {
                s.hi_score
            },
            flips: 0,
        }
    }
}

/// The session after a landing.
pub open spec fn after_landing(s: SessionView, clean: bool, backflip_happened: bool) -> SessionView {
    SessionView { flips: flips_after(s.flips, landing_kind(clean, backflip_happened)), ..s }
}

/// Pausing and resuming leave the run as it was: from play, back pauses
/// without simulating, and the next back or enter resumes with the same
/// best score and combo.
pub proof fn lemma_pause_round_trip(s: SessionView, e1: bool, b2: bool, e2: bool)
    requires
        s.state == GameState::Playing,
        b2 || e2,
    ensures
        after_frame(s, true, e1).state == GameState::Paused,
        !frame_step_of(s.state, true, e1).simulate,
        after_frame(after_frame(s, true, e1), b2, e2) == s,
{
}

/// Only the playing screen runs the simulation, and not in the frame the
/// game is paused; a paused game stays paused until back or enter.
pub proof fn lemma_only_play_simulates(s: GameState, b: bool, e: bool)
    ensures
        frame_step_of(s, b, e).simulate <==> (s == GameState::Playing && !b),
        s == GameState::Paused && !b && !e ==> frame_step_of(s, b, e).state == GameState::Paused,
{
}

/// The game-over screen stays until enter, which starts a fresh run: playing,
/// combo back to 1.0, best score kept.
pub proof fn lemma_game_over_until_enter(s: SessionView, b: bool)
    requires
        s.state == GameState::GameOver,
    ensures
        after_frame(s, b, false) == s,
        after_frame(s, b, true) == (SessionView {
            state: GameState::Playing,
            hi_score: s.hi_score,
            flips: 0,
        }),
        frame_step_of(s.state, b, true).restart,
{
}

/// The best score never decreases, whatever happens.
pub proof fn lemma_best_score_never_drops(
    s: SessionView,
    b: bool,
    e: bool,
    final_score: int,
    clean: bool,
    flip: bool,
)
    ensures
        after_frame(s, b, e).hi_score == s.hi_score,
        after_kill(s, final_score).hi_score >= s.hi_score,
        after_landing(s, clean, flip).hi_score == s.hi_score,
{
}

/// A crash during a run records the better of the best score and the run's
/// score, shows the game-over screen and resets the combo to 1.0.
pub proof fn lemma_crash_keeps_best(s: SessionView, final_score: int)
    requires
        s.state != GameState::GameOver,
    ensures
        after_kill(s, final_score).state == GameState::GameOver,
        after_kill(s, final_score).hi_score == (if final_score > s.hi_score {
            final_score
        } else {
            s.hi_score
        }),
        after_kill(s, final_score).flips == 0,
{
}

/// A run that beats a positive best score is greeted with "New Best!" on
/// the game-over screen, whose best score is then the run's score.
pub proof fn lemma_beaten_best_is_announced(s: SessionView, final_score: i32)
    requires
        s.state != GameState::GameOver,
        final_score > s.hi_score,
        final_score > 0,
    ensures
        after_kill(s, final_score as int).hi_score == final_score,
        best_note_of(final_score as int, final_score) == BestNote::NewBest,
{
}

/// A landing changes only the combo: the screen and the best score are as
/// before, whatever the landing; a rough landing resets the combo to 1.0 and
/// the run goes on.
pub proof fn lemma_landing_touches_only_combo(s: SessionView, clean: bool, flip: bool)
    ensures
        after_landing(s, clean, flip).state == s.state,
        after_landing(s, clean, flip).hi_score == s.hi_score,
        !clean ==> after_landing(s, clean, flip).flips == 0,
        clean && !flip ==> after_landing(s, clean, flip).flips == s.flips,
{
}

/// A frame's pause / confirm input keeps the combo unless it restarts the
/// run, which happens only on the game-over screen with enter: enter while
/// playing (the jump key) leaves the combo as it was.
pub proof fn lemma_frame_keeps_combo_unless_restart(s: SessionView, b: bool, e: bool)
    ensures
        frame_step_of(s.state, b, e).restart <==> (s.state == GameState::GameOver && e),
        after_frame(s, b, e).flips == (if s.state == GameState::GameOver && e {
            0
        } else {
            s.flips
        }),
        s.state == GameState::Playing ==> after_frame(s, b, e).flips == s.flips,
{
}

/// A run ends only once: a second crash changes nothing.
pub proof fn lemma_crash_once(s: SessionView, a: int, b: int)
    ensures
        after_kill(after_kill(s, a), b) == after_kill(s, a),
{
}

/// Combo rules: each clean backflip landing adds 0.5 to the multiplier
/// (until the count saturates), a rough landing resets it to 1.0, a clean
/// landing without backflip keeps it.
pub proof fn lemma_combo_rules(s: SessionView)
    ensures
        s.flips < u32::MAX ==> after_landing(s, true, true).flips == s.flips + 1,
        after_landing(s, false, true).flips == 0,
        after_landing(s, false, false).flips == 0,
        after_landing(s, true, false).flips == s.flips,
{
}

/// The discrete state of a game session.
pub struct Session {
    state: GameState,
    hi_score: i32,
    combo: Combo,
}

impl View for Session {
    type V = SessionView;

    /// The abstract session.
    closed spec fn view(&self) -> SessionView {
        SessionView { state: self.state, hi_score: self.hi_score as int, flips: self.combo.flips() }
    }
}

impl Session {
    /// A session starting to play, with the stored best score `hi_score`.
    pub fn new(hi_score: i32) -> (s: Self)
        ensures
            s.view() == (SessionView { state: GameState::Playing, hi_score: hi_score as int, flips: 0 }),
    {
        Session { state: GameState::Playing, hi_score, combo: Combo::new() }
    }

    /// The current screen.
    pub fn state(&self) -> (s: GameState)
        ensures
            s == self.view().state,
    {
        self.state
    }

    /// The best score so far.
    pub fn hi_score(&self) -> (h: i32)
        ensures
            h == self.view().hi_score,
    {
        self.hi_score
    }

    /// The combo multiplier in halves (the multiplier is this / 2).
    pub fn combo_halves(&self) -> (h: u64)
        ensures
            h == 2 + self.view().flips,
    {
        self.combo.multiplier_halves()
    }

    /// Handles one frame's pause / confirm input.
    pub fn frame(&mut self, back_pressed: bool, enter_pressed: bool) -> (f: FrameStep)
        ensures
            f == frame_step_of(old(self).view().state, back_pressed, enter_pressed),
            final(self).view() == after_frame(old(self).view(), back_pressed, enter_pressed),
            f.restart <==> (old(self).view().state == GameState::GameOver && enter_pressed),
            final(self).view().flips == (if old(self).view().state == GameState::GameOver
                && enter_pressed {
                0
            } else {
                old(self).view().flips
            }),
            final(self).view().hi_score == old(self).view().hi_score,
    {
        let f = frame_step(self.state, back_pressed, enter_pressed);
        self.state = f.state;
        if f.restart {
            self.combo.reset();
        }
        f
    }

    /// Ends the run after a crash with `final_score` points (the score
    /// rounded down). Returns the new best score when it must be saved.
    pub fn kill(&mut self, final_score: i32) -> (saved: Option<i32>)
        ensures
            final(self).view() == after_kill(old(self).view(), final_score as int),
            saved == (if old(self).view().state != GameState::GameOver && final_score
                > old(self).view().hi_score {
                Some(final_score)
            } else {
                None
            }),
    {
        if self.state == GameState::GameOver {
            return None;
        }
        self.state = GameState::GameOver;
        self.combo.reset();
        if final_score > self.hi_score {
            self.hi_score = final_score;
            Some(final_score)
        } else {
            None
        }
    }

    /// Applies a landing to the combo (see `Combo::land`).
    pub fn land(&mut self, clean: bool, backflip_happened: bool) -> (k: Landing)
        ensures
            k == landing_kind(clean, backflip_happened),
            final(self).view() == after_landing(old(self).view(), clean, backflip_happened),
            final(self).view().state == old(self).view().state,
            final(self).view().hi_score == old(self).view().hi_score,
            !clean ==> final(self).view().flips == 0,
            clean && !backflip_happened ==> final(self).view().flips == old(self).view().flips,
    {
        self.combo.land(clean, backflip_happened)
    }
}

} // verus!
