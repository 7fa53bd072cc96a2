//! Screen fade transitions: fading out to black, holding black, fading in.
use vstd::prelude::*;

verus! {

/// Where a screen fade stands.
#[derive(Debug, Clone, Copy, PartialEq, Eq, Structural)]
pub enum FadeState {
    /// No fade active.
    Idle,
    /// Going to black.
    FadingOut,
    /// Coming from black.
    FadingIn,
    /// Holding at full black until a fade-in is triggered.
    HoldBlack,
}

/// The fade after a frame in which the fading opacity did (`reached_end`)
/// or did not reach the end of its course: fading out ends holding black,
/// fading in ends with no fade; the other states stay.
pub open spec fn fade_next(s: FadeState, reached_end: bool) -> FadeState {
    match s {
        FadeState::FadingOut => if reached_end {
            FadeState::HoldBlack
        } else {
            FadeState::FadingOut
        },
        FadeState::FadingIn => if reached_end {
            FadeState::Idle
        } else {
            FadeState::FadingIn
        },
        _ => s,
    }
}

/// Advances a fade by one frame (see `fade_next`).
pub fn fade_step(s: FadeState, reached_end: bool) -> (n: FadeState)
    ensures
        n == fade_next(s, reached_end),
{
    match s {
        FadeState::FadingOut => if reached_end {
            FadeState::HoldBlack
        } else {
            FadeState::FadingOut
        },
        FadeState::FadingIn => if reached_end {
            FadeState::Idle
        } else {
            FadeState::FadingIn
        },
        _ => s,
    }
}

/// Holding black and no fade are resting states: frames never leave them
/// (only triggering a fade does).
pub proof fn lemma_fade_rests(reached_end: bool)
    ensures
        fade_next(FadeState::HoldBlack, reached_end) == FadeState::HoldBlack,
        fade_next(FadeState::Idle, reached_end) == FadeState::Idle,
{
}

/// A fade never runs backwards: fading out never turns into fading in or
/// no fade, and fading in never turns into black.
pub proof fn lemma_fade_moves_forward(s: FadeState, reached_end: bool)
    ensures
        s == FadeState::FadingOut ==> (fade_next(s, reached_end) == FadeState::FadingOut
            || fade_next(s, reached_end) == FadeState::HoldBlack),
        s == FadeState::FadingIn ==> (fade_next(s, reached_end) == FadeState::FadingIn
            || fade_next(s, reached_end) == FadeState::Idle),
{
}

} // verus!
