//! The rider's discrete state: on the ground or airborne, and whether a
//! backflip happened during the current airtime. A backflip is holding jump
//! in the air until the rotation since take-off passes the backflip
//! threshold (three quarters of a turn); a tap only jumps. A touchdown
//! hands the backflip to the combo and clears it.
use vstd::prelude::*;

verus! {

/// The rider's abstract state.
pub struct RiderView {
    pub on_ground: bool,
    /// A backflip happened since the last jump or landing.
    pub flipped: bool,
}

/// The rider after the jump input of a frame: a press while grounded
/// leaves the ground and starts a fresh airtime.
pub open spec fn after_jump(v: RiderView, jump_pressed: bool) -> RiderView {
    if jump_pressed && v.on_ground {
        RiderView { on_ground: false, flipped: false }
    } else {
        v
    }
}

/// Whether the frame after collision is a touchdown (airborne before,
/// grounded now).
pub open spec fn touches_down(v: RiderView, landed: bool) -> bool {
    !v.on_ground && landed
}

/// The rider after the collision step of a frame: grounded exactly when it
/// `landed`; holding jump while airborne with the rotation since take-off
/// past the backflip threshold (`spun`) makes a backflip; a touchdown
/// consumes the backflip.
pub open spec fn after_settle(v: RiderView, landed: bool, jump_held: bool, spun: bool) -> RiderView {
    RiderView {
        on_ground: landed,
        flipped: if touches_down(v, landed) {
            false
        } else if !landed && jump_held && spun {
            true
        } else {
            v.flipped
        },
    }
}

/// What a settle reports: on a touchdown, whether a backflip happened in
/// the airtime that just ended.
pub open spec fn touchdown_report(v: RiderView, landed: bool) -> Option<bool> {
    if touches_down(v, landed) {
        Some(v.flipped)
    } else {
        None
    }
}

/// The rider's discrete state.
pub struct Rider {
    on_ground: bool,
    backflip_happened: bool,
}

impl View for Rider {
    type V = RiderView;

    closed spec fn view(&self) -> RiderView {
        RiderView { on_ground: self.on_ground, flipped: self.backflip_happened }
    }
}

impl Rider {
    /// A grounded rider with no backflip.
    pub fn new() -> (r: Self)
        ensures
            r.view() == (RiderView { on_ground: true, flipped: false }),
    {
        Rider { on_ground: true, backflip_happened: false }
    }

    /// Start of a run: the rider drops in from above the screen.
    pub fn start_entrance(&mut self)
        ensures
            final(self).view() == (RiderView { on_ground: false, flipped: false }),
    {
        self.on_ground = false;
        self.backflip_happened = false;
    }

    /// End of the drop-in: the rider stands on the ground.
    pub fn finish_entrance(&mut self)
        ensures
            final(self).view() == (RiderView { on_ground: true, ..old(self).view() }),
    {
        self.on_ground = true;
    }

    /// Whether the rider is on the ground.
    pub fn on_ground(&self) -> (b: bool)
        ensures
            b == self.view().on_ground,
    {
        self.on_ground
    }

    /// Whether a backflip happened in the current airtime.
    pub fn backflip_happened(&self) -> (b: bool)
        ensures
            b == self.view().flipped,
    {
        self.backflip_happened
    }

    /// Applies the frame's jump input; returns whether the rider jumped
    /// (pressed while grounded).
    pub fn jump(&mut self, jump_pressed: bool) -> (jumped: bool)
        ensures
            jumped == (jump_pressed && old(self).view().on_ground),
            final(self).view() == after_jump(old(self).view(), jump_pressed),
    {
        if jump_pressed && self.on_ground {
            self.on_ground = false;
            self.backflip_happened = false;
            true
        } else {
            false
        }
    }

    /// Applies the frame's collision result (`landed` on a solid surface),
    /// jump hold, and whether the rotation since take-off has passed the
    /// backflip threshold (`spun`); on a touchdown returns whether the
    /// airtime held a backflip.
    pub fn settle(&mut self, landed: bool, jump_held: bool, spun: bool) -> (report: Option<bool>)
        ensures
            report == touchdown_report(old(self).view(), landed),
            final(self).view() == after_settle(old(self).view(), landed, jump_held, spun),
            final(self).view().on_ground == landed,
            report is Some <==> (!old(self).view().on_ground && landed),
            landed ==> !final(self).view().flipped || old(self).view().on_ground,
    {
        let was_on_ground = self.on_ground;
        self.on_ground = landed;
        if !landed && jump_held && spun {
            self.backflip_happened = true;
        }
        if !was_on_ground && landed {
            let flipped = self.backflip_happened;
            self.backflip_happened = false;
            Some(flipped)
        } else {
            None
        }
    }
}

/// One physics frame's inputs: jump pressed, landed after collision, jump
/// held, rotation since take-off past the backflip threshold.
pub type RiderFrame = (bool, bool, bool, bool);

/// The rider after a frame.
pub open spec fn after_frame(v: RiderView, f: RiderFrame) -> RiderView {
    after_settle(after_jump(v, f.0), f.1, f.2, f.3)
}

/// The rider after a run of frames.
pub open spec fn after_frames(v: RiderView, fs: Seq<RiderFrame>) -> RiderView
    decreases fs.len(),
{
    if fs.len() == 0 {
        v
    } else {
        after_frame(after_frames(v, fs.drop_last()), fs.last())
    }
}

/// A backflip only ever exists in the air: every frame keeps "flipped
/// implies airborne".
pub proof fn lemma_flip_only_in_the_air(v: RiderView, f: RiderFrame)
    requires
        v.flipped ==> !v.on_ground,
    ensures
        after_frame(v, f).flipped ==> !after_frame(v, f).on_ground,
{
}

/// After the collision step the rider is on the ground exactly when that
/// frame's collision landed it, whatever the jump input; so a rider that
/// left a surface without landing cannot jump again in mid-air.
pub proof fn lemma_grounded_iff_landed(v: RiderView, landed: bool, jump_held: bool, spun: bool)
    ensures
        after_settle(v, landed, jump_held, spun).on_ground == landed,
        !landed ==> after_jump(after_settle(v, landed, jump_held, spun), true) == after_settle(
            v,
            landed,
            jump_held,
            spun,
        ),
        landed ==> !after_jump(after_settle(v, landed, jump_held, spun), true).on_ground,
{
}

/// A tap only jumps: the take-off frame, with jump pressed and held but
/// the rotation still short of the threshold, records no backflip, and so
/// does every later frame until the rotation passes it.
pub proof fn lemma_tap_is_not_a_backflip(v: RiderView, landed: bool)
    requires
        v.on_ground,
    ensures
        after_frame(v, (true, landed, true, false)) == (RiderView { on_ground: landed, flipped: false }),
{
}

/// Holding jump through an airborne frame whose rotation has passed the
/// threshold makes a backflip, and the next touchdown reports it (and
/// clears it).
pub proof fn lemma_held_airtime_is_reported(v: RiderView, f: RiderFrame, held_at_landing: bool, spun_at_landing: bool)
    requires
        !f.1,
        f.2,
        f.3,
    ensures
        after_frame(v, f).flipped,
        touchdown_report(after_frame(v, f), true) == Some(true),
        !after_settle(after_frame(v, f), true, held_at_landing, spun_at_landing).flipped,
{
}

/// A touchdown reports a backflip only if, since the last jump or landing,
/// some airborne frame had jump held past the rotation threshold: from a
/// state without a backflip, a run of frames with no such frame never ends
/// flipped.
pub proof fn lemma_no_spin_no_flip(v: RiderView, fs: Seq<RiderFrame>)
    requires
        !v.flipped,
        forall|i: int| 0 <= i < fs.len() ==> !(!fs[i].1 && fs[i].2 && fs[i].3),
    ensures
        !after_frames(v, fs).flipped,
    decreases fs.len(),
{
    if fs.len() > 0 {
        lemma_no_spin_no_flip(v, fs.drop_last());
    }
}

} // verus!
