//! The combo multiplier: 1.0 at the start of a run, +0.5 for each clean
//! backflip landing, back to 1.0 on a rough landing or a crash.
use vstd::prelude::*;

verus! {

/// How a landing went.
#[derive(Debug, Clone, Copy, PartialEq, Eq, Structural)]
pub enum Landing {
    /// Soft impact after a backflip: the combo grows.
    CleanBackflip,
    /// Soft impact without a backflip: the combo stays.
    Clean,
    /// Hard impact: the combo resets.
    Rough,
}

/// The kind of a landing with a soft (`clean`) or hard impact, after an
/// airtime in which a backflip did or did not happen.
pub open spec fn landing_kind(clean: bool, backflip_happened: bool) -> Landing {
    if !clean {
        Landing::Rough
    } else if backflip_happened {
        Landing::CleanBackflip
    } else {
        Landing::Clean
    }
}

/// The combo multiplier, counted in clean backflip landings: its value is
/// `1 + 0.5 * clean_flips`.
#[derive(Debug, Clone, Copy, PartialEq, Eq, Structural)]
pub struct Combo {
    clean_flips: u32,
}

/// The clean-flip count after a landing of kind `k` (it saturates at
/// `u32::MAX`).
pub open spec fn flips_after(flips: nat, k: Landing) -> nat {
    match k {
        Landing::CleanBackflip => if flips < u32::MAX {
            flips + 1
        } else {
            flips
        },
        Landing::Clean => flips,
        Landing::Rough => 0,
    }
}

impl Combo {
    /// Clean backflip landings counted since the last reset.
    pub closed spec fn flips(self) -> nat {
        self.clean_flips as nat
    }

    /// The multiplier in halves: `2 + flips`, so the multiplier is this / 2.
    pub open spec fn halves(self) -> nat {
        2 + self.flips()
    }

    /// The multiplier 1.0.
    pub fn new() -> (c: Self)
        ensures
            c.flips() == 0,
            c.halves() == 2,
    {
        Combo { clean_flips: 0 }
    }

    /// Back to 1.0.
    pub fn reset(&mut self)
        ensures
            final(self).flips() == 0,
            final(self).halves() == 2,
    {
        self.clean_flips = 0;
    }

    /// The multiplier in halves (the multiplier is this / 2).
    pub fn multiplier_halves(&self) -> (h: u64)
        ensures
            h == self.halves(),
    {
        2 + self.clean_flips as u64
    }

    /// Applies a landing with a soft (`clean`) or hard impact: a clean
    /// backflip landing adds 0.5 to the multiplier, a rough landing resets it
    /// to 1.0, a clean landing without backflip keeps it.
    pub fn land(&mut self, clean: bool, backflip_happened: bool) -> (k: Landing)
        ensures
            k == landing_kind(clean, backflip_happened),
            final(self).flips() == flips_after(old(self).flips(), k),
            k == Landing::CleanBackflip && old(self).flips() < u32::MAX ==> final(self).halves()
                == old(self).halves() + 1,
            k == Landing::Rough ==> final(self).halves() == 2,
            k == Landing::Clean ==> final(self).halves() == old(self).halves(),
    {
        if !clean {
            self.clean_flips = 0;
            Landing::Rough
        } else if backflip_happened {
            if self.clean_flips < u32::MAX {
                self.clean_flips = self.clean_flips + 1;
            }
            Landing::CleanBackflip
        } else {
            Landing::Clean
        }
    }
}

} // verus!
