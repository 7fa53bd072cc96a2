//! Snow tiles: which Kenney atlas tile each terrain column shows, chosen by a
//! small state machine from the slope between consecutive solid columns.
use vstd::prelude::*;

verus! {

/// Snow tile types, for sensible terrain visuals.
#[derive(Debug, Clone, Copy, PartialEq, Eq, Structural)]
pub enum SnowTile {
    /// Flat snow.
    Flat,
    /// Slope descending to the right (a legacy kind: never chosen any more).
    SlopeDown,
    /// Slope ascending to the left.
    SlopeLeft,
    /// Rounded transition into `SlopeLeft`.
    SlopeLeftRound,
    /// Slope ascending to the right.
    SlopeRight,
    /// Rounded transition into `SlopeRight`.
    SlopeRightRound,
}

/// Where the rise from the previous solid column to the new one lies
/// (rise = previous top - new top, in pixels per column; positive means the
/// ground climbs to the right), against the steep threshold 3 and the gentle
/// threshold 0.8.
#[derive(Debug, Clone, Copy, PartialEq, Eq, Structural)]
pub enum SlopeBand {
    /// rise > 3
    SteepRise,
    /// 0.8 <= rise <= 3
    Rise,
    /// -0.8 < rise < 0.8
    Level,
    /// rise == -0.8
    FallThreshold,
    /// -3 <= rise < -0.8
    Fall,
    /// rise < -3
    SteepFall,
}

/// rise > 3
pub open spec fn steep_rise(b: SlopeBand) -> bool {
    b == SlopeBand::SteepRise
}

/// rise < -3
pub open spec fn steep_fall(b: SlopeBand) -> bool {
    b == SlopeBand::SteepFall
}

/// rise < 0.8
pub open spec fn under_gentle_rise(b: SlopeBand) -> bool {
    !(b == SlopeBand::SteepRise || b == SlopeBand::Rise)
}

/// rise > -0.8
pub open spec fn over_gentle_fall(b: SlopeBand) -> bool {
    b == SlopeBand::SteepRise || b == SlopeBand::Rise || b == SlopeBand::Level
}

/// rise < -0.8
pub open spec fn under_gentle_fall(b: SlopeBand) -> bool {
    b == SlopeBand::Fall || b == SlopeBand::SteepFall
}

/// Longest run of full slope tiles before the terrain is shown flat again.
pub const MAX_SLOPE_RUN: i32 = 32;

/// The sequencer's state: the last tile placed on a solid column and how
/// many columns the current slope has lasted.
pub struct TileState {
    pub last_tile: SnowTile,
    pub run: int,
}

/// The tile placed on a solid column with slope band `b` after state `s`,
/// and the new run length.
pub open spec fn next_solid(s: TileState, b: SlopeBand) -> (SnowTile, int) {
    match s.last_tile {
        SnowTile::Flat => {
            if steep_rise(b) {
                (SnowTile::SlopeLeftRound, 0)
            } else if steep_fall(b) {
                (SnowTile::SlopeRightRound, 0)
            } else {
                (SnowTile::Flat, s.run)
            }
        },
        SnowTile::SlopeLeftRound => (SnowTile::SlopeLeft, 1),
        SnowTile::SlopeLeft => {
            if under_gentle_rise(b) || s.run + 1 > MAX_SLOPE_RUN {
                (SnowTile::Flat, s.run + 1)
            } else {
                (SnowTile::SlopeLeft, s.run + 1)
            }
        },
        SnowTile::SlopeRightRound => (SnowTile::SlopeRight, 1),
        SnowTile::SlopeRight => {
            if over_gentle_fall(b) || s.run + 1 > MAX_SLOPE_RUN {
                (SnowTile::Flat, s.run + 1)
            } else {
                (SnowTile::SlopeRight, s.run + 1)
            }
        },
        SnowTile::SlopeDown => {
            if under_gentle_fall(b) {
                (SnowTile::SlopeRight, s.run)
            } else {
                (SnowTile::Flat, s.run)
            }
        },
    }
}

/// The tile placed on the next column (a gap shows as `Flat`).
pub open spec fn next_tile(s: TileState, solid: bool, b: SlopeBand) -> SnowTile {
    if solid {
        next_solid(s, b).0
    } else {
        SnowTile::Flat
    }
}

/// The sequencer's state after the next column: a gap resets the last tile
/// to `Flat` and keeps the run length.
pub open spec fn next_state(s: TileState, solid: bool, b: SlopeBand) -> TileState {
    if solid {
        TileState { last_tile: next_solid(s, b).0, run: next_solid(s, b).1 }
    } else {
        TileState { last_tile: SnowTile::Flat, run: s.run }
    }
}

/// The states the sequencer can be in: the legacy tile is never the last one,
/// a round transition has run 0, a full slope has lasted 1 to 32 columns,
/// and the run never exceeds 33.
pub open spec fn reachable(s: TileState) -> bool {
    &&& 0 <= s.run <= MAX_SLOPE_RUN + 1
    &&& s.last_tile != SnowTile::SlopeDown
    &&& (s.last_tile == SnowTile::SlopeLeftRound || s.last_tile == SnowTile::SlopeRightRound)
        ==> s.run == 0
    &&& (s.last_tile == SnowTile::SlopeLeft || s.last_tile == SnowTile::SlopeRight) ==> 1 <= s.run
        <= MAX_SLOPE_RUN
}

/// The state of a fresh sequencer.
pub open spec fn initial_state() -> TileState {
    TileState { last_tile: SnowTile::Flat, run: 0 }
}

/// The sequencer's state after a run of columns, each given as
/// (solid, slope band), starting from `s`.
pub open spec fn state_after(s: TileState, cols: Seq<(bool, SlopeBand)>) -> TileState
    decreases cols.len(),
{
    if cols.len() == 0 {
        s
    } else {
        next_state(state_after(s, cols.drop_last()), cols.last().0, cols.last().1)
    }
}

/// The tiles placed on a run of columns, each given as (solid, slope band),
/// starting from `s`.
pub open spec fn tiles_from(s: TileState, cols: Seq<(bool, SlopeBand)>) -> Seq<SnowTile>
    decreases cols.len(),
{
    if cols.len() == 0 {
        Seq::empty()
    } else {
        tiles_from(s, cols.drop_last()).push(
            next_tile(state_after(s, cols.drop_last()), cols.last().0, cols.last().1),
        )
    }
}

/// How many tiles at the end of `t` are `k`.
pub open spec fn trailing(t: Seq<SnowTile>, k: SnowTile) -> nat
    decreases t.len(),
{
    if t.len() == 0 {
        0
    } else if t.last() == k {
        1 + trailing(t.drop_last(), k)
    } else {
        0
    }
}

/// Every column keeps the sequencer in a reachable state.
pub proof fn lemma_step_keeps_reachable(s: TileState, solid: bool, b: SlopeBand)
    requires
        reachable(s),
    ensures
        reachable(next_state(s, solid, b)),
{
}

/// A gap shows flat and leaves the sequencer on `Flat`.
pub proof fn lemma_gap_resets_to_flat(s: TileState, b: SlopeBand)
    ensures
        next_tile(s, false, b) == SnowTile::Flat,
        next_state(s, false, b).last_tile == SnowTile::Flat,
{
}

/// A rounded transition is always followed, on the next solid column, by
/// its full slope.
pub proof fn lemma_round_leads_into_slope(s: TileState, b: SlopeBand)
    ensures
        s.last_tile == SnowTile::SlopeLeftRound ==> next_tile(s, true, b) == SnowTile::SlopeLeft,
        s.last_tile == SnowTile::SlopeRightRound ==> next_tile(s, true, b)
            == SnowTile::SlopeRight,
{
}

/// A full slope is entered only through its rounded transition (or by
/// continuing itself); a rounded transition only from flat ground.
pub proof fn lemma_slopes_start_rounded(s: TileState, solid: bool, b: SlopeBand)
    requires
        reachable(s),
    ensures
        next_tile(s, solid, b) == SnowTile::SlopeLeft ==> (s.last_tile == SnowTile::SlopeLeftRound
            || s.last_tile == SnowTile::SlopeLeft),
        next_tile(s, solid, b) == SnowTile::SlopeRight ==> (s.last_tile
            == SnowTile::SlopeRightRound || s.last_tile == SnowTile::SlopeRight),
        (next_tile(s, solid, b) == SnowTile::SlopeLeftRound || next_tile(s, solid, b)
            == SnowTile::SlopeRightRound) ==> s.last_tile == SnowTile::Flat,
{
}

/// A right-ascending slope (on screen: ground falling to the right) goes on
/// while each new column falls by at least the gentle threshold (rise at
/// most -0.8: bands `FallThreshold`, `Fall`, `SteepFall`), and turns flat as
/// soon as a column falls less than that, or after 32 columns.
pub proof fn lemma_right_slope_continues_while_falling(s: TileState, b: SlopeBand)
    requires
        s.last_tile == SnowTile::SlopeRight,
    ensures
        s.run < MAX_SLOPE_RUN ==> (next_tile(s, true, b) == SnowTile::SlopeRight <==> (b
            == SlopeBand::FallThreshold || b == SlopeBand::Fall || b == SlopeBand::SteepFall)),
        s.run < MAX_SLOPE_RUN && next_tile(s, true, b) == SnowTile::SlopeRight ==> next_state(
            s,
            true,
            b,
        ).run == s.run + 1,
        (b == SlopeBand::SteepRise || b == SlopeBand::Rise || b == SlopeBand::Level) ==> next_tile(
            s,
            true,
            b,
        ) == SnowTile::Flat,
        s.run >= MAX_SLOPE_RUN ==> next_tile(s, true, b) == SnowTile::Flat,
{
}

/// A left-ascending slope goes on while each new column rises by at least
/// the gentle threshold (rise >= 0.8: bands `Rise`, `SteepRise`), and turns
/// flat as soon as a column rises less than that, or after 32 columns.
pub proof fn lemma_left_slope_continues_while_rising(s: TileState, b: SlopeBand)
    requires
        s.last_tile == SnowTile::SlopeLeft,
    ensures
        s.run < MAX_SLOPE_RUN ==> (next_tile(s, true, b) == SnowTile::SlopeLeft <==> (b
            == SlopeBand::SteepRise || b == SlopeBand::Rise)),
        !(b == SlopeBand::SteepRise || b == SlopeBand::Rise) ==> next_tile(s, true, b)
            == SnowTile::Flat,
        s.run >= MAX_SLOPE_RUN ==> next_tile(s, true, b) == SnowTile::Flat,
{
}

/// On flat ground only a steep column starts a slope: a rise above 3 starts
/// the left one, a fall steeper than 3 the right one, anything else stays flat.
pub proof fn lemma_flat_starts_only_on_steep(s: TileState, b: SlopeBand)
    requires
        s.last_tile == SnowTile::Flat,
    ensures
        next_tile(s, true, b) == (if b == SlopeBand::SteepRise {
            SnowTile::SlopeLeftRound
        } else if b == SlopeBand::SteepFall {
            SnowTile::SlopeRightRound
        } else {
            SnowTile::Flat
        }),
{
}

/// The legacy `SlopeDown` tile is never placed.
pub proof fn lemma_legacy_tile_never_placed(s: TileState, solid: bool, b: SlopeBand)
    ensures
        next_tile(s, solid, b) != SnowTile::SlopeDown,
{
}

/// The invariant behind `lemma_slopes_are_bounded`: the trailing run of
/// full slope tiles is what the sequencer counts.
proof fn lemma_run_matches_trailing(cols: Seq<(bool, SlopeBand)>)
    ensures
        reachable(state_after(initial_state(), cols)),
        trailing(tiles_from(initial_state(), cols), SnowTile::SlopeLeft) == (if state_after(
            initial_state(),
            cols,
        ).last_tile == SnowTile::SlopeLeft {
            state_after(initial_state(), cols).run
        } else {
            0
        }),
        trailing(tiles_from(initial_state(), cols), SnowTile::SlopeRight) == (if state_after(
            initial_state(),
            cols,
        ).last_tile == SnowTile::SlopeRight {
            state_after(initial_state(), cols).run
        } else {
            0
        }),
    decreases cols.len(),
{
    if cols.len() > 0 {
        let p = cols.drop_last();
        lemma_run_matches_trailing(p);
        let t = tiles_from(initial_state(), cols);
        assert(t.drop_last() =~= tiles_from(initial_state(), p));
    }
}

/// Starting from a fresh sequencer, no run of columns ever ends in more
/// than 32 consecutive full slope tiles of one kind: every slope is shown
/// flat again after at most 32 columns.
pub proof fn lemma_slopes_are_bounded(cols: Seq<(bool, SlopeBand)>)
    ensures
        trailing(tiles_from(initial_state(), cols), SnowTile::SlopeLeft) <= MAX_SLOPE_RUN,
        trailing(tiles_from(initial_state(), cols), SnowTile::SlopeRight) <= MAX_SLOPE_RUN,
{
    lemma_run_matches_trailing(cols);
}

/// Chooses the tile of each generated terrain column.
pub struct TileSequencer {
    last_tile: SnowTile,
    slope_run_length: i32,
}

impl TileSequencer {
    /// The abstract state.
    pub closed spec fn state(self) -> TileState {
        TileState { last_tile: self.last_tile, run: self.slope_run_length as int }
    }

    #[verifier::type_invariant]
    closed spec fn wf(self) -> bool {
        reachable(self.state())
    }

    /// A fresh sequencer: last tile flat, no slope run.
    pub fn new() -> (t: Self)
        ensures
            t.state() == initial_state(),
    {
        TileSequencer { last_tile: SnowTile::Flat, slope_run_length: 0 }
    }

    /// Back to the fresh state (start of a run).
    pub fn reset(&mut self)
        ensures
            final(self).state() == initial_state(),
    {
        *self = TileSequencer::new();
    }

    /// The last tile placed on a solid column (`Flat` after a gap).
    pub fn last_tile(&self) -> (t: SnowTile)
        ensures
            t == self.state().last_tile,
    {
        self.last_tile
    }

    /// Chooses the tile of the next column, `solid` or a gap, whose rise
    /// from the previous solid column lies in `band`.
    pub fn place(&mut self, solid: bool, band: SlopeBand) -> (tile: SnowTile)
        ensures
            tile == next_tile(old(self).state(), solid, band),
            final(self).state() == next_state(old(self).state(), solid, band),
            reachable(old(self).state()),
            reachable(final(self).state()),
            !solid ==> tile == SnowTile::Flat && final(self).state().last_tile == SnowTile::Flat
                && final(self).state().run == old(self).state().run,
            solid ==> final(self).state().last_tile == tile,
            solid && old(self).state().last_tile == SnowTile::SlopeRight && old(self).state().run
                < MAX_SLOPE_RUN ==> (tile == SnowTile::SlopeRight <==> (band == SlopeBand::FallThreshold
                || band == SlopeBand::Fall || band == SlopeBand::SteepFall)),
            solid && old(self).state().last_tile == SnowTile::SlopeLeft && old(self).state().run
                < MAX_SLOPE_RUN ==> (tile == SnowTile::SlopeLeft <==> (band == SlopeBand::SteepRise
                || band == SlopeBand::Rise)),
    {
        proof {
            use_type_invariant(&*self);
        }
        if !solid {
            *self = TileSequencer { last_tile: SnowTile::Flat, slope_run_length: self.slope_run_length };
            return SnowTile::Flat;
        }
        let run: i32 = self.slope_run_length;
        let (tile, new_run) = match self.last_tile {
            SnowTile::Flat => {
                if band == SlopeBand::SteepRise {
                    (SnowTile::SlopeLeftRound, 0)
                } else if band == SlopeBand::SteepFall {
                    (SnowTile::SlopeRightRound, 0)
                } else {
                    (SnowTile::Flat, run)
                }
            },
            SnowTile::SlopeLeftRound => (SnowTile::SlopeLeft, 1),
            SnowTile::SlopeLeft => {
                let gentle = !(band == SlopeBand::SteepRise || band == SlopeBand::Rise);
                if gentle || run + 1 > MAX_SLOPE_RUN {
                    (SnowTile::Flat, run + 1)
                } else {
                    (SnowTile::SlopeLeft, run + 1)
                }
            },
            SnowTile::SlopeRightRound => (SnowTile::SlopeRight, 1),
            SnowTile::SlopeRight => {
                let gentle = band == SlopeBand::SteepRise || band == SlopeBand::Rise || band
                    == SlopeBand::Level;
                if gentle || run + 1 > MAX_SLOPE_RUN {
                    (SnowTile::Flat, run + 1)
                } else {
                    (SnowTile::SlopeRight, run + 1)
                }
            },
            SnowTile::SlopeDown => {
                if band == SlopeBand::Fall || band == SlopeBand::SteepFall {
                    (SnowTile::SlopeRight, run)
                } else {
                    (SnowTile::Flat, run)
                }
            },
        };
        *self = TileSequencer { last_tile: tile, slope_run_length: new_run };
        proof {
            use_type_invariant(&*self);
        }
        tile
    }
}

/// Width of a terrain tile, in pixels.
pub const TILE_W: i32 = 64;

/// Height of a terrain tile, in pixels.
pub const TILE_H: i32 = 74;

/// How many terrain tiles one drawing pass covers.
pub const TILES_PER_PASS: usize = 24;

/// A source rectangle in the block-pack atlas, in pixels.
#[derive(Debug, Clone, Copy, PartialEq, Eq, Structural)]
pub struct AtlasRect {
    pub x: i32,
    pub y: i32,
    pub w: i32,
    pub h: i32,
}

/// Where each snow tile sits in the atlas (full slopes are drawn two
/// pixels shorter).
pub open spec fn atlas_rect_of(tile: SnowTile) -> AtlasRect {
    match tile {
        SnowTile::Flat => AtlasRect { x: 128, y: 220, w: TILE_W, h: TILE_H },
        SnowTile::SlopeDown => AtlasRect { x: 128, y: 146, w: TILE_W, h: TILE_H },
        SnowTile::SlopeLeft => AtlasRect { x: 128, y: 74, w: TILE_W, h: 72 },
        SnowTile::SlopeLeftRound => AtlasRect { x: 128, y: 0, w: TILE_W, h: TILE_H },
        SnowTile::SlopeRight => AtlasRect { x: 64, y: 514, w: TILE_W, h: 72 },
        SnowTile::SlopeRightRound => AtlasRect { x: 64, y: 440, w: TILE_W, h: TILE_H },
    }
}

/// The atlas source rectangle of a snow tile.
pub fn atlas_source(tile: SnowTile) -> (r: AtlasRect)
    ensures
        r == atlas_rect_of(tile),
{
    match tile {
        SnowTile::Flat => AtlasRect { x: 128, y: 220, w: TILE_W, h: TILE_H },
        SnowTile::SlopeDown => AtlasRect { x: 128, y: 146, w: TILE_W, h: TILE_H },
        SnowTile::SlopeLeft => AtlasRect { x: 128, y: 74, w: TILE_W, h: TILE_H - 2 },
        SnowTile::SlopeLeftRound => AtlasRect { x: 128, y: 0, w: TILE_W, h: TILE_H },
        SnowTile::SlopeRight => AtlasRect { x: 64, y: 514, w: TILE_W, h: TILE_H - 2 },
        SnowTile::SlopeRightRound => AtlasRect { x: 64, y: 440, w: TILE_W, h: TILE_H },
    }
}

/// Where a tile's sprite is drawn relative to its column's surface: the
/// right-ascending slopes carry the slope inside the sprite and are drawn
/// `TILE_H - 10` pixels higher; every other tile hangs from the surface.
pub fn draw_lift(tile: SnowTile) -> (lift: i32)
    ensures
        lift == (if tile == SnowTile::SlopeRight || tile == SnowTile::SlopeRightRound {
            TILE_H - 10
        } else {
            0
        }),
{
    match tile {
        SnowTile::SlopeRight | SnowTile::SlopeRightRound => TILE_H - 10,
        _ => 0,
    }
}

/// `a / TILE_W` rounded toward zero, as integer division does.
pub open spec fn div_toward_zero(a: int) -> int {
    if a >= 0 {
        a / (TILE_W as int)
    } else {
        -((-a) / (TILE_W as int))
    }
}

/// The first tile-aligned world x of a drawing pass whose left edge (one
/// tile left of the camera) is at `left_px`.
pub open spec fn first_tile_x(left_px: int) -> int {
    div_toward_zero(left_px) * TILE_W
}

/// The world x of each terrain tile drawn in one pass: 24 tile-aligned
/// positions, one tile apart, from the tile holding `left_px` (rounded toward
/// zero) to 23 tiles further right. The last position must be a valid
/// `i32`.
pub fn terrain_tile_xs(left_px: i32) -> (xs: Vec<i32>)
    requires
        first_tile_x(left_px as int) + 23 * TILE_W <= i32::MAX,
    ensures
        xs.len() == TILES_PER_PASS,
        forall|k: int| 0 <= k < TILES_PER_PASS ==> xs[k] == first_tile_x(left_px as int) + k * TILE_W,
{
    let first: i32 = (left_px / TILE_W) * TILE_W;
    let mut xs: Vec<i32> = Vec::new();
    let mut x: i32 = first;
    let mut k: usize = 0;
    while k < TILES_PER_PASS
        invariant
            k <= TILES_PER_PASS,
            first == first_tile_x(left_px as int),
            first + 23 * TILE_W <= i32::MAX,
            k < TILES_PER_PASS ==> x == first + 64 * k,
            xs.len() == k,
            forall|j: int| 0 <= j < k ==> xs[j] == first + j * TILE_W,
        decreases TILES_PER_PASS - k,
    {
        xs.push(x);
        if k + 1 < TILES_PER_PASS {
            x = x + TILE_W;
        }
        k = k + 1;
    }
    xs
}

} // verus!
