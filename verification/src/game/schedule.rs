//! Column scheduling for the procedural world: which world column is
//! generated next, where chasms open and how wide they are, when the hill
//! waves pick a new segment, how far apart rocks are, and which snow tile
//! each column gets.
use vstd::prelude::*;
use crate::game::tiles::{SlopeBand, SnowTile, TileSequencer, TileState, initial_state, next_state, next_tile};

verus! {

/// World x of the first chasm before jitter.
pub const FIRST_GAP_AT: i32 = 900;

/// The first chasm starts up to this many columns (exclusive) after `FIRST_GAP_AT`.
pub const FIRST_GAP_JITTER: i32 = 400;

/// Shortest hill-wave segment drawn, in columns.
pub const SEGMENT_MIN: i32 = 240;

/// Wave segments are drawn shorter than this.
pub const SEGMENT_MAX: i32 = 520;

/// Narrowest chasm, in columns.
pub const MIN_GAP_LEN: i32 = 18;

/// Least ground between a chasm's end and the next chasm, in columns.
pub const MIN_GAP_SPACING: i32 = 60;

/// Rocks are placed more than this many columns apart.
pub const ROCK_SPACING: i32 = 260;

/// "No rock placed yet": far enough left that the first rock is never too close.
pub const NO_ROCK_YET: i32 = -99999;

/// Calls `macroquad::rand::gen_range::<i32>(low, high)`, macroquad's
/// re-export of `quad_rand::gen_range` on quad-rand's global generator.
/// quad-rand's `gen_range` for `i32` draws `r = rand() / 2^32` in [0, 1) and returns
/// `low + (high - low) * r` computed in f64 and truncated toward zero; for
/// `0 <= low < high <= 1_000_000` that lies in `low .. high`. Which value comes
/// out depends on the generator's hidden state, so nothing more is claimed.
#[verifier::external_body]
fn random_in(low: i32, high: i32) -> (r: i32)
    requires
        0 <= low < high <= 1_000_000,
    ensures
        low <= r < high,
{
    macroquad::rand::gen_range::<i32>(low, high)
}

/// The larger of `a` and `b`.
pub open spec fn max_int(a: int, b: int) -> int {
    if a >= b {
        a
    } else {
        b
    }
}

/// The scheduler's abstract state.
pub struct ScheduleView {
    /// World x of the column generated next.
    pub next_x: int,
    /// Columns left of this are inside the current chasm (if it started).
    pub gap_until: int,
    /// World x at which the next chasm opens.
    pub next_gap_at: int,
    /// World x at which the hill waves pick a new segment.
    pub seg_end: int,
    /// World x of the last rock placed.
    pub last_rock: int,
    /// The snow-tile sequencer.
    pub tiles: TileState,
}

/// The schedule of a fresh run whose terrain starts at `start_x`, given the
/// jitter drawn for the first chasm and the length drawn for the first
/// wave segment (at least 1 column). No chasm is open: the terrain
/// generated left of the player's start is solid, so the first frames
/// already show ground.
pub open spec fn fresh_schedule(start_x: int, gap_jitter: int, seg_draw: int) -> ScheduleView {
    ScheduleView {
        next_x: start_x,
        gap_until: start_x,
        next_gap_at: FIRST_GAP_AT + gap_jitter,
        seg_end: start_x + max_int(seg_draw, 1),
        last_rock: NO_ROCK_YET as int,
        tiles: initial_state(),
    }
}

/// Dawn has no chasms: at the start of a run no chasm is open from the
/// terrain's first column on, and none is due before world x 900, so every
/// column from the start up to world x 900 is solid ground.
pub proof fn lemma_dawn_has_no_chasms(start_x: int, gap_jitter: int, seg_draw: int, x: int)
    requires
        0 <= gap_jitter < FIRST_GAP_JITTER,
        start_x <= x < FIRST_GAP_AT,
    ensures
        !(x < fresh_schedule(start_x, gap_jitter, seg_draw).gap_until),
        x < fresh_schedule(start_x, gap_jitter, seg_draw).next_gap_at,
{
}

/// Decides, column by column, the integer side of world generation.
pub struct ColumnScheduler {
    next_gen_x: i32,
    gap_until_x: i32,
    next_gap_at_x: i32,
    wave_seg_end_x: i32,
    last_rock_x: i32,
    tiles: TileSequencer,
}

impl View for ColumnScheduler {
    type V = ScheduleView;

    /// The abstract state.
    closed spec fn view(&self) -> ScheduleView {
        ScheduleView {
            next_x: self.next_gen_x as int,
            gap_until: self.gap_until_x as int,
            next_gap_at: self.next_gap_at_x as int,
            seg_end: self.wave_seg_end_x as int,
            last_rock: self.last_rock_x as int,
            tiles: self.tiles.state(),
        }
    }
}

impl ColumnScheduler {
    /// The schedule of a fresh run whose terrain starts at `start_x`, with
    /// the first chasm `gap_jitter` columns after `FIRST_GAP_AT` and a first
    /// wave segment of `seg_draw` columns (at least 1).
    pub fn starting_at(start_x: i32, gap_jitter: i32, seg_draw: i32) -> (s: Self)
        requires
            FIRST_GAP_AT + gap_jitter <= i32::MAX,
            start_x + max_int(seg_draw as int, 1) <= i32::MAX,
        ensures
            s.view() == fresh_schedule(start_x as int, gap_jitter as int, seg_draw as int),
    {
        let seg_len: i32 = if seg_draw >= 1 {
            seg_draw
        } else {
            1
        };
        ColumnScheduler {
            next_gen_x: start_x,
            gap_until_x: start_x,
            next_gap_at_x: FIRST_GAP_AT + gap_jitter,
            wave_seg_end_x: start_x + seg_len,
            last_rock_x: NO_ROCK_YET,
            tiles: TileSequencer::new(),
        }
    }

    /// The schedule of a fresh run whose terrain starts at `start_x`: the
    /// first chasm opens at a random column in `900 .. 1300`, the first wave
    /// segment lasts a random `240 .. 520` columns (drawn in that order).
    pub fn new(start_x: i32) -> (s: Self)
        requires
            start_x <= i32::MAX - SEGMENT_MAX,
        ensures
            exists|j: int, d: int|
                0 <= j < FIRST_GAP_JITTER && SEGMENT_MIN <= d < SEGMENT_MAX && s.view()
                    == fresh_schedule(start_x as int, j, d),
            s.view().next_x == start_x,
            FIRST_GAP_AT <= s.view().next_gap_at < FIRST_GAP_AT + FIRST_GAP_JITTER,
            start_x + SEGMENT_MIN <= s.view().seg_end < start_x + SEGMENT_MAX,
    {
        let gap_jitter: i32 = random_in(0, FIRST_GAP_JITTER);
        let seg_draw: i32 = random_in(SEGMENT_MIN, SEGMENT_MAX);
        ColumnScheduler::starting_at(start_x, gap_jitter, seg_draw)
    }

    /// World x of the column generated next.
    pub fn next_x(&self) -> (x: i32)
        ensures
            x == self.view().next_x,
    {
        self.next_gen_x
    }

    /// World x of the last rock placed.
    pub fn last_rock_x(&self) -> (x: i32)
        ensures
            x == self.view().last_rock,
    {
        self.last_rock_x
    }

    /// Whether the hill waves need a new segment before this column.
    pub fn needs_wave_segment(&self) -> (b: bool)
        ensures
            b == (self.view().next_x >= self.view().seg_end),
    {
        self.next_gen_x >= self.wave_seg_end_x
    }

    /// Starts a wave segment of `seg_draw` columns (at least 1) at the next column.
    pub fn start_wave_segment_with(&mut self, seg_draw: i32)
        requires
            old(self).view().next_x + max_int(seg_draw as int, 1) <= i32::MAX,
        ensures
            final(self).view() == (ScheduleView {
                seg_end: old(self).view().next_x + max_int(seg_draw as int, 1),
                ..old(self).view()
            }),
    {
        let seg_len: i32 = if seg_draw >= 1 {
            seg_draw
        } else {
            1
        };
        self.wave_seg_end_x = self.next_gen_x + seg_len;
    }

    /// Starts a wave segment of a random `240 .. 520` columns at the next column.
    pub fn start_wave_segment(&mut self)
        requires
            old(self).view().next_x <= i32::MAX - SEGMENT_MAX,
        ensures
            final(self).view() == (ScheduleView { seg_end: final(self).view().seg_end, ..old(self).view() }),
            old(self).view().next_x + SEGMENT_MIN <= final(self).view().seg_end < old(self).view().next_x
                + SEGMENT_MAX,
    {
        let seg_draw: i32 = random_in(SEGMENT_MIN, SEGMENT_MAX);
        self.start_wave_segment_with(seg_draw);
    }

    /// Whether a chasm opens at the next column.
    pub fn gap_due(&self) -> (b: bool)
        ensures
            b == (self.view().next_x >= self.view().next_gap_at),
    {
        self.next_gen_x >= self.next_gap_at_x
    }

    /// Opens a chasm at the next column, `gap_draw` columns wide (at least
    /// 18), and schedules the next one `spacing_draw` columns (at least 60)
    /// after its end.
    pub fn open_gap(&mut self, gap_draw: i32, spacing_draw: i32)
        requires
            old(self).view().next_x + max_int(gap_draw as int, MIN_GAP_LEN as int) + max_int(
                spacing_draw as int,
                MIN_GAP_SPACING as int,
            ) <= i32::MAX,
        ensures
            final(self).view() == (ScheduleView {
                gap_until: old(self).view().next_x + max_int(gap_draw as int, MIN_GAP_LEN as int),
                next_gap_at: old(self).view().next_x + max_int(gap_draw as int, MIN_GAP_LEN as int)
                    + max_int(spacing_draw as int, MIN_GAP_SPACING as int),
                ..old(self).view()
            }),
            final(self).view().gap_until - old(self).view().next_x >= MIN_GAP_LEN,
            final(self).view().next_gap_at - final(self).view().gap_until >= MIN_GAP_SPACING,
    {
        let gap_len: i32 = if gap_draw >= MIN_GAP_LEN {
            gap_draw
        } else {
            MIN_GAP_LEN
        };
        let spacing: i32 = if spacing_draw >= MIN_GAP_SPACING {
            spacing_draw
        } else {
            MIN_GAP_SPACING
        };
        self.gap_until_x = self.next_gen_x + gap_len;
        self.next_gap_at_x = self.gap_until_x + spacing;
    }

    /// Whether the next column is solid ground (not inside a chasm).
    pub fn column_solid(&self) -> (b: bool)
        ensures
            b == !(self.view().next_x < self.view().gap_until),
    {
        !(self.next_gen_x < self.gap_until_x)
    }

    /// Chooses the snow tile of the next column (see `TileSequencer::place`).
    pub fn place_tile(&mut self, solid: bool, band: SlopeBand) -> (tile: SnowTile)
        ensures
            tile == next_tile(old(self).view().tiles, solid, band),
            final(self).view() == (ScheduleView {
                tiles: next_state(old(self).view().tiles, solid, band),
                ..old(self).view()
            }),
    {
        self.tiles.place(solid, band)
    }

    /// Whether the next column is far enough from the last rock for another.
    pub fn rock_spacing_ok(&self) -> (b: bool)
        ensures
            b == (self.view().next_x - self.view().last_rock > ROCK_SPACING),
    {
        (self.next_gen_x as i64 - self.last_rock_x as i64) > ROCK_SPACING as i64
    }

    /// Records a rock placed on the next column.
    pub fn record_rock(&mut self)
        requires
            old(self).view().next_x - old(self).view().last_rock > ROCK_SPACING,
        ensures
            final(self).view() == (ScheduleView { last_rock: old(self).view().next_x, ..old(self).view() }),
            final(self).view().last_rock - old(self).view().last_rock > ROCK_SPACING,
    {
        self.last_rock_x = self.next_gen_x;
    }

    /// Moves on to the column right of the one just generated.
    pub fn advance(&mut self)
        requires
            old(self).view().next_x < i32::MAX,
        ensures
            final(self).view() == (ScheduleView { next_x: old(self).view().next_x + 1, ..old(self).view() }),
    {
        self.next_gen_x = self.next_gen_x + 1;
    }
}

} // verus!
