//! The generated world: the terrain window together with the scheduler that
//! extends it. Each generated column is stored right after the window, so
//! while the window ends where generation continues ("aligned", as every
//! fresh world is) each column lands at the world x it was generated for.
use vstd::prelude::*;
use crate::game::schedule::{
    ColumnScheduler, ScheduleView, fresh_schedule, max_int, FIRST_GAP_AT, FIRST_GAP_JITTER,
    MIN_GAP_LEN, MIN_GAP_SPACING, ROCK_SPACING, SEGMENT_MAX, SEGMENT_MIN,
};
use crate::game::terrain::{Terrain, TerrainCol};
use crate::game::tiles::{SlopeBand, SnowTile, next_state, next_tile};

verus! {

/// Whether the next column of schedule `v` is solid ground (outside a chasm).
pub open spec fn next_solid_of(v: ScheduleView) -> bool {
    !(v.next_x < v.gap_until)
}

/// The schedule after generating one column whose rise lies in `band`:
/// the tile sequencer moves on and generation advances by one column.
pub open spec fn after_generate(v: ScheduleView, band: SlopeBand) -> ScheduleView {
    ScheduleView {
        next_x: v.next_x + 1,
        tiles: next_state(v.tiles, next_solid_of(v), band),
        ..v
    }
}

/// The schedule after generating one column per band in `bands`.
pub open spec fn after_generating(v: ScheduleView, bands: Seq<SlopeBand>) -> ScheduleView
    decreases bands.len(),
{
    if bands.len() == 0 {
        v
    } else {
        after_generate(after_generating(v, bands.drop_last()), bands.last())
    }
}

/// Generating columns moves only the column position and the tiles.
proof fn lemma_generating_keeps_gaps(v: ScheduleView, bands: Seq<SlopeBand>)
    ensures
        after_generating(v, bands).next_x == v.next_x + bands.len(),
        after_generating(v, bands).gap_until == v.gap_until,
        after_generating(v, bands).next_gap_at == v.next_gap_at,
    decreases bands.len(),
{
    if bands.len() > 0 {
        lemma_generating_keeps_gaps(v, bands.drop_last());
    }
}

/// Dawn has no gaps, column by column: generating from a fresh run, every
/// column up to world x 900 is solid and no chasm falls due on the way.
pub proof fn lemma_dawn_columns_are_solid(
    start_x: int,
    gap_jitter: int,
    seg_draw: int,
    bands: Seq<SlopeBand>,
    i: int,
)
    requires
        0 <= gap_jitter < FIRST_GAP_JITTER,
        0 <= i < bands.len(),
        start_x + bands.len() <= FIRST_GAP_AT,
    ensures
        next_solid_of(after_generating(fresh_schedule(start_x, gap_jitter, seg_draw), bands.take(i))),
        after_generating(fresh_schedule(start_x, gap_jitter, seg_draw), bands.take(i)).next_x
            < after_generating(fresh_schedule(start_x, gap_jitter, seg_draw), bands.take(i)).next_gap_at,
{
    lemma_generating_keeps_gaps(fresh_schedule(start_x, gap_jitter, seg_draw), bands.take(i));
}

/// A chasm column resets the tile sequencer to flat ground, so the first
/// solid column after a chasm is chosen as from flat ground: a slope starts
/// only on a steep column, through its rounded tile.
pub proof fn lemma_chasm_resets_tiles(v: ScheduleView, b1: SlopeBand, b2: SlopeBand)
    requires
        !next_solid_of(v),
    ensures
        after_generate(v, b1).tiles.last_tile == SnowTile::Flat,
        after_generate(v, b1).tiles.run == v.tiles.run,
        after_generate(v, b1).next_x == v.next_x + 1,
        next_solid_of(after_generate(v, b1)) ==> next_tile(after_generate(v, b1).tiles, true, b2) == (
        if b2 == SlopeBand::SteepRise {
            SnowTile::SlopeLeftRound
        } else if b2 == SlopeBand::SteepFall {
            SnowTile::SlopeRightRound
        } else {
            SnowTile::Flat
        }),
{
}

/// A solid column's tile becomes the sequencer's last tile; generation
/// touches nothing of the schedule but the column position and the tiles.
pub proof fn lemma_solid_column_sets_last_tile(v: ScheduleView, b: SlopeBand)
    requires
        next_solid_of(v),
    ensures
        after_generate(v, b).tiles.last_tile == next_tile(v.tiles, true, b),
        after_generate(v, b).gap_until == v.gap_until,
        after_generate(v, b).next_gap_at == v.next_gap_at,
        after_generate(v, b).seg_end == v.seg_end,
        after_generate(v, b).last_rock == v.last_rock,
{
}

/// The terrain window and its generator.
pub struct World<H> {
    terrain: Terrain<H>,
    sched: ColumnScheduler,
}

impl<H: Copy> World<H> {
    /// The stored terrain.
    pub closed spec fn ground(self) -> Terrain<H> {
        self.terrain
    }

    /// The generator's state.
    pub closed spec fn schedule(self) -> ScheduleView {
        self.sched.view()
    }

    /// The window ends exactly where generation continues.
    pub open spec fn aligned(self) -> bool {
        self.ground().end() == self.schedule().next_x
    }

    /// A fresh world whose terrain starts, empty, at `start_x`, with the
    /// first chasm `gap_jitter` columns after 900 and a first wave segment
    /// of `seg_draw` columns (at least 1).
    pub fn starting_at(start_x: i32, gap_jitter: i32, seg_draw: i32) -> (w: Self)
        requires
            FIRST_GAP_AT + gap_jitter <= i32::MAX,
            start_x + max_int(seg_draw as int, 1) <= i32::MAX,
        ensures
            w.ground().start() == start_x,
            w.ground().columns().len() == 0,
            w.schedule() == fresh_schedule(start_x as int, gap_jitter as int, seg_draw as int),
            w.aligned(),
    {
        World {
            terrain: Terrain::new(start_x),
            sched: ColumnScheduler::starting_at(start_x, gap_jitter, seg_draw),
        }
    }

    /// A fresh world whose terrain starts, empty, at `start_x`; the first
    /// chasm opens at a random column in `900 .. 1300` and the first wave
    /// segment lasts a random `240 .. 520` columns.
    pub fn new(start_x: i32) -> (w: Self)
        requires
            start_x <= i32::MAX - SEGMENT_MAX,
        ensures
            w.ground().start() == start_x,
            w.ground().columns().len() == 0,
            exists|j: int, d: int|
                0 <= j < FIRST_GAP_JITTER && SEGMENT_MIN <= d < SEGMENT_MAX && w.schedule()
                    == fresh_schedule(start_x as int, j, d),
            w.aligned(),
    {
        World { terrain: Terrain::new(start_x), sched: ColumnScheduler::new(start_x) }
    }

    /// The stored terrain.
    pub fn terrain(&self) -> (t: &Terrain<H>)
        ensures
            *t == self.ground(),
    {
        &self.terrain
    }

    /// The generator.
    pub fn scheduler(&self) -> (s: &ColumnScheduler)
        ensures
            s.view() == self.schedule(),
    {
        &self.sched
    }

    /// Starts a wave segment of a random `240 .. 520` columns at the next column.
    pub fn start_wave_segment(&mut self)
        requires
            old(self).schedule().next_x <= i32::MAX - SEGMENT_MAX,
        ensures
            final(self).ground() == old(self).ground(),
            final(self).schedule() == (ScheduleView { seg_end: final(self).schedule().seg_end, ..old(self).schedule() }),
            old(self).schedule().next_x + SEGMENT_MIN <= final(self).schedule().seg_end
                < old(self).schedule().next_x + SEGMENT_MAX,
            old(self).aligned() ==> final(self).aligned(),
    {
        self.sched.start_wave_segment();
    }

    /// Opens a chasm at the next column (see `ColumnScheduler::open_gap`).
    pub fn open_gap(&mut self, gap_draw: i32, spacing_draw: i32)
        requires
            old(self).schedule().next_x + max_int(gap_draw as int, MIN_GAP_LEN as int) + max_int(
                spacing_draw as int,
                MIN_GAP_SPACING as int,
            ) <= i32::MAX,
        ensures
            final(self).ground() == old(self).ground(),
            final(self).schedule() == (ScheduleView {
                gap_until: old(self).schedule().next_x + max_int(gap_draw as int, MIN_GAP_LEN as int),
                next_gap_at: old(self).schedule().next_x + max_int(gap_draw as int, MIN_GAP_LEN as int)
                    + max_int(spacing_draw as int, MIN_GAP_SPACING as int),
                ..old(self).schedule()
            }),
            old(self).aligned() ==> final(self).aligned(),
    {
        self.sched.open_gap(gap_draw, spacing_draw);
    }

    /// Records a rock placed on the next column.
    pub fn record_rock(&mut self)
        requires
            old(self).schedule().next_x - old(self).schedule().last_rock > ROCK_SPACING,
        ensures
            final(self).ground() == old(self).ground(),
            final(self).schedule() == (ScheduleView { last_rock: old(self).schedule().next_x, ..old(self).schedule() }),
            old(self).aligned() ==> final(self).aligned(),
    {
        self.sched.record_rock();
    }

    /// Generates the next column with surface `y` and a rise from the
    /// previous solid column in `band`: it is solid unless inside a chasm,
    /// gets its snow tile from the sequencer, is stored right after the
    /// window (at the world x it was generated for when aligned), and
    /// generation moves on by one column.
    pub fn generate_column(&mut self, y: H, band: SlopeBand) -> (col: TerrainCol<H>)
        requires
            old(self).schedule().next_x < i32::MAX,
        ensures
            col.y == y,
            col.solid == next_solid_of(old(self).schedule()),
            col.tile == next_tile(old(self).schedule().tiles, col.solid, band),
            final(self).schedule() == after_generate(old(self).schedule(), band),
            col.solid == (old(self).schedule().next_x >= old(self).schedule().gap_until),
            !col.solid ==> col.tile == SnowTile::Flat && final(self).schedule().tiles.last_tile
                == SnowTile::Flat && final(self).schedule().tiles.run == old(self).schedule().tiles.run,
            col.solid ==> final(self).schedule().tiles.last_tile == col.tile,
            final(self).schedule().next_x == old(self).schedule().next_x + 1,
            final(self).schedule().gap_until == old(self).schedule().gap_until,
            final(self).schedule().next_gap_at == old(self).schedule().next_gap_at,
            final(self).schedule().seg_end == old(self).schedule().seg_end,
            final(self).schedule().last_rock == old(self).schedule().last_rock,
            final(self).ground().start() == old(self).ground().start(),
            final(self).ground().columns() == old(self).ground().columns().push(col),
            final(self).ground().column(old(self).ground().end()) == Some(col),
            forall|x: int| x != old(self).ground().end() ==> final(self).ground().column(x)
                == old(self).ground().column(x),
            old(self).aligned() ==> final(self).aligned(),
            old(self).aligned() ==> final(self).ground().column(old(self).schedule().next_x) == Some(col),
    {
        let solid = self.sched.column_solid();
        let tile = self.sched.place_tile(solid, band);
        let col = TerrainCol { y, solid, tile };
        self.terrain.push(col);
        self.sched.advance();
        col
    }

    /// Drops the columns left of world x `min_keep_x` (see
    /// `Terrain::cull_before`); the generator is untouched. A cut at or
    /// before the generated end keeps the world aligned.
    pub fn cull_before(&mut self, min_keep_x: i32)
        ensures
            forall|x: int| x >= min_keep_x ==> final(self).ground().column(x) == old(self).ground().column(x),
            forall|x: int| x < min_keep_x ==> final(self).ground().column(x) is None,
            final(self).ground().start() == max_int(old(self).ground().start(), min_keep_x as int),
            min_keep_x <= old(self).ground().end() ==> final(self).ground().end() == old(self).ground().end(),
            min_keep_x > old(self).ground().end() ==> final(self).ground().columns().len() == 0,
            final(self).schedule() == old(self).schedule(),
            old(self).aligned() && min_keep_x <= old(self).schedule().next_x ==> final(self).aligned(),
    {
        self.terrain.cull_before(min_keep_x);
    }
}

} // verus!
