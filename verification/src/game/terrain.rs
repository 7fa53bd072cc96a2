//! The procedural terrain, stored as one column per world-x pixel over a
//! sliding window: columns are appended on the right as the world is
//! generated and culled on the left once they are behind the camera.
use vstd::prelude::*;
use crate::game::tiles::{SnowTile, TILES_PER_PASS, TILE_W, first_tile_x, terrain_tile_xs};

verus! {

/// One terrain column: its surface height (of the caller's type `H`),
/// whether it is solid ground or part of a chasm, and its snow tile.
#[derive(Debug, Clone, Copy)]
pub struct TerrainCol<H> {
    /// Top of the terrain, in screen / world coordinates.
    pub y: H,
    /// False for a chasm column.
    pub solid: bool,
    pub tile: SnowTile,
}

/// Terrain columns for world x `start_x .. start_x + len`.
pub struct Terrain<H> {
    start_x: i32,
    cols: Vec<TerrainCol<H>>,
}

impl<H: Copy> Terrain<H> {
    /// World x of the first stored column.
    pub closed spec fn start(self) -> int {
        self.start_x as int
    }

    /// The stored columns, left to right.
    pub closed spec fn columns(self) -> Seq<TerrainCol<H>> {
        self.cols@
    }

    /// One past the world x of the last stored column.
    pub open spec fn end(self) -> int {
        self.start() + self.columns().len()
    }

    /// The column at world x `x`, if stored.
    pub open spec fn column(self, x: int) -> Option<TerrainCol<H>> {
        if self.start() <= x < self.end() {
            Some(self.columns()[x - self.start()])
        } else {
            None
        }
    }

    /// An empty terrain whose first column will be at world x `start_x`.
    pub fn new(start_x: i32) -> (t: Self)
        ensures
            t.start() == start_x,
            t.columns() == Seq::<TerrainCol<H>>::empty(),
    {
        Terrain { start_x, cols: Vec::new() }
    }

    /// Drops every column; the next one pushed will be at `start_x`.
    pub fn reset(&mut self, start_x: i32)
        ensures
            final(self).start() == start_x,
            final(self).columns() == Seq::<TerrainCol<H>>::empty(),
    {
        self.start_x = start_x;
        self.cols.clear();
    }

    /// World x of the first stored column.
    pub fn start_x(&self) -> (x: i32)
        ensures
            x == self.start(),
    {
        self.start_x
    }

    /// Number of stored columns.
    pub fn len(&self) -> (n: usize)
        ensures
            n == self.columns().len(),
    {
        self.cols.len()
    }

    /// The column at world x `world_x`, or `None` outside the stored window.
    pub fn column_at(&self, world_x: i32) -> (c: Option<TerrainCol<H>>)
        ensures
            c == self.column(world_x as int),
    {
        let idx: i64 = world_x as i64 - self.start_x as i64;
        if idx < 0 {
            return None;
        }
        if (idx as u64) < (self.cols.len() as u64) {
            let i: usize = idx as usize;
            Some(self.cols[i])
        } else {
            None
        }
    }

    /// Appends the column for world x `end()`.
    pub fn push(&mut self, col: TerrainCol<H>)
        ensures
            final(self).start() == old(self).start(),
            final(self).columns() == old(self).columns().push(col),
            final(self).column(old(self).end()) == Some(col),
            forall|x: int| x != old(self).end() ==> final(self).column(x) == old(self).column(x),
    {
        self.cols.push(col);
    }

    /// Whether the column at world x `x` is stored and solid.
    pub open spec fn solid_at(self, x: int) -> bool {
        self.column(x) matches Some(c) && c.solid
    }

    /// The first solid column among the `tries` columns from world x `from`,
    /// or `from + tries` when there is none: where a run starts.
    pub fn first_solid_from(&self, from: i32, tries: i32) -> (x: i32)
        requires
            0 <= tries,
            from + tries <= i32::MAX,
        ensures
            from <= x <= from + tries,
            x < from + tries ==> self.solid_at(x as int),
            forall|y: int| from <= y < x ==> !self.solid_at(y),
    {
        let mut center: i32 = from;
        let mut k: i32 = 0;
        while k < tries
            invariant
                0 <= k <= tries,
                from + tries <= i32::MAX,
                center == from + k,
                forall|y: int| from <= y < center ==> !self.solid_at(y),
            decreases tries - k,
        {
            let ok = match self.column_at(center) {
                Some(c) => c.solid,
                None => false,
            };
            if ok {
                return center;
            }
            center = center + 1;
            k = k + 1;
        }
        center
    }

    /// The heights of the columns at world x `ix` and `ix + 1` when both
    /// are stored and solid (what the slope under the player is measured on).
    pub fn solid_pair(&self, ix: i32) -> (r: Option<(H, H)>)
        requires
            ix < i32::MAX,
        ensures
            r == (if self.solid_at(ix as int) && self.solid_at(ix + 1) {
                Some((self.column(ix as int).unwrap().y, self.column(ix + 1).unwrap().y))
            } else {
                None
            }),
    {
        let c0 = match self.column_at(ix) {
            Some(c) => c,
            None => return None,
        };
        let c1 = match self.column_at(ix + 1) {
            Some(c) => c,
            None => return None,
        };
        if !c0.solid || !c1.solid {
            return None;
        }
        Some((c0.y, c1.y))
    }

    /// The solid columns among the first `k` tile positions of a drawing
    /// pass from `left_px`, with their world x, left to right.
    pub open spec fn visible_prefix(self, left_px: int, k: nat) -> Seq<(i32, TerrainCol<H>)>
        decreases k,
    {
        if k == 0 {
            Seq::empty()
        } else {
            let x: int = first_tile_x(left_px) + (k - 1) * TILE_W;
            let rest = self.visible_prefix(left_px, (k - 1) as nat);
            if self.solid_at(x) {
                rest.push((x as i32, self.column(x).unwrap()))
            } else {
                rest
            }
        }
    }

    /// The solid terrain columns at the tile positions of one drawing pass
    /// from `left_px` (see `terrain_tile_xs`), with their world x, left to
    /// right; chasm and unstored positions are skipped.
    pub fn visible_tiles(&self, left_px: i32) -> (r: Vec<(i32, TerrainCol<H>)>)
        requires
            first_tile_x(left_px as int) + 23 * TILE_W <= i32::MAX,
        ensures
            r@ == self.visible_prefix(left_px as int, TILES_PER_PASS as nat),
    {
        let xs = terrain_tile_xs(left_px);
        let mut r: Vec<(i32, TerrainCol<H>)> = Vec::new();
        let mut k: usize = 0;
        while k < xs.len()
            invariant
                xs.len() == TILES_PER_PASS,
                k <= xs.len(),
                forall|j: int| 0 <= j < TILES_PER_PASS ==> xs[j] == first_tile_x(left_px as int) + j * TILE_W,
                r@ == self.visible_prefix(left_px as int, k as nat),
            decreases xs.len() - k,
        {
            let x: i32 = xs[k];
            match self.column_at(x) {
                Some(c) => {
                    if c.solid {
                        r.push((x, c));
                    }
                },
                None => {},
            }
            k = k + 1;
        }
        r
    }

    /// Drops the columns left of world x `min_keep_x`. The window then
    /// starts at `min_keep_x` if it started further left; every column at or
    /// right of `min_keep_x` stays where it was, and the right end does not
    /// move unless the cut lies beyond it.
    pub fn cull_before(&mut self, min_keep_x: i32)
        ensures
            forall|x: int| x >= min_keep_x ==> final(self).column(x) == old(self).column(x),
            forall|x: int| x < min_keep_x ==> final(self).column(x) is None,
            final(self).start() == (if min_keep_x > old(self).start() {
                min_keep_x as int
            } else {
                old(self).start()
            }),
            min_keep_x <= old(self).end() ==> final(self).end() == old(self).end(),
            min_keep_x > old(self).end() ==> final(self).columns().len() == 0,
    {
        let remove: i64 = min_keep_x as i64 - self.start_x as i64;
        if remove > 0 {
            if (remove as u64) < (self.cols.len() as u64) {
                let n: usize = remove as usize;
                let kept = self.cols.split_off(n);
                self.cols = kept;
            } else {
                self.cols.clear();
            }
            self.start_x = min_keep_x;
        }
    }
}

} // verus!
