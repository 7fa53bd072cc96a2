use glider::game::tiles::{
    atlas_source, draw_lift, terrain_tile_xs, AtlasRect, SlopeBand, SnowTile, TileSequencer,
};

#[test]
fn steep_rise_enters_left_slope_through_round_tile() {
    let mut t = TileSequencer::new();
    assert_eq!(t.place(true, SlopeBand::SteepRise), SnowTile::SlopeLeftRound);
    assert_eq!(t.place(true, SlopeBand::Level), SnowTile::SlopeLeft);
    assert_eq!(t.place(true, SlopeBand::Rise), SnowTile::SlopeLeft);
    assert_eq!(t.place(true, SlopeBand::Level), SnowTile::Flat);
    assert_eq!(t.last_tile(), SnowTile::Flat);
}

#[test]
fn steep_fall_enters_right_slope_through_round_tile() {
    let mut t = TileSequencer::new();
    assert_eq!(t.place(true, SlopeBand::Fall), SnowTile::Flat);
    assert_eq!(t.place(true, SlopeBand::SteepFall), SnowTile::SlopeRightRound);
    assert_eq!(t.place(true, SlopeBand::SteepRise), SnowTile::SlopeRight);
    assert_eq!(t.place(true, SlopeBand::Fall), SnowTile::SlopeRight);
    assert_eq!(t.place(true, SlopeBand::FallThreshold), SnowTile::SlopeRight);
    assert_eq!(t.place(true, SlopeBand::Level), SnowTile::Flat);
}

#[test]
fn slopes_last_at_most_32_columns() {
    let mut t = TileSequencer::new();
    assert_eq!(t.place(true, SlopeBand::SteepRise), SnowTile::SlopeLeftRound);
    let mut count = 0;
    loop {
        let tile = t.place(true, SlopeBand::SteepRise);
        if tile != SnowTile::SlopeLeft {
            assert_eq!(tile, SnowTile::Flat);
            break;
        }
        count += 1;
    }
    assert_eq!(count, 32);
    // flat ground again: a steep rise starts a new slope
    assert_eq!(t.place(true, SlopeBand::SteepRise), SnowTile::SlopeLeftRound);
}

#[test]
fn gap_resets_to_flat() {
    let mut t = TileSequencer::new();
    t.place(true, SlopeBand::SteepFall);
    t.place(true, SlopeBand::SteepFall);
    assert_eq!(t.last_tile(), SnowTile::SlopeRight);
    assert_eq!(t.place(false, SlopeBand::SteepFall), SnowTile::Flat);
    assert_eq!(t.last_tile(), SnowTile::Flat);
    assert_eq!(t.place(true, SlopeBand::Fall), SnowTile::Flat);
    t.reset();
    assert_eq!(t.last_tile(), SnowTile::Flat);
}

#[test]
fn gentle_slopes_stay_flat() {
    let mut t = TileSequencer::new();
    for b in [SlopeBand::Rise, SlopeBand::Level, SlopeBand::FallThreshold, SlopeBand::Fall] {
        assert_eq!(t.place(true, b), SnowTile::Flat);
    }
}

#[test]
fn atlas_rectangles() {
    assert_eq!(atlas_source(SnowTile::Flat), AtlasRect { x: 128, y: 220, w: 64, h: 74 });
    assert_eq!(atlas_source(SnowTile::SlopeDown), AtlasRect { x: 128, y: 146, w: 64, h: 74 });
    assert_eq!(atlas_source(SnowTile::SlopeLeft), AtlasRect { x: 128, y: 74, w: 64, h: 72 });
    assert_eq!(atlas_source(SnowTile::SlopeLeftRound), AtlasRect { x: 128, y: 0, w: 64, h: 74 });
    assert_eq!(atlas_source(SnowTile::SlopeRight), AtlasRect { x: 64, y: 514, w: 64, h: 72 });
    assert_eq!(atlas_source(SnowTile::SlopeRightRound), AtlasRect { x: 64, y: 440, w: 64, h: 74 });
}

#[test]
fn draw_lifts() {
    assert_eq!(draw_lift(SnowTile::SlopeRight), 64);
    assert_eq!(draw_lift(SnowTile::SlopeRightRound), 64);
    assert_eq!(draw_lift(SnowTile::Flat), 0);
    assert_eq!(draw_lift(SnowTile::SlopeLeft), 0);
}

#[test]
fn tile_positions_of_a_pass() {
    let xs = terrain_tile_xs(130);
    assert_eq!(xs.len(), 24);
    assert_eq!(xs[0], 128);
    assert_eq!(xs[23], 128 + 23 * 64);
    // rounding toward zero for negative positions
    let ys = terrain_tile_xs(-130);
    assert_eq!(ys[0], -128);
    assert_eq!(ys[1], -64);
    let zs = terrain_tile_xs(-63);
    assert_eq!(zs[0], 0);
}
