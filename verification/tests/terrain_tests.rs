use glider::game::terrain::{Terrain, TerrainCol};
use glider::game::tiles::SnowTile;

fn col(y: f32, solid: bool) -> TerrainCol<f32> {
    TerrainCol { y, solid, tile: SnowTile::Flat }
}

fn filled(start: i32, solids: &[bool]) -> Terrain<f32> {
    let mut t = Terrain::new(start);
    for (i, s) in solids.iter().enumerate() {
        t.push(col(100.0 + i as f32, *s));
    }
    t
}

#[test]
fn column_lookup_by_world_x() {
    let t = filled(-5, &[true, false, true]);
    assert_eq!(t.start_x(), -5);
    assert_eq!(t.len(), 3);
    assert!(t.column_at(-6).is_none());
    assert_eq!(t.column_at(-5).unwrap().y, 100.0);
    assert!(!t.column_at(-4).unwrap().solid);
    assert_eq!(t.column_at(-3).unwrap().y, 102.0);
    assert!(t.column_at(-2).is_none());
    assert!(t.column_at(i32::MAX).is_none());
    assert!(t.column_at(i32::MIN).is_none());
}

#[test]
fn cull_keeps_columns_at_or_right_of_cut() {
    let mut t = filled(0, &[true; 10]);
    t.cull_before(4);
    assert_eq!(t.start_x(), 4);
    assert_eq!(t.len(), 6);
    assert!(t.column_at(3).is_none());
    assert_eq!(t.column_at(4).unwrap().y, 104.0);
    assert_eq!(t.column_at(9).unwrap().y, 109.0);
    assert!(t.column_at(10).is_none());
}

#[test]
fn cull_left_of_window_changes_nothing() {
    let mut t = filled(10, &[true; 3]);
    t.cull_before(10);
    assert_eq!((t.start_x(), t.len()), (10, 3));
    t.cull_before(-100);
    assert_eq!((t.start_x(), t.len()), (10, 3));
}

#[test]
fn cull_past_window_empties_it() {
    let mut t = filled(0, &[true; 3]);
    t.cull_before(3);
    assert_eq!((t.start_x(), t.len()), (3, 0));
    let mut u = filled(0, &[true; 3]);
    u.cull_before(50);
    assert_eq!((u.start_x(), u.len()), (50, 0));
    assert!(u.column_at(1).is_none());
}

#[test]
fn push_appends_at_the_end_and_reset_clears() {
    let mut t = filled(7, &[true, true]);
    t.push(col(5.0, false));
    assert_eq!(t.column_at(9).unwrap().y, 5.0);
    t.reset(-1600);
    assert_eq!((t.start_x(), t.len()), (-1600, 0));
    assert!(t.column_at(7).is_none());
}

#[test]
fn first_solid_column_is_found() {
    let t = filled(0, &[false, false, true, true]);
    assert_eq!(t.first_solid_from(0, 200), 2);
    assert_eq!(t.first_solid_from(3, 200), 3);
    assert_eq!(t.first_solid_from(0, 2), 2);
    let gaps = filled(0, &[false; 5]);
    assert_eq!(gaps.first_solid_from(0, 200), 200);
    assert_eq!(gaps.first_solid_from(10, 0), 10);
}

#[test]
fn solid_pair_needs_two_solid_columns() {
    let t = filled(0, &[true, true, false, true]);
    assert_eq!(t.solid_pair(0), Some((100.0, 101.0)));
    assert_eq!(t.solid_pair(1), None);
    assert_eq!(t.solid_pair(2), None);
    assert_eq!(t.solid_pair(3), None);
    assert_eq!(t.solid_pair(-1), None);
}

#[test]
fn visible_tiles_skip_gaps() {
    let mut solids = vec![true; 200];
    solids[64] = false;
    let t = filled(0, &solids);
    let v = t.visible_tiles(-10);
    // tile positions 0, 64, 128, 192, ... ; 64 is a chasm, positions past 199 are not stored
    let xs: Vec<i32> = v.iter().map(|(x, _)| *x).collect();
    assert_eq!(xs, vec![0, 128, 192]);
    assert_eq!(v[1].1.y, 228.0);
}
