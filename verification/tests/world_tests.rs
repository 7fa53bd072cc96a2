use glider::game::tiles::{SlopeBand, SnowTile};
use glider::game::world::World;

fn generate(w: &mut World<f32>, n: usize) {
    for _ in 0..n {
        let x = w.scheduler().next_x();
        w.generate_column(x as f32, SlopeBand::Level);
    }
}

#[test]
fn generate_places_each_column_at_its_x() {
    let mut w: World<f32> = World::starting_at(-1600, 0, 1000);
    generate(&mut w, 300);
    let t = w.terrain();
    assert_eq!(t.start_x(), -1600);
    assert_eq!(t.start_x() + t.len() as i32, w.scheduler().next_x());
    for x in -1600..-1300 {
        let c = t.column_at(x).unwrap();
        assert_eq!(c.y, x as f32);
        // the terrain generated left of the start is ground, not chasm
        assert!(c.solid);
        assert_eq!(c.tile, SnowTile::Flat);
    }
    assert!(t.column_at(-1300).is_none());
}

#[test]
fn generated_column_follows_the_schedule() {
    let mut w: World<f32> = World::starting_at(1000, 0, 5000);
    assert!(w.scheduler().gap_due());
    w.open_gap(20, 100);
    let c = w.generate_column(7.0, SlopeBand::SteepRise);
    assert!(!c.solid);
    assert_eq!(c.tile, SnowTile::Flat);
    assert_eq!(c.y, 7.0);
    assert!(!w.terrain().column_at(1000).unwrap().solid);
    generate(&mut w, 19);
    let d = w.generate_column(3.0, SlopeBand::SteepRise);
    assert!(d.solid);
    assert_eq!(d.tile, SnowTile::SlopeLeftRound);
    let e = w.generate_column(3.0, SlopeBand::Level);
    assert_eq!(e.tile, SnowTile::SlopeLeft);
    assert_eq!(w.terrain().column_at(1021).unwrap().tile, SnowTile::SlopeLeft);
}

#[test]
fn fresh_world_is_solid_until_900() {
    let mut w: World<f32> = World::new(-1600);
    generate(&mut w, 2500);
    for x in -1600..900 {
        assert!(w.terrain().column_at(x).unwrap().solid);
    }
}

#[test]
fn cull_inside_window_keeps_alignment() {
    let mut w: World<f32> = World::starting_at(0, 0, 1000);
    generate(&mut w, 100);
    w.cull_before(40);
    assert_eq!(w.terrain().start_x(), 40);
    assert!(w.terrain().column_at(39).is_none());
    assert_eq!(w.terrain().column_at(40).unwrap().y, 40.0);
    assert_eq!(w.terrain().start_x() + w.terrain().len() as i32, w.scheduler().next_x());
}

#[test]
fn cull_past_generated_end_moves_window_start_to_cut() {
    let mut w: World<f32> = World::starting_at(0, 0, 1000);
    generate(&mut w, 100);
    w.cull_before(500);
    assert_eq!(w.terrain().len(), 0);
    assert_eq!(w.terrain().start_x(), 500);
    assert_eq!(w.scheduler().next_x(), 100);
    // the next column is stored right after the window
    w.generate_column(1.5, SlopeBand::Level);
    assert_eq!(w.terrain().column_at(500).unwrap().y, 1.5);
}

#[test]
fn world_gap_and_rock_steps() {
    let mut w: World<f32> = World::starting_at(1000, 0, 5000);
    w.open_gap(20, 100);
    assert!(w.scheduler().rock_spacing_ok());
    w.record_rock();
    assert_eq!(w.scheduler().last_rock_x(), 1000);
    generate(&mut w, 20);
    assert!(w.scheduler().column_solid());
    assert!(!w.scheduler().needs_wave_segment());
    w.start_wave_segment();
    assert_eq!(w.terrain().len(), 20);
}
