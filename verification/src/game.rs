//! The discrete rules of the game: screen flow, combo meter, rider state,
//! terrain column store, snow-tile sequencing, column scheduling, the world
//! that keeps terrain and generator aligned, and screen fades.
pub mod combo;
pub mod effects;
pub mod flow;
pub mod rider;
pub mod schedule;
pub mod terrain;
pub mod tiles;
pub mod world;
