//! A first-person ray-casting engine on integers.
//!
//! The engine turns a tile map, a player pose and a list of sprites into a
//! frame of RGBA pixels. All geometry is fixed-point: angles are counted in
//! tenths of a degree, coordinates in 1/256 of a world unit.

pub mod fixed;
pub mod trig;
pub mod map;
pub mod frame;
pub mod texture;
pub mod player;
pub mod raycast;
pub mod column;
pub mod sprite;
pub mod screen;
pub mod state;
pub mod world;
