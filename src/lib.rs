//! Tile-map editor core: a fixed-point camera over a tile grid, the grid's
//! addressing arithmetic, the painted-tile store, and the map's persisted form.
//!
//! World coordinates are fixed-point integers with [`geometry::FIXED_ONE`]
//! steps per world pixel; zoom factors are thousandths; screen coordinates are
//! whole pixels.

pub mod geometry;
pub mod camera;
pub mod grid;
pub mod tile;
pub mod assets;
pub mod tiles;
pub mod map;
pub mod persist;
pub mod palette;
