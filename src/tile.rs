use vstd::prelude::*;

verus! {

/// A tile position in tile units.
#[derive(Debug, Clone, Copy, PartialEq, Eq, Structural)]
pub struct Position {
    pub x: i32,
    pub y: i32,
}

/// Handle of a texture in a table owned outside the map; many tiles may share one.
#[derive(Debug, Clone, Copy, PartialEq, Eq, Structural)]
pub struct TileTexture {
    pub index: usize,
}

/// A width and a height in whole units.
#[derive(Debug, Clone, Copy, PartialEq, Eq, Structural)]
pub struct Dimensions {
    pub width: u32,
    pub height: u32,
}

/// Whether a tile can be walked on.
#[derive(Debug, Clone, Copy, PartialEq, Eq, Structural)]
pub struct Collider {
    pub is_walkable: bool,
}

/// A placed tile with its size, texture, position and collision data.
#[derive(Debug, Clone, Copy, PartialEq, Eq, Structural)]
pub struct Tile {
    dimensions: Dimensions,
    texture: TileTexture,
    position: Position,
    collider: Collider,
}

} // verus!
