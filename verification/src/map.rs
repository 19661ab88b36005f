use vstd::prelude::*;
use crate::components::Entity;

verus! {

/// Width of the dungeon map in tiles; grid indices are `y * MAP_WIDTH + x`.
pub const MAP_WIDTH: usize = 80;

/// The kind of a map tile. Spawns never land on a `DownStairs` tile.
#[derive(Clone, Copy, PartialEq, Eq, Structural, Debug)]
pub enum TileType {
    Wall,
    Floor,
    DownStairs,
}

/// A rectangular room boundary; interior points have `x1 < x <= x2` and
/// `y1 < y <= y2`.
#[derive(Clone, Copy, PartialEq, Eq, Structural, Debug)]
pub struct Rect {
    pub x1: i32,
    pub y1: i32,
    pub x2: i32,
    pub y2: i32,
}

/// The dungeon map as the core reads it: the kind of each tile, and the
/// per-tile list of entities currently occupying it, both indexed by the
/// flattened grid index.
pub struct GameMap {
    pub tiles: Vec<TileType>,
    pub tile_content: Vec<Vec<Entity>>,
}

/// The flattened grid index of the coordinate `(x, y)`.
pub open spec fn spec_xy_idx(x: int, y: int) -> int {
    y * (MAP_WIDTH as int) + x
}

impl GameMap {
    /// The tile-kind and tile-content columns describe the same grid.
    pub open spec fn wf(&self) -> bool {
        self.tiles@.len() == self.tile_content@.len()
    }

    /// Flatten a coordinate to a grid index.
    pub fn xy_idx(&self, x: i32, y: i32) -> (idx: usize)
        requires
            0 <= x,
            0 <= y,
            spec_xy_idx(x as int, y as int) <= usize::MAX,
        ensures
            idx as int == spec_xy_idx(x as int, y as int),
    {
        (y as usize) * MAP_WIDTH + (x as usize)
    }
}

} // verus!
