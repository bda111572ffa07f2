//! The tile map: three grids of the same size holding walls, floors and
//! ceilings.
//!
//! A wall cell holds 0 where the cell is open and `texture + 1` where it is
//! solid. Floor and ceiling cells hold a texture number directly; a ceiling
//! cell of 0 leaves the sky visible. Cell `(x, y)` is stored at index
//! `y * width + x`, and a probe that falls outside the grids reads as 0.
//! `Tile` tells what a wall cell holds without the arithmetic on its number.

use crate::fixed::floor_div;
use crate::fixed::TILE;
use vstd::prelude::*;

verus! {

/// Largest number of tiles along one edge of a map.
pub const MAX_MAP_EDGE: usize = 1024;

/// The wall value reserved for a door that can be opened.
pub const DOOR_TILE: u32 = 4;

/// Why a map was turned down.
#[derive(Debug, Clone, Copy, PartialEq, Eq, Structural)]
pub enum MapError {
    /// The width or the height is zero.
    Empty,
    /// The width or the height exceeds `MAX_MAP_EDGE`.
    TooLarge,
    /// A grid does not hold `width * height` cells.
    SizeMismatch,
}

/// What a wall cell holds.
#[derive(Debug, Clone, Copy, PartialEq, Eq, Structural)]
pub enum Tile {
    /// Nothing: the cell is open. An opened door is an empty cell too.
    Empty,
    /// A wall that shows the given texture.
    Solid { texture_id: u32 },
    /// A closed door.
    Door,
}

/// The tile that the wall value `value` stands for.
pub open spec fn tile_from(value: u32) -> Tile {
    if value == 0 {
        Tile::Empty
    } else if value == DOOR_TILE {
        Tile::Door
    } else {
        Tile::Solid { texture_id: (value - 1) as u32 }
    }
}

/// The wall value that stands for `tile`.
pub open spec fn tile_value(tile: Tile) -> int {
    match tile {
        Tile::Empty => 0,
        Tile::Solid { texture_id } => texture_id + 1,
        Tile::Door => DOOR_TILE as int,
    }
}

/// Every wall value is the value of the tile that it stands for, and every
/// tile but the wall that shows the texture of the doors comes back from
/// its value.
pub proof fn lemma_tile_round_trip(value: u32, tile: Tile)
    ensures
        tile_value(tile_from(value)) == value,
        tile_from(value) is Empty <==> value == 0,
        tile_value(tile) <= u32::MAX && tile != (Tile::Solid { texture_id: (DOOR_TILE - 1) as u32 })
            ==> tile_from(tile_value(tile) as u32) == tile,
{
}

impl Tile {
    /// The tile that the wall value `value` stands for.
    pub fn decode(value: u32) -> (tile: Tile)
        ensures
            tile == tile_from(value),
    {
        if value == 0 {
            Tile::Empty
        } else if value == DOOR_TILE {
            Tile::Door
        } else {
            Tile::Solid { texture_id: value - 1 }
        }
    }

    /// The wall value that stands for this tile; none for a wall whose
    /// texture number is too large to be stored.
    pub fn encode(self) -> (value: Option<u32>)
        ensures
            value is Some <==> tile_value(self) <= u32::MAX,
            value matches Some(v) ==> v == tile_value(self),
    {
        match self {
            Tile::Empty => Some(0),
            Tile::Solid { texture_id } => texture_id.checked_add(1),
            Tile::Door => Some(DOOR_TILE),
        }
    }

    /// The texture that the tile shows on its walls, if it has walls.
    pub fn texture(self) -> (t: Option<u32>)
        ensures
            t is Some <==> tile_value(self) > 0,
            t matches Some(id) ==> id == tile_value(self) - 1,
    {
        match self {
            Tile::Empty => None,
            Tile::Solid { texture_id } => Some(texture_id),
            Tile::Door => Some(DOOR_TILE - 1),
        }
    }
}

/// The tile grids of one level.
#[derive(Debug)]
pub struct TileMap {
    pub width: usize,
    pub height: usize,
    pub wall_tiles: Vec<u32>,
    pub floor_tiles: Vec<u32>,
    pub ceiling_tiles: Vec<u32>,
}

/// The tile coordinate that holds the world coordinate `c`.
pub open spec fn tile_of(c: int) -> int {
    c / (TILE as int)
}

/// The verdict on the sizes handed to `TileMap::new`.
pub open spec fn size_verdict(
    width: int,
    height: int,
    walls: int,
    floors: int,
    ceilings: int,
) -> Option<MapError> {
    if width == 0 || height == 0 {
        Some(MapError::Empty)
    } else if width > MAX_MAP_EDGE || height > MAX_MAP_EDGE {
        Some(MapError::TooLarge)
    } else if walls != width * height || floors != width * height || ceilings != width
        * height {
        Some(MapError::SizeMismatch)
    } else {
        None
    }
}

/// The wall grid `walls` with the cell at `idx` opened, where that cell
/// holds a door; the wall grid as it is otherwise.
pub open spec fn door_opened(walls: Seq<u32>, idx: int) -> Seq<u32> {
    if 0 <= idx < walls.len() && walls[idx] == DOOR_TILE {
        walls.update(idx, 0u32)
    } else {
        walls
    }
}

/// Opening a door a second time changes nothing, and neither does opening
/// a cell that is already open.
pub proof fn lemma_door_opens_once(walls: Seq<u32>, idx: int)
    ensures
        door_opened(door_opened(walls, idx), idx) == door_opened(walls, idx),
        0 <= idx < walls.len() && walls[idx] == 0 ==> door_opened(walls, idx) == walls,
        0 <= idx < walls.len() ==> door_opened(walls, idx)[idx] != DOOR_TILE,
{
}

/// The tile coordinate that holds the world coordinate `c`.
pub fn tile_index(c: i64) -> (t: i64)
    ensures
        t == tile_of(c as int),
{
    floor_div(c, TILE)
}

impl TileMap {
    /// Number of cells in each grid.
    pub open spec fn cells(&self) -> int {
        self.width * self.height
    }

    /// The grids are not empty, not too large, and all of the same size.
    pub open spec fn wf(&self) -> bool {
        &&& 0 < self.width <= MAX_MAP_EDGE
        &&& 0 < self.height <= MAX_MAP_EDGE
        &&& self.wall_tiles@.len() == self.cells()
        &&& self.floor_tiles@.len() == self.cells()
        &&& self.ceiling_tiles@.len() == self.cells()
    }

    /// Index of the cell `(mx, my)`.
    pub open spec fn cell_index(&self, mx: int, my: int) -> int {
        my * self.width + mx
    }

    /// Whether an index lies inside the grids.
    pub open spec fn in_grid(&self, idx: int) -> bool {
        0 <= idx < self.cells()
    }

    /// The wall value at `(mx, my)`; 0 outside the grid.
    pub open spec fn wall(&self, mx: int, my: int) -> u32 {
        if self.in_grid(self.cell_index(mx, my)) {
            self.wall_tiles@[self.cell_index(mx, my)]
        } else {
            0
        }
    }

    /// The floor texture at `(mx, my)`; 0 outside the grid.
    pub open spec fn floor(&self, mx: int, my: int) -> u32 {
        if self.in_grid(self.cell_index(mx, my)) {
            self.floor_tiles@[self.cell_index(mx, my)]
        } else {
            0
        }
    }

    /// The ceiling texture at `(mx, my)`; 0 outside the grid.
    pub open spec fn ceiling(&self, mx: int, my: int) -> u32 {
        if self.in_grid(self.cell_index(mx, my)) {
            self.ceiling_tiles@[self.cell_index(mx, my)]
        } else {
            0
        }
    }

    /// Whether the cell `(mx, my)` blocks movement and rays.
    pub open spec fn solid(&self, mx: int, my: int) -> bool {
        self.wall(mx, my) > 0
    }

    /// Whether the world point `(x, y)` lies in a solid cell.
    pub open spec fn solid_at(&self, x: int, y: int) -> bool {
        self.solid(tile_of(x), tile_of(y))
    }

    /// Every texture that the grids name exists among `count` textures.
    pub open spec fn textures_within(&self, count: int) -> bool {
        &&& forall|i: int| 0 <= i < self.cells() ==> (#[trigger] self.wall_tiles@[i]) <= count
        &&& forall|i: int| 0 <= i < self.cells() ==> (#[trigger] self.floor_tiles@[i]) < count
        &&& forall|i: int| 0 <= i < self.cells() ==> (#[trigger] self.ceiling_tiles@[i]) < count
    }

    /// Whether `other` is this map with, at most, a different wall grid.
    pub open spec fn same_but_walls(&self, other: &TileMap) -> bool {
        &&& other.width == self.width
        &&& other.height == self.height
        &&& other.floor_tiles@ == self.floor_tiles@
        &&& other.ceiling_tiles@ == self.ceiling_tiles@
        &&& other.wall_tiles@.len() == self.wall_tiles@.len()
    }

    /// A well-formed map has at least one cell and at most 1024 by 1024.
    pub proof fn lemma_cells(&self)
        requires
            self.wf(),
        ensures
            0 < self.cells() <= 1024 * 1024,
    {
        assert(0 < self.width * self.height <= 1024 * 1024) by (nonlinear_arith)
            requires
                0 < self.width <= 1024,
                0 < self.height <= 1024,
        ;
    }

    /// Builds a map from its three grids, each of `width * height` cells in
    /// row-major order.
    pub fn new(
        width: usize,
        height: usize,
        wall_tiles: Vec<u32>,
        floor_tiles: Vec<u32>,
        ceiling_tiles: Vec<u32>,
    ) -> (r: Result<TileMap, MapError>)
        ensures
            match size_verdict(
                width as int,
                height as int,
                wall_tiles@.len() as int,
                floor_tiles@.len() as int,
                ceiling_tiles@.len() as int,
            ) {
                Some(e) => r == Err::<TileMap, MapError>(e),
                None => r matches Ok(m) && m.wf() && m.width == width && m.height == height
                    && m.wall_tiles@ == wall_tiles@ && m.floor_tiles@ == floor_tiles@
                    && m.ceiling_tiles@ == ceiling_tiles@,
            },
    {
        if width == 0 || height == 0 {
            return Err(MapError::Empty);
        }
        if width > MAX_MAP_EDGE || height > MAX_MAP_EDGE {
            return Err(MapError::TooLarge);
        }
        assert(width * height <= 1024 * 1024) by (nonlinear_arith)
            requires
                0 < width <= 1024,
                0 < height <= 1024,
        ;
        let cells: usize = width * height;
        if wall_tiles.len() != cells || floor_tiles.len() != cells || ceiling_tiles.len()
            != cells {
            return Err(MapError::SizeMismatch);
        }
        Ok(TileMap { width, height, wall_tiles, floor_tiles, ceiling_tiles })
    }

    /// The index of the cell `(mx, my)`, where it lies inside the grids.
    pub fn locate(&self, mx: i64, my: i64) -> (r: Option<usize>)
        requires
            self.wf(),
        ensures
            r is Some <==> self.in_grid(self.cell_index(mx as int, my as int)),
            r matches Some(i) ==> i == self.cell_index(mx as int, my as int),
    {
        assert(self.width * self.height <= 1024 * 1024) by (nonlinear_arith)
            requires
                0 < self.width <= 1024,
                0 < self.height <= 1024,
        ;
        let cells: usize = self.width * self.height;
        assert(-0x8000_0000_0000_0000 * 1024 <= my * self.width <= 0x8000_0000_0000_0000 * 1024)
            by (nonlinear_arith)
            requires
                0 < self.width <= 1024,
                -0x8000_0000_0000_0000 <= my < 0x8000_0000_0000_0000,
        ;
        let idx: i128 = (my as i128) * (self.width as i128) + (mx as i128);
        if 0 <= idx && idx < cells as i128 {
            Some(idx as usize)
        } else {
            None
        }
    }

    /// The wall value of the cell `(mx, my)`; 0 outside the grid.
    pub fn wall_at(&self, mx: i64, my: i64) -> (v: u32)
        requires
            self.wf(),
        ensures
            v == self.wall(mx as int, my as int),
    {
        match self.locate(mx, my) {
            Some(i) => self.wall_tiles[i],
            None => 0,
        }
    }

    /// The floor texture of the cell `(mx, my)`; 0 outside the grid.
    pub fn floor_at(&self, mx: i64, my: i64) -> (v: u32)
        requires
            self.wf(),
        ensures
            v == self.floor(mx as int, my as int),
    {
        match self.locate(mx, my) {
            Some(i) => self.floor_tiles[i],
            None => 0,
        }
    }

    /// The ceiling texture of the cell `(mx, my)`; 0 outside the grid.
    pub fn ceiling_at(&self, mx: i64, my: i64) -> (v: u32)
        requires
            self.wf(),
        ensures
            v == self.ceiling(mx as int, my as int),
    {
        match self.locate(mx, my) {
            Some(i) => self.ceiling_tiles[i],
            None => 0,
        }
    }

    /// The tile in the cell `(mx, my)`; an empty one outside the grid.
    pub fn tile_at(&self, mx: i64, my: i64) -> (tile: Tile)
        requires
            self.wf(),
        ensures
            tile == tile_from(self.wall(mx as int, my as int)),
    {
        Tile::decode(self.wall_at(mx, my))
    }

    /// Whether the cell `(mx, my)` is solid. Cells outside the grid are open.
    pub fn is_solid(&self, mx: i64, my: i64) -> (b: bool)
        requires
            self.wf(),
        ensures
            b == self.solid(mx as int, my as int),
    {
        match self.tile_at(mx, my) {
            Tile::Empty => false,
            _ => true,
        }
    }

    /// Whether the world point `(x, y)` lies in a solid cell.
    pub fn is_solid_at(&self, x: i64, y: i64) -> (b: bool)
        requires
            self.wf(),
        ensures
            b == self.solid_at(x as int, y as int),
    {
        self.is_solid(tile_index(x), tile_index(y))
    }

    /// Whether every texture that the grids name exists among `count`
    /// textures.
    pub fn check_textures(&self, count: usize) -> (ok: bool)
        requires
            self.wf(),
        ensures
            ok == self.textures_within(count as int),
    {
        let n: usize = self.wall_tiles.len();
        let mut i: usize = 0;
        while i < n
            invariant
                0 <= i <= n,
                n == self.cells(),
                self.wf(),
                forall|j: int| 0 <= j < i ==> (#[trigger] self.wall_tiles@[j]) <= count,
                forall|j: int| 0 <= j < i ==> (#[trigger] self.floor_tiles@[j]) < count,
                forall|j: int| 0 <= j < i ==> (#[trigger] self.ceiling_tiles@[j]) < count,
            decreases n - i,
        {
            if self.wall_tiles[i] as usize > count || self.floor_tiles[i] as usize >= count
                || self.ceiling_tiles[i] as usize >= count {
                return false;
            }
            i = i + 1;
        }
        true
    }

    /// Opens the door in the cell `(mx, my)`: where that cell holds
    /// `DOOR_TILE` it becomes 0. Any other cell, and any probe outside the
    /// grid, leaves the map as it is.
    pub fn open_door(&mut self, mx: i64, my: i64)
        requires
            old(self).wf(),
        ensures
            final(self).wall_tiles@ == door_opened(
                old(self).wall_tiles@,
                old(self).cell_index(mx as int, my as int),
            ),
            old(self).same_but_walls(final(self)),
            final(self).wf(),
    {
        match self.locate(mx, my) {
            Some(i) => {
                match Tile::decode(self.wall_tiles[i]) {
                    Tile::Door => {
                        self.wall_tiles[i] = 0;
                    },
                    _ => {},
                }
            },
            None => {},
        }
    }
}

} // verus!
