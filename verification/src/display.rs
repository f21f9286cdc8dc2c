//! Visual and map data: glyph/color triples, tile variants, map descriptors
//! and the row-major indexing scheme shared by tile and entity grids.

use vstd::prelude::*;

verus! {

/// A glyph with foreground and background colors, as drawn by the render
/// layer.
#[derive(Clone, Copy, PartialEq, Eq, Debug)]
pub struct Display {
    pub glyph: u16,
    pub fg: (u8, u8, u8),
    pub bg: (u8, u8, u8),
}

/// One cell of the tile grid. A `Portal` carries the destination map index
/// and the coordinates the player lands on there.
#[derive(Clone, Copy, PartialEq, Eq, Debug)]
pub enum TileType {
    Wall(Display),
    Floor(Display),
    Portal(Display, usize, i32, i32),
}

impl TileType {
    /// Whether an entity may stand on this tile.
    pub open spec fn is_passable(self) -> bool {
        !(self is Wall)
    }
}

/// An entity-spawn descriptor stored in a map: the name resolved by the
/// entity factory plus the glyph shown in the editor.
#[derive(Debug)]
pub struct MEEntity {
    pub d: Display,
    pub name: String,
}

impl MEEntity {
    /// Value equality: same display and same name text.
    pub open spec fn like(self, other: MEEntity) -> bool {
        self.d == other.d && self.name@ == other.name@
    }
}

impl Clone for MEEntity {
    fn clone(&self) -> (r: Self)
        ensures
            r.like(*self),
    {
        MEEntity { d: self.d, name: self.name.clone() }
    }
}

/// A persisted map: dimensions, the row-major tile grid, and a parallel grid
/// of optional entity-spawn descriptors.
pub struct MapDescriptor {
    pub width: i32,
    pub height: i32,
    pub tiles: Vec<TileType>,
    pub entities: Vec<Option<MEEntity>>,
}

impl MapDescriptor {
    /// Well-formedness: positive dimensions and both grids of exactly
    /// `width * height` cells.
    pub open spec fn wf(self) -> bool {
        &&& 0 < self.width
        &&& 0 < self.height
        &&& self.tiles@.len() == self.width * self.height
        &&& self.entities@.len() == self.tiles@.len()
    }
}

/// Row-major cell index of `(x, y)` in a grid `width` tiles wide.
pub open spec fn spec_xy_idx(width: int, x: int, y: int) -> int {
    y * width + x
}

/// A coordinate inside the bounds of a `width` by `height` grid has a
/// row-major index inside the grid's cell count.
pub proof fn lemma_xy_idx_bounds(w: int, h: int, x: int, y: int)
    requires
        0 <= x < w,
        0 <= y < h,
    ensures
        0 <= spec_xy_idx(w, x, y) < w * h,
{
    assert(0 <= y * w + x < w * h) by (nonlinear_arith)
        requires
            0 <= x < w,
            0 <= y < h,
    ;
}

/// Distinct in-bounds coordinates have distinct row-major indices.
pub proof fn lemma_xy_idx_injective(w: int, h: int, x1: int, y1: int, x2: int, y2: int)
    requires
        0 <= x1 < w,
        0 <= y1 < h,
        0 <= x2 < w,
        0 <= y2 < h,
        spec_xy_idx(w, x1, y1) == spec_xy_idx(w, x2, y2),
    ensures
        x1 == x2 && y1 == y2,
{
    assert(y1 * w + x1 == y2 * w + x2 && 0 <= x1 < w && 0 <= x2 < w ==> x1 == x2 && y1 == y2)
        by (nonlinear_arith)
        requires
            0 <= x1 < w,
            0 <= y1 < h,
            0 <= x2 < w,
            0 <= y2 < h,
    ;
}

} // verus!
