//! The loaded map: the tile grid of the current map plus the spatial index
//! (grid cell to occupying entity), and the fixed table of known map names a
//! portal destination indexes into.

use vstd::prelude::*;

use crate::display::{lemma_xy_idx_bounds, spec_xy_idx, TileType};
use crate::registry::EntityId;

verus! {

/// Tile grid and spatial index of the currently loaded map. The two grids
/// are parallel, row-major, and replaced together on a map transition.
#[derive(Debug)]
pub struct MapState {
    pub map_width: i32,
    pub map_height: i32,
    pub tiles: Vec<TileType>,
    pub occupants: Vec<Option<EntityId>>,
    pub portal_locations: Vec<&'static str>,
    pub current_map: usize,
}

impl MapState {
    /// Well-formedness: positive dimensions and both grids of exactly
    /// `map_width * map_height` cells.
    pub open spec fn wf(self) -> bool {
        &&& 0 < self.map_width
        &&& 0 < self.map_height
        &&& self.tiles@.len() == self.map_width * self.map_height
        &&& self.occupants@.len() == self.tiles@.len()
    }

    pub open spec fn sp_in_bounds(self, x: int, y: int) -> bool {
        0 <= x < self.map_width && 0 <= y < self.map_height
    }

    /// Row-major cell index of `(x, y)`.
    pub open spec fn idx_of(self, x: int, y: int) -> int {
        spec_xy_idx(self.map_width as int, x, y)
    }

    pub open spec fn sp_tile(self, x: int, y: int) -> TileType {
        self.tiles@[self.idx_of(x, y)]
    }

    pub open spec fn sp_occupant(self, x: int, y: int) -> Option<EntityId> {
        self.occupants@[self.idx_of(x, y)]
    }

    pub fn in_bounds(&self, pos: (i32, i32)) -> (r: bool)
        ensures
            r == self.sp_in_bounds(pos.0 as int, pos.1 as int),
    {
        pos.0 >= 0 && pos.0 < self.map_width && pos.1 >= 0 && pos.1 < self.map_height
    }

    /// Row-major cell index of an in-bounds coordinate.
    pub fn xy_idx(&self, x: i32, y: i32) -> (r: usize)
        requires
            self.wf(),
            self.sp_in_bounds(x as int, y as int),
        ensures
            r as int == self.idx_of(x as int, y as int),
            r < self.tiles@.len(),
    {
        let n = self.tiles.len();
        proof {
            lemma_xy_idx_bounds(
                self.map_width as int,
                self.map_height as int,
                x as int,
                y as int,
            );
            assert(self.idx_of(x as int, y as int) < n);
            assert((y as int) * (self.map_width as int) <= self.idx_of(x as int, y as int));
        }
        (y as usize) * (self.map_width as usize) + (x as usize)
    }

    /// The coordinate of a cell index: the inverse of `xy_idx`.
    pub fn idx_xy(&self, idx: usize) -> (r: (i32, i32))
        requires
            self.wf(),
            idx < self.tiles@.len(),
        ensures
            self.sp_in_bounds(r.0 as int, r.1 as int),
            self.idx_of(r.0 as int, r.1 as int) == idx as int,
    {
        let w = self.map_width as usize;
        let x = idx % w;
        let y = idx / w;
        proof {
            vstd::arithmetic::div_mod::lemma_fundamental_div_mod(idx as int, w as int);
            assert((idx as int) / (w as int) < self.map_height as int) by (nonlinear_arith)
                requires
                    w as int == self.map_width as int,
                    0 < w as int,
                    (idx as int) < (self.map_width as int) * (self.map_height as int),
                    (idx as int) / (w as int) * (w as int) + (idx as int) % (w as int)
                        == idx as int,
                    0 <= (idx as int) % (w as int) < w as int,
            ;
        }
        (x as i32, y as i32)
    }

    /// The tile at an in-bounds coordinate.
    pub fn tile_at(&self, x: i32, y: i32) -> (r: TileType)
        requires
            self.wf(),
            self.sp_in_bounds(x as int, y as int),
        ensures
            r == self.sp_tile(x as int, y as int),
    {
        let idx = self.xy_idx(x, y);
        self.tiles[idx]
    }

    /// Replaces the tile at an in-bounds coordinate.
    pub fn set_tile_at(&mut self, x: i32, y: i32, t: TileType)
        requires
            old(self).wf(),
            old(self).sp_in_bounds(x as int, y as int),
        ensures
            final(self).tiles@ == old(self).tiles@.update(old(self).idx_of(x as int, y as int), t),
            final(self).occupants@ == old(self).occupants@,
            final(self).map_width == old(self).map_width,
            final(self).map_height == old(self).map_height,
            final(self).portal_locations == old(self).portal_locations,
            final(self).current_map == old(self).current_map,
            final(self).wf(),
    {
        let idx = self.xy_idx(x, y);
        self.tiles[idx] = t;
    }

    /// The entity occupying `pos`, if any; out-of-bounds positions are
    /// empty.
    pub fn lookup(&self, pos: (i32, i32)) -> (r: Option<EntityId>)
        requires
            self.wf(),
        ensures
            r == if self.sp_in_bounds(pos.0 as int, pos.1 as int) {
                self.sp_occupant(pos.0 as int, pos.1 as int)
            } else {
                None::<EntityId>
            },
    {
        if !self.in_bounds(pos) {
            return None;
        }
        let idx = self.xy_idx(pos.0, pos.1);
        self.occupants[idx]
    }

    /// Records that `id` occupies `pos`; returns whether the cell was
    /// previously empty.
    pub fn set(&mut self, pos: (i32, i32), id: EntityId) -> (was_empty: bool)
        requires
            old(self).wf(),
            old(self).sp_in_bounds(pos.0 as int, pos.1 as int),
        ensures
            final(self).occupants@ == old(self).occupants@.update(
                old(self).idx_of(pos.0 as int, pos.1 as int),
                Some(id),
            ),
            was_empty == (old(self).sp_occupant(pos.0 as int, pos.1 as int) is None),
            final(self).tiles@ == old(self).tiles@,
            final(self).map_width == old(self).map_width,
            final(self).map_height == old(self).map_height,
            final(self).portal_locations == old(self).portal_locations,
            final(self).current_map == old(self).current_map,
            final(self).wf(),
    {
        let idx = self.xy_idx(pos.0, pos.1);
        let was_empty = self.occupants[idx].is_none();
        self.occupants[idx] = Some(id);
        was_empty
    }

    /// Empties the cell at `pos`; returns whether something was present.
    pub fn clear(&mut self, pos: (i32, i32)) -> (was_occupied: bool)
        requires
            old(self).wf(),
            old(self).sp_in_bounds(pos.0 as int, pos.1 as int),
        ensures
            final(self).occupants@ == old(self).occupants@.update(
                old(self).idx_of(pos.0 as int, pos.1 as int),
                None::<EntityId>,
            ),
            was_occupied == (old(self).sp_occupant(pos.0 as int, pos.1 as int) is Some),
            final(self).tiles@ == old(self).tiles@,
            final(self).map_width == old(self).map_width,
            final(self).map_height == old(self).map_height,
            final(self).portal_locations == old(self).portal_locations,
            final(self).current_map == old(self).current_map,
            final(self).wf(),
    {
        let idx = self.xy_idx(pos.0, pos.1);
        let was_occupied = self.occupants[idx].is_some();
        self.occupants[idx] = None;
        was_occupied
    }

    /// Records `id` at `pos`, insisting the cell was empty; filling an
    /// occupied cell would desynchronize the index from the registry.
    pub fn strict_add_from_pos(&mut self, pos: (i32, i32), id: EntityId)
        requires
            old(self).wf(),
            old(self).sp_in_bounds(pos.0 as int, pos.1 as int),
            old(self).sp_occupant(pos.0 as int, pos.1 as int) is None,
        ensures
            final(self).occupants@ == old(self).occupants@.update(
                old(self).idx_of(pos.0 as int, pos.1 as int),
                Some(id),
            ),
            final(self).tiles@ == old(self).tiles@,
            final(self).map_width == old(self).map_width,
            final(self).map_height == old(self).map_height,
            final(self).portal_locations == old(self).portal_locations,
            final(self).current_map == old(self).current_map,
            final(self).wf(),
    {
        self.set(pos, id);
    }

    /// Empties the whole spatial index.
    pub fn clear_entities(&mut self)
        ensures
            final(self).occupants@.len() == old(self).occupants@.len(),
            forall|c: int|
                0 <= c < final(self).occupants@.len() ==> final(self).occupants@[c] is None,
            final(self).tiles@ == old(self).tiles@,
            final(self).map_width == old(self).map_width,
            final(self).map_height == old(self).map_height,
            final(self).portal_locations == old(self).portal_locations,
            final(self).current_map == old(self).current_map,
            old(self).wf() ==> final(self).wf(),
    {
        let n = self.occupants.len();
        let mut i: usize = 0;
        while i < n
            invariant
                n == self.occupants@.len(),
                i <= n,
                forall|c: int| 0 <= c < i ==> self.occupants@[c] is None,
                self.tiles@ == old(self).tiles@,
                self.occupants@.len() == old(self).occupants@.len(),
                self.map_width == old(self).map_width,
                self.map_height == old(self).map_height,
                self.portal_locations == old(self).portal_locations,
                self.current_map == old(self).current_map,
            decreases n - i,
        {
            self.occupants[i] = None;
            i = i + 1;
        }
    }
}

} // verus!
