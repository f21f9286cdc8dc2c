//! The map editor's grid state: painting tiles and entity descriptors onto
//! a fixed-size map and assembling the descriptor that gets persisted. The
//! editor's screen and prompt I/O live outside this crate.

use vstd::prelude::*;

use crate::display::{
    lemma_xy_idx_bounds, spec_xy_idx, Display, MEEntity, MapDescriptor, TileType,
};

verus! {

/// The editor's working copy of a map: the two grids being painted plus the
/// currently picked tile glyph and entity descriptor.
#[derive(Debug)]
pub struct MapEditorState {
    pub width: i32,
    pub height: i32,
    pub map_tiles: Vec<TileType>,
    pub entities: Vec<Option<MEEntity>>,
    pub picked_tile: Display,
    pub picked_entity: Option<MEEntity>,
}

impl MapEditorState {
    /// Well-formedness: positive dimensions and both grids of exactly
    /// `width * height` cells.
    pub open spec fn wf(self) -> bool {
        &&& 0 < self.width
        &&& 0 < self.height
        &&& self.map_tiles@.len() == self.width * self.height
        &&& self.entities@.len() == self.map_tiles@.len()
    }

    /// The floor glyph a fresh editor starts with.
    pub open spec fn spec_default_tile() -> Display {
        Display { glyph: 46, fg: (255, 255, 255), bg: (0, 0, 0) }
    }

    /// A fresh editor: an all-floor grid of the given size with no entity
    /// descriptors and the default floor glyph picked.
    pub fn new(width: i32, height: i32) -> (r: MapEditorState)
        requires
            0 < width,
            0 < height,
            width * height <= usize::MAX,
        ensures
            r.wf(),
            r.width == width,
            r.height == height,
            forall|c: int|
                0 <= c < r.map_tiles@.len() ==> (#[trigger] r.map_tiles@[c])
                    == TileType::Floor(MapEditorState::spec_default_tile()),
            forall|c: int| 0 <= c < r.entities@.len() ==> (#[trigger] r.entities@[c]) is None,
            r.picked_tile == MapEditorState::spec_default_tile(),
            r.picked_entity is None,
    {
        let total: usize = (width as usize) * (height as usize);
        let mut map_tiles: Vec<TileType> = Vec::new();
        let mut entities: Vec<Option<MEEntity>> = Vec::new();
        let mut i: usize = 0;
        while i < total
            invariant
                i <= total,
                map_tiles@.len() == i,
                entities@.len() == i,
                forall|c: int|
                    0 <= c < i ==> (#[trigger] map_tiles@[c]) == TileType::Floor(
                        MapEditorState::spec_default_tile(),
                    ),
                forall|c: int| 0 <= c < i ==> (#[trigger] entities@[c]) is None,
            decreases total - i,
        {
            map_tiles.push(
                TileType::Floor(Display { glyph: 46, fg: (255, 255, 255), bg: (0, 0, 0) }),
            );
            entities.push(None);
            i = i + 1;
        }
        MapEditorState {
            width,
            height,
            map_tiles,
            entities,
            picked_entity: None,
            picked_tile: Display { glyph: 46, fg: (255, 255, 255), bg: (0, 0, 0) },
        }
    }

    /// Row-major cell index of an in-bounds coordinate.
    pub fn xy_idx(&self, x: i32, y: i32) -> (r: usize)
        requires
            self.wf(),
            self.spec_in_bounds(x as int, y as int),
        ensures
            r as int == spec_xy_idx(self.width as int, x as int, y as int),
            r < self.map_tiles@.len(),
    {
        let n = self.map_tiles.len();
        proof {
            lemma_xy_idx_bounds(self.width as int, self.height as int, x as int, y as int);
            assert(spec_xy_idx(self.width as int, x as int, y as int) < n);
            assert((y as int) * (self.width as int) <= spec_xy_idx(
                self.width as int,
                x as int,
                y as int,
            ));
        }
        (y as usize) * (self.width as usize) + (x as usize)
    }

    pub open spec fn spec_in_bounds(self, x: int, y: int) -> bool {
        0 <= x < self.width && 0 <= y < self.height
    }

    pub fn in_bounds(&self, pos: (i32, i32)) -> (r: bool)
        ensures
            r == self.spec_in_bounds(pos.0 as int, pos.1 as int),
    {
        pos.0 >= 0 && pos.0 < self.width && pos.1 >= 0 && pos.1 < self.height
    }

    /// Paints a floor tile with the picked glyph; clicks outside the grid
    /// change nothing.
    pub fn handle_l_click(&mut self, pos: (i32, i32))
        requires
            old(self).wf(),
        ensures
            final(self).wf(),
            old(self).spec_in_bounds(pos.0 as int, pos.1 as int) ==> final(self).map_tiles@ == old(self).map_tiles@.update(
                spec_xy_idx(old(self).width as int, pos.0 as int, pos.1 as int),
                TileType::Floor(old(self).picked_tile),
            ),
            !old(self).spec_in_bounds(pos.0 as int, pos.1 as int) ==> final(self).map_tiles@
                == old(self).map_tiles@,
            final(self).entities@ == old(self).entities@,
            final(self).width == old(self).width,
            final(self).height == old(self).height,
            final(self).picked_tile == old(self).picked_tile,
            final(self).picked_entity == old(self).picked_entity,
    {
        if !self.in_bounds(pos) {
            return ;
        }
        let indx = self.xy_idx(pos.0, pos.1);
        self.map_tiles[indx] = TileType::Floor(self.picked_tile);
    }

    /// Paints a wall tile with the picked glyph; clicks outside the grid
    /// change nothing.
    pub fn handle_r_click(&mut self, pos: (i32, i32))
        requires
            old(self).wf(),
        ensures
            final(self).wf(),
            old(self).spec_in_bounds(pos.0 as int, pos.1 as int) ==> final(self).map_tiles@ == old(self).map_tiles@.update(
                spec_xy_idx(old(self).width as int, pos.0 as int, pos.1 as int),
                TileType::Wall(old(self).picked_tile),
            ),
            !old(self).spec_in_bounds(pos.0 as int, pos.1 as int) ==> final(self).map_tiles@
                == old(self).map_tiles@,
            final(self).entities@ == old(self).entities@,
            final(self).width == old(self).width,
            final(self).height == old(self).height,
            final(self).picked_tile == old(self).picked_tile,
            final(self).picked_entity == old(self).picked_entity,
    {
        if !self.in_bounds(pos) {
            return ;
        }
        let indx = self.xy_idx(pos.0, pos.1);
        self.map_tiles[indx] = TileType::Wall(self.picked_tile);
    }

    /// Stamps the picked entity descriptor onto a cell; clicks outside the
    /// grid change nothing.
    pub fn handle_e_click(&mut self, pos: (i32, i32))
        requires
            old(self).wf(),
        ensures
            final(self).wf(),
            old(self).spec_in_bounds(pos.0 as int, pos.1 as int) ==> {
                let c = spec_xy_idx(old(self).width as int, pos.0 as int, pos.1 as int);
                &&& final(self).entities@.len() == old(self).entities@.len()
                &&& (final(self).entities@[c] is Some <==> old(self).picked_entity is Some)
                &&& (final(self).entities@[c] matches Some(e) ==> e.like(
                    old(self).picked_entity->Some_0,
                ))
                &&& forall|c2: int|
                    0 <= c2 < old(self).entities@.len() && c2 != c ==> final(self).entities@[c2]
                        == old(self).entities@[c2]
            },
            !old(self).spec_in_bounds(pos.0 as int, pos.1 as int) ==> final(self).entities@ == old(self).entities@,
            final(self).map_tiles@ == old(self).map_tiles@,
            final(self).width == old(self).width,
            final(self).height == old(self).height,
            final(self).picked_tile == old(self).picked_tile,
            final(self).picked_entity == old(self).picked_entity,
    {
        if !self.in_bounds(pos) {
            return ;
        }
        let indx = self.xy_idx(pos.0, pos.1);
        let stamped: Option<MEEntity> = match &self.picked_entity {
            Some(e) => Some(e.clone()),
            None => None,
        };
        self.entities[indx] = stamped;
    }

    /// Clears the entity descriptor of a cell; clicks outside the grid
    /// change nothing rather than indexing out of the grid.
    pub fn remove_entity_at(&mut self, pos: (i32, i32))
        requires
            old(self).wf(),
        ensures
            final(self).wf(),
            old(self).spec_in_bounds(pos.0 as int, pos.1 as int) ==> final(self).entities@ == old(self).entities@.update(
                spec_xy_idx(old(self).width as int, pos.0 as int, pos.1 as int),
                None::<MEEntity>,
            ),
            !old(self).spec_in_bounds(pos.0 as int, pos.1 as int) ==> final(self).entities@
                == old(self).entities@,
            final(self).map_tiles@ == old(self).map_tiles@,
            final(self).width == old(self).width,
            final(self).height == old(self).height,
            final(self).picked_tile == old(self).picked_tile,
            final(self).picked_entity == old(self).picked_entity,
    {
        if !self.in_bounds(pos) {
            return ;
        }
        let indx = self.xy_idx(pos.0, pos.1);
        self.entities[indx] = None;
    }

    /// Copies the glyph of the tile under the cursor into the picked tile;
    /// out-of-bounds positions change nothing.
    pub fn pick_tile_at(&mut self, pos: (i32, i32))
        requires
            old(self).wf(),
        ensures
            final(self).wf(),
            old(self).spec_in_bounds(pos.0 as int, pos.1 as int) ==> final(self).picked_tile
                == match old(self).map_tiles@[spec_xy_idx(
                old(self).width as int,
                pos.0 as int,
                pos.1 as int,
            )] {
                TileType::Floor(t) => t,
                TileType::Wall(t) => t,
                TileType::Portal(t, _dest, _px, _py) => t,
            },
            !old(self).spec_in_bounds(pos.0 as int, pos.1 as int) ==> final(self).picked_tile
                == old(self).picked_tile,
            final(self).map_tiles@ == old(self).map_tiles@,
            final(self).entities@ == old(self).entities@,
            final(self).width == old(self).width,
            final(self).height == old(self).height,
            final(self).picked_entity == old(self).picked_entity,
    {
        if !self.in_bounds(pos) {
            return ;
        }
        let idx = self.xy_idx(pos.0, pos.1);
        self.picked_tile = match self.map_tiles[idx] {
            TileType::Floor(t) => t,
            TileType::Wall(t) => t,
            TileType::Portal(t, _dest, _px, _py) => t,
        };
    }

    /// Fills the whole grid with floor tiles of the picked glyph.
    pub fn fill_floor(&mut self)
        requires
            old(self).wf(),
        ensures
            final(self).wf(),
            final(self).map_tiles@.len() == old(self).map_tiles@.len(),
            forall|c: int|
                0 <= c < final(self).map_tiles@.len() ==> (#[trigger] final(self).map_tiles@[c])
                    == TileType::Floor(old(self).picked_tile),
            final(self).entities@ == old(self).entities@,
            final(self).width == old(self).width,
            final(self).height == old(self).height,
            final(self).picked_tile == old(self).picked_tile,
            final(self).picked_entity == old(self).picked_entity,
    {
        let n = self.map_tiles.len();
        let mut i: usize = 0;
        while i < n
            invariant
                i <= n,
                n == self.map_tiles@.len(),
                forall|c: int|
                    0 <= c < i ==> (#[trigger] self.map_tiles@[c]) == TileType::Floor(
                        old(self).picked_tile,
                    ),
                self.picked_tile == old(self).picked_tile,
                self.picked_entity == old(self).picked_entity,
                self.entities@ == old(self).entities@,
                self.width == old(self).width,
                self.height == old(self).height,
                self.map_tiles@.len() == old(self).map_tiles@.len(),
            decreases n - i,
        {
            let t = self.picked_tile;
            self.map_tiles[i] = TileType::Floor(t);
            i = i + 1;
        }
    }

    /// Places a portal tile (with the picked glyph) pointing at the given
    /// destination map and landing point; out-of-bounds positions change
    /// nothing rather than indexing out of the grid.
    pub fn place_portal(&mut self, pos: (i32, i32), destination: usize, x: i32, y: i32)
        requires
            old(self).wf(),
        ensures
            final(self).wf(),
            old(self).spec_in_bounds(pos.0 as int, pos.1 as int) ==> final(self).map_tiles@ == old(self).map_tiles@.update(
                spec_xy_idx(old(self).width as int, pos.0 as int, pos.1 as int),
                TileType::Portal(old(self).picked_tile, destination, x, y),
            ),
            !old(self).spec_in_bounds(pos.0 as int, pos.1 as int) ==> final(self).map_tiles@
                == old(self).map_tiles@,
            final(self).entities@ == old(self).entities@,
            final(self).width == old(self).width,
            final(self).height == old(self).height,
            final(self).picked_tile == old(self).picked_tile,
            final(self).picked_entity == old(self).picked_entity,
    {
        if !self.in_bounds(pos) {
            return ;
        }
        let idx = self.xy_idx(pos.0, pos.1);
        let t = self.picked_tile;
        self.map_tiles[idx] = TileType::Portal(t, destination, x, y);
    }

    /// Replaces the whole working copy with a loaded descriptor; a
    /// malformed descriptor is rejected with the editor unchanged.
    pub fn load_descriptor(&mut self, md: MapDescriptor) -> (r: bool)
        requires
            old(self).wf(),
        ensures
            final(self).wf(),
            r == md.wf(),
            r ==> final(self).width == md.width && final(self).height == md.height && final(self).map_tiles@ == md.tiles@ && final(self).entities@ == md.entities@,
            final(self).picked_tile == old(self).picked_tile,
            final(self).picked_entity == old(self).picked_entity,
            !r ==> *final(self) == *old(self),
    {
        if !(md.width > 0 && md.height > 0) {
            return false;
        }
        proof {
            assert((md.width as u64) * (md.height as u64) <= 0x4000_0000_0000_0000)
                by (nonlinear_arith)
                requires
                    0 < md.width as u64 <= 0x8000_0000,
                    0 < md.height as u64 <= 0x8000_0000,
            ;
        }
        if !(md.tiles.len() as u64 == (md.width as u64) * (md.height as u64) && md.entities.len()
            == md.tiles.len()) {
            return false;
        }
        let MapDescriptor { width, height, tiles, entities } = md;
        self.width = width;
        self.height = height;
        self.map_tiles = tiles;
        self.entities = entities;
        true
    }
}

} // verus!
