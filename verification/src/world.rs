//! The game state: the entity registry and the loaded map, kept mutually
//! consistent. Every positioned live entity is recorded in the spatial index
//! at exactly its position, every occupied cell points back at its occupant,
//! and exactly one live entity carries the player tag.

use vstd::prelude::*;

use crate::camera::Camera;
use crate::map::MapState;
use crate::registry::{ComponentSet, EcsError, EntityId, Registry};
use crate::stats::StatBlock;

verus! {

/// The simulation state one game session owns.
#[derive(Debug)]
pub struct State {
    pub ecs: Registry,
    pub map_state: MapState,
    pub queued_destruction: Vec<EntityId>,
    pub camera: Camera,
    pub waiting_for_directional_input: bool,
    pub directional_callback: Option<usize>,
    pub destination_next_tick: Option<(usize, i32, i32)>,
}

/// Whether slot `i` of `reg` holds a live entity tagged as the player.
pub open spec fn reg_player_at(reg: Registry, i: int) -> bool {
    reg.live(i) && reg.comps_at(i).player is Some
}

impl State {
    /// Whether slot `i` holds a live entity tagged as the player.
    pub open spec fn player_at(self, i: int) -> bool {
        reg_player_at(self.ecs, i)
    }

    /// Whether `id` names the live player entity.
    pub open spec fn is_player(self, id: EntityId) -> bool {
        self.ecs.valid(id) && self.ecs.comps(id).player is Some
    }

    /// Whether `id` names a live entity with a position component.
    pub open spec fn positioned(self, id: EntityId) -> bool {
        self.ecs.valid(id) && self.ecs.comps(id).basic is Some
    }

    /// The position component of `id` (meaningful when `positioned`).
    pub open spec fn basic_of(self, id: EntityId) -> crate::components::BasicEntity {
        self.ecs.comps(id).basic->Some_0
    }

    /// The stat component of `id` (meaningful when it exists).
    pub open spec fn stats_of(self, id: EntityId) -> StatBlock {
        self.ecs.comps(id).stats->Some_0
    }

    /// Spatial/registry consistency: every positioned live entity is in
    /// bounds and indexed at exactly its cell, and every occupied cell names
    /// a positioned live entity whose position is that cell.
    pub open spec fn spatial_ok(self) -> bool {
        &&& forall|i: int|
            0 <= i < self.ecs.num_slots() && self.ecs.live(i) && (#[trigger] self.ecs.comps_at(
                i,
            )).basic is Some ==> {
                let b = self.ecs.comps_at(i).basic->Some_0;
                &&& self.map_state.sp_in_bounds(b.x as int, b.y as int)
                &&& self.map_state.occupants@[self.map_state.idx_of(b.x as int, b.y as int)]
                    == Some(self.ecs.id_at(i))
            }
        &&& forall|c: int|
            0 <= c < self.map_state.occupants@.len() && (#[trigger] self.map_state.occupants@[c])
                is Some ==> {
                let id = self.map_state.occupants@[c]->Some_0;
                &&& self.ecs.valid(id)
                &&& self.ecs.comps(id).basic is Some
                &&& self.map_state.sp_in_bounds(
                    self.ecs.comps(id).basic->Some_0.x as int,
                    self.ecs.comps(id).basic->Some_0.y as int,
                )
                &&& self.map_state.idx_of(
                    self.ecs.comps(id).basic->Some_0.x as int,
                    self.ecs.comps(id).basic->Some_0.y as int,
                ) == c
            }
    }

    /// Every live entity's stat block is well-formed.
    pub open spec fn stats_ok(self) -> bool {
        forall|i: int|
            0 <= i < self.ecs.num_slots() && self.ecs.live(i) && (#[trigger] self.ecs.comps_at(
                i,
            )).stats is Some ==> self.ecs.comps_at(i).stats->Some_0.inv()
    }

    /// Exactly one live entity carries the player tag, and it has a position
    /// and stats.
    pub open spec fn player_ok(self) -> bool {
        &&& exists|i: int| #[trigger] reg_player_at(self.ecs, i)
        &&& forall|i: int, j: int|
            reg_player_at(self.ecs, i) && reg_player_at(self.ecs, j) ==> i == j
        &&& forall|i: int|
            #[trigger] reg_player_at(self.ecs, i) ==> self.ecs.comps_at(i).basic is Some
                && self.ecs.comps_at(i).stats is Some
    }

    /// Consistency of registry, map and spatial index (everything but the
    /// player-uniqueness clause, which briefly fails while a session is
    /// being assembled).
    pub open spec fn wf_core(self) -> bool {
        &&& self.ecs.wf()
        &&& self.map_state.wf()
        &&& self.spatial_ok()
        &&& self.stats_ok()
    }

    /// Full well-formedness of a running session.
    pub open spec fn wf(self) -> bool {
        self.wf_core() && self.player_ok()
    }

    /// The slot of the unique player entity.
    pub open spec fn player_slot(self) -> int {
        choose|i: int| reg_player_at(self.ecs, i)
    }

    /// The handle of the unique player entity.
    pub open spec fn player_id_spec(self) -> EntityId {
        self.ecs.id_at(self.player_slot())
    }

    /// The fields of the state a registry/spatial operation leaves alone.
    pub open spec fn frame_fields_same(pre: State, post: State) -> bool {
        &&& post.queued_destruction@ == pre.queued_destruction@
        &&& post.camera == pre.camera
        &&& post.waiting_for_directional_input == pre.waiting_for_directional_input
        &&& post.directional_callback == pre.directional_callback
        &&& post.destination_next_tick == pre.destination_next_tick
    }

    /// Tile grid, dimensions and portal table are unchanged (the occupant
    /// grid may differ).
    pub open spec fn map_same_but_occupants(pre: State, post: State) -> bool {
        &&& post.map_state.tiles@ == pre.map_state.tiles@
        &&& post.map_state.map_width == pre.map_state.map_width
        &&& post.map_state.map_height == pre.map_state.map_height
        &&& post.map_state.portal_locations == pre.map_state.portal_locations
        &&& post.map_state.current_map == pre.map_state.current_map
    }

    pub fn map_width(&self) -> (r: i32)
        ensures
            r == self.map_state.map_width,
    {
        self.map_state.map_width
    }

    pub fn map_height(&self) -> (r: i32)
        ensures
            r == self.map_state.map_height,
    {
        self.map_state.map_height
    }

    pub fn in_bounds(&self, x: i32, y: i32) -> (r: bool)
        ensures
            r == self.map_state.sp_in_bounds(x as int, y as int),
    {
        self.map_state.in_bounds((x, y))
    }

    /// Whether the tile at `(x, y)` lets an entity stand there: in bounds
    /// and not a wall. (Occupancy is checked separately by movement.)
    pub fn can_move(&self, x: i32, y: i32) -> (r: bool)
        requires
            self.wf_core(),
        ensures
            r == self.spec_can_move(x as int, y as int),
    {
        self.in_bounds(x, y) && match self.map_state.tile_at(x, y) {
            crate::display::TileType::Wall(_) => false,
            _ => true,
        }
    }

    pub open spec fn spec_can_move(self, x: int, y: int) -> bool {
        self.map_state.sp_in_bounds(x, y) && self.map_state.sp_tile(x, y).is_passable()
    }

    /// Replaces the tile at an in-bounds coordinate.
    pub fn set_tile(&mut self, x: i32, y: i32, t: crate::display::TileType)
        requires
            old(self).wf_core(),
            old(self).map_state.sp_in_bounds(x as int, y as int),
        ensures
            final(self).wf_core(),
            old(self).wf() ==> final(self).wf(),
            final(self).map_state.tiles@ == old(self).map_state.tiles@.update(
                old(self).map_state.idx_of(x as int, y as int),
                t,
            ),
            final(self).map_state.occupants@ == old(self).map_state.occupants@,
            final(self).map_state.map_width == old(self).map_state.map_width,
            final(self).map_state.map_height == old(self).map_state.map_height,
            final(self).ecs == old(self).ecs,
            State::frame_fields_same(*old(self), *final(self)),
    {
        self.map_state.set_tile_at(x, y, t);
    }

    /// The handle of the unique player entity.
    pub fn get_player_id(&self) -> (r: EntityId)
        requires
            self.wf(),
        ensures
            r == self.player_id_spec(),
            self.is_player(r),
            self.positioned(r),
            self.ecs.comps(r).stats is Some,
    {
        let found = self.ecs.find_player();
        match found {
            Some(id) => {
                proof {
                    assert(self.player_at(id.idx as int));
                    assert(self.player_at(self.player_slot()));
                }
                id
            },
            None => {
                proof {
                    let i = choose|i: int| self.player_at(i);
                    assert(self.ecs.live(i) && self.ecs.comps_at(i).player is Some);
                    assert(false);
                }
                EntityId { idx: 0, gen: 0 }
            },
        }
    }

    /// A copy of the player's position component.
    pub fn get_player(&self) -> (r: crate::components::BasicEntity)
        requires
            self.wf(),
        ensures
            r == self.basic_of(self.player_id_spec()),
    {
        let pid = self.get_player_id();
        match self.ecs.get_basic(pid) {
            Ok(b) => *b,
            Err(_) => {
                proof {
                    assert(false);
                }
                crate::components::BasicEntity {
                    x: 0,
                    y: 0,
                    d: crate::display::Display { glyph: 0, fg: (0, 0, 0), bg: (0, 0, 0) },
                }
            },
        }
    }

    /// A copy of the player's stat block.
    pub fn get_player_stat_block(&self) -> (r: StatBlock)
        requires
            self.wf(),
        ensures
            r == self.stats_of(self.player_id_spec()),
            r.inv(),
    {
        let pid = self.get_player_id();
        match self.ecs.get_stats(pid) {
            Ok(s) => *s,
            Err(_) => {
                proof {
                    assert(false);
                }
                StatBlock::default()
            },
        }
    }

    /// A copy of any entity's stat block, fail-soft.
    pub fn get_stats(&self, id: EntityId) -> (r: Result<StatBlock, EcsError>)
        ensures
            match r {
                Ok(s) => self.ecs.valid(id) && self.ecs.comps(id).stats == Some(s),
                Err(e) => (e == EcsError::UnknownEntity && !self.ecs.valid(id)) || (
                e == EcsError::MissingComponent && self.ecs.valid(id) && self.ecs.comps(
                    id,
                ).stats is None),
            },
    {
        match self.ecs.get_stats(id) {
            Ok(s) => Ok(*s),
            Err(e) => Err(e),
        }
    }

    /// A copy of any entity's position component, fail-soft.
    pub fn get_basic(&self, id: EntityId) -> (r: Result<
        crate::components::BasicEntity,
        EcsError,
    >)
        ensures
            match r {
                Ok(b) => self.ecs.valid(id) && self.ecs.comps(id).basic == Some(b),
                Err(e) => (e == EcsError::UnknownEntity && !self.ecs.valid(id)) || (
                e == EcsError::MissingComponent && self.ecs.valid(id) && self.ecs.comps(
                    id,
                ).basic is None),
            },
    {
        match self.ecs.get_basic(id) {
            Ok(b) => Ok(*b),
            Err(e) => Err(e),
        }
    }

    /// Remembers `slot` for the deferred-destruction sweep at the end of the
    /// game step.
    pub fn queue_destruction(&mut self, slot: EntityId)
        ensures
            final(self).queued_destruction@ == old(self).queued_destruction@.push(slot),
            final(self).ecs == old(self).ecs,
            final(self).map_state == old(self).map_state,
            final(self).camera == old(self).camera,
            final(self).waiting_for_directional_input == old(self).waiting_for_directional_input,
            final(self).directional_callback == old(self).directional_callback,
            final(self).destination_next_tick == old(self).destination_next_tick,
            old(self).wf_core() ==> final(self).wf_core(),
            old(self).wf() ==> final(self).wf(),
    {
        self.queued_destruction.push(slot);
    }

    /// Spawns an entity from a component bundle and records it in the
    /// spatial index if it has a position. A positioned bundle must land on
    /// an empty in-bounds cell; a stat-bearing bundle must be well-formed; a
    /// player-tagged bundle is only for assembling a fresh session.
    pub fn spawn_bundle(&mut self, comps: ComponentSet) -> (id: EntityId)
        requires
            old(self).wf_core(),
            comps.basic is Some ==> {
                let b = comps.basic->Some_0;
                &&& old(self).map_state.sp_in_bounds(b.x as int, b.y as int)
                &&& old(self).map_state.sp_occupant(b.x as int, b.y as int) is None
            },
            comps.stats is Some ==> comps.stats->Some_0.inv(),
            comps.player is Some ==> comps.basic is Some && comps.stats is Some,
        ensures
            final(self).wf_core(),
            final(self).ecs.valid(id),
            final(self).ecs.comps(id) == comps,
            !old(self).ecs.valid(id),
            !old(self).ecs.live(id.idx as int),
            (id.idx as int) < old(self).ecs.num_slots() ==> id.gen == old(self).ecs.gen_of(
                id.idx as int,
            ),
            old(self).ecs.num_slots() <= final(self).ecs.num_slots() <= old(self).ecs.num_slots()
                + 1,
            final(self).ecs.num_slots() == old(self).ecs.num_slots() + 1 ==> id.idx as int == old(self).ecs.num_slots(),
            final(self).ecs.num_slots() == old(self).ecs.num_slots() ==> (id.idx as int) < old(self).ecs.num_slots(),
            forall|i: int|
                0 <= i < old(self).ecs.num_slots() && i != id.idx as int ==> {
                    &&& final(self).ecs.live(i) == old(self).ecs.live(i)
                    &&& final(self).ecs.gen_of(i) == old(self).ecs.gen_of(i)
                    &&& final(self).ecs.comps_at(i) == old(self).ecs.comps_at(i)
                },
            State::map_same_but_occupants(*old(self), *final(self)),
            comps.basic is Some ==> final(self).map_state.occupants@ == old(self).map_state.occupants@.update(
                old(self).map_state.idx_of(
                    comps.basic->Some_0.x as int,
                    comps.basic->Some_0.y as int,
                ),
                Some(id),
            ),
            comps.basic is None ==> final(self).map_state.occupants@ == old(self).map_state.occupants@,
            State::frame_fields_same(*old(self), *final(self)),
            old(self).player_ok() && comps.player is None ==> final(self).player_ok(),
            !(exists|i: int| #[trigger] reg_player_at(old(self).ecs, i)) && comps.player is Some
                ==> final(self).player_ok(),
    {
        let has_basic = comps.basic.is_some();
        let ghost pre = *self;
        let pos: Option<(i32, i32)> = match &comps.basic {
            Some(b) => Some((b.x, b.y)),
            None => None,
        };
        let id = self.ecs.spawn(comps);
        match pos {
            Some(p) => {
                self.map_state.strict_add_from_pos(p, id);
            },
            None => {},
        }
        proof {
            let post = *self;
            let w = pre.map_state.map_width as int;
            let h = pre.map_state.map_height as int;
            if comps.basic is Some {
                crate::display::lemma_xy_idx_bounds(
                    w,
                    h,
                    comps.basic->Some_0.x as int,
                    comps.basic->Some_0.y as int,
                );
            }
            assert forall|i: int|
                0 <= i < post.ecs.num_slots() && post.ecs.live(i) && (#[trigger] post.ecs.comps_at(
                    i,
                )).basic is Some implies {
                let b = post.ecs.comps_at(i).basic->Some_0;
                &&& post.map_state.sp_in_bounds(b.x as int, b.y as int)
                &&& post.map_state.occupants@[post.map_state.idx_of(b.x as int, b.y as int)]
                    == Some(post.ecs.id_at(i))
            } by {
                if i != id.idx as int {
                    assert(0 <= i < pre.ecs.num_slots());
                    assert(pre.ecs.live(i) && pre.ecs.comps_at(i).basic is Some);
                    let b = pre.ecs.comps_at(i).basic->Some_0;
                    let c = pre.map_state.idx_of(b.x as int, b.y as int);
                    crate::display::lemma_xy_idx_bounds(w, h, b.x as int, b.y as int);
                    assert(pre.map_state.occupants@[c] == Some(pre.ecs.id_at(i)));
                    if comps.basic is Some {
                        let nc = pre.map_state.idx_of(
                            comps.basic->Some_0.x as int,
                            comps.basic->Some_0.y as int,
                        );
                        assert(pre.map_state.occupants@[nc] is None);
                        assert(c != nc);
                    }
                }
            }
            assert forall|c: int|
                0 <= c < post.map_state.occupants@.len() && (
                #[trigger] post.map_state.occupants@[c]) is Some implies {
                let oid = post.map_state.occupants@[c]->Some_0;
                &&& post.ecs.valid(oid)
                &&& post.ecs.comps(oid).basic is Some
                &&& post.map_state.sp_in_bounds(
                    post.ecs.comps(oid).basic->Some_0.x as int,
                    post.ecs.comps(oid).basic->Some_0.y as int,
                )
                &&& post.map_state.idx_of(
                    post.ecs.comps(oid).basic->Some_0.x as int,
                    post.ecs.comps(oid).basic->Some_0.y as int,
                ) == c
            } by {
                let newcell: int = if comps.basic is Some {
                    pre.map_state.idx_of(comps.basic->Some_0.x as int, comps.basic->Some_0.y as int)
                } else {
                    -1
                };
                if c != newcell {
                    assert(post.map_state.occupants@[c] == pre.map_state.occupants@[c]);
                    let oid = pre.map_state.occupants@[c]->Some_0;
                    assert(pre.ecs.valid(oid));
                    assert(oid.idx as int != id.idx as int);
                }
            }
            assert forall|i: int| #[trigger]
                reg_player_at(post.ecs, i) && i != id.idx as int implies reg_player_at(pre.ecs, i)
                && pre.ecs.comps_at(i) == post.ecs.comps_at(i) by {
                assert(0 <= i < pre.ecs.num_slots());
            }
            if pre.player_ok() && comps.player is None {
                let i = choose|i: int| reg_player_at(pre.ecs, i);
                assert(reg_player_at(post.ecs, i));
                assert(!reg_player_at(post.ecs, id.idx as int));
                assert forall|a: int, b: int|
                    reg_player_at(post.ecs, a) && reg_player_at(post.ecs, b) implies a == b by {
                    assert(reg_player_at(pre.ecs, a) && reg_player_at(pre.ecs, b));
                }
                assert(post.player_ok());
            }
            if !(exists|i: int| reg_player_at(pre.ecs, i)) && comps.player is Some {
                assert(reg_player_at(post.ecs, id.idx as int));
                assert forall|a: int, b: int|
                    reg_player_at(post.ecs, a) && reg_player_at(post.ecs, b) implies a == b by {
                    if a != id.idx as int {
                        assert(reg_player_at(pre.ecs, a));
                    }
                    if b != id.idx as int {
                        assert(reg_player_at(pre.ecs, b));
                    }
                }
                assert(post.player_ok());
            }
        }
        id
    }

    /// Removes the entity `id` names, clearing its spatial-index cell first.
    /// A handle that does not resolve is skipped softly; the caller learns
    /// whether anything was removed.
    pub fn remove_entity(&mut self, id: EntityId) -> (removed: bool)
        requires
            old(self).wf_core(),
        ensures
            final(self).wf_core(),
            removed == old(self).ecs.valid(id),
            !removed ==> *final(self) == *old(self),
            removed ==> {
                &&& !final(self).ecs.live(id.idx as int)
                &&& final(self).ecs.gen_of(id.idx as int) != id.gen
                &&& final(self).ecs.comps_at(id.idx as int) == ComponentSet::spec_empty()
                &&& final(self).ecs.num_slots() == old(self).ecs.num_slots()
                &&& forall|i: int|
                    0 <= i < old(self).ecs.num_slots() && i != id.idx as int ==> {
                        &&& final(self).ecs.live(i) == old(self).ecs.live(i)
                        &&& final(self).ecs.gen_of(i) == old(self).ecs.gen_of(i)
                        &&& final(self).ecs.comps_at(i) == old(self).ecs.comps_at(i)
                    }
                &&& State::map_same_but_occupants(*old(self), *final(self))
                &&& State::frame_fields_same(*old(self), *final(self))
                &&& (old(self).positioned(id) ==> final(self).map_state.occupants@ == old(self).map_state.occupants@.update(
                    old(self).map_state.idx_of(
                        old(self).basic_of(id).x as int,
                        old(self).basic_of(id).y as int,
                    ),
                    None::<EntityId>,
                ))
                &&& (!old(self).positioned(id) ==> final(self).map_state.occupants@ == old(self).map_state.occupants@)
            },
            old(self).player_ok() && !old(self).is_player(id) ==> final(self).player_ok(),
    {
        let ghost pre = *self;
        if !self.ecs.is_valid(id) {
            return false;
        }
        let pos: Option<(i32, i32)> = match self.ecs.get_basic(id) {
            Ok(b) => Some((b.x, b.y)),
            Err(_) => None,
        };
        match pos {
            Some(p) => {
                proof {
                    assert(pre.ecs.live(id.idx as int) && pre.ecs.comps_at(
                        id.idx as int,
                    ).basic is Some);
                }
                self.map_state.clear(p);
            },
            None => {},
        }
        let r = self.ecs.despawn(id);
        proof {
            let post = *self;
            let w = pre.map_state.map_width as int;
            let h = pre.map_state.map_height as int;
            vstd::std_specs::vec::axiom_spec_len(&pre.ecs.slots);
            assert(r is Ok);
            assert forall|i: int|
                0 <= i < post.ecs.num_slots() && post.ecs.live(i) && (#[trigger] post.ecs.comps_at(
                    i,
                )).basic is Some implies {
                let b = post.ecs.comps_at(i).basic->Some_0;
                &&& post.map_state.sp_in_bounds(b.x as int, b.y as int)
                &&& post.map_state.occupants@[post.map_state.idx_of(b.x as int, b.y as int)]
                    == Some(post.ecs.id_at(i))
            } by {
                assert(i != id.idx as int);
                assert(pre.ecs.live(i) && pre.ecs.comps_at(i).basic is Some);
                let b = pre.ecs.comps_at(i).basic->Some_0;
                let c = pre.map_state.idx_of(b.x as int, b.y as int);
                crate::display::lemma_xy_idx_bounds(w, h, b.x as int, b.y as int);
                assert(pre.map_state.occupants@[c] == Some(pre.ecs.id_at(i)));
                if pre.positioned(id) {
                    let ob = pre.basic_of(id);
                    let c0 = pre.map_state.idx_of(ob.x as int, ob.y as int);
                    crate::display::lemma_xy_idx_bounds(w, h, ob.x as int, ob.y as int);
                    assert(pre.map_state.occupants@[c0] == Some(pre.ecs.id_at(id.idx as int)));
                    assert(pre.ecs.id_at(i) != pre.ecs.id_at(id.idx as int));
                    assert(c != c0);
                }
            }
            assert forall|c: int|
                0 <= c < post.map_state.occupants@.len() && (
                #[trigger] post.map_state.occupants@[c]) is Some implies {
                let oid = post.map_state.occupants@[c]->Some_0;
                &&& post.ecs.valid(oid)
                &&& post.ecs.comps(oid).basic is Some
                &&& post.map_state.sp_in_bounds(
                    post.ecs.comps(oid).basic->Some_0.x as int,
                    post.ecs.comps(oid).basic->Some_0.y as int,
                )
                &&& post.map_state.idx_of(
                    post.ecs.comps(oid).basic->Some_0.x as int,
                    post.ecs.comps(oid).basic->Some_0.y as int,
                ) == c
            } by {
                if pre.positioned(id) {
                    let ob = pre.basic_of(id);
                    let c0 = pre.map_state.idx_of(ob.x as int, ob.y as int);
                    crate::display::lemma_xy_idx_bounds(w, h, ob.x as int, ob.y as int);
                    assert(post.map_state.occupants@[c0] is None);
                    assert(c != c0);
                }
                assert(pre.map_state.occupants@[c] == post.map_state.occupants@[c]);
                let oid = pre.map_state.occupants@[c]->Some_0;
                assert(pre.ecs.valid(oid));
                if pre.positioned(id) {
                    let ob = pre.basic_of(id);
                    let c0 = pre.map_state.idx_of(ob.x as int, ob.y as int);
                    assert(c != c0);
                    assert(oid != id);
                }
                assert(oid.idx as int != id.idx as int);
            }
            if pre.player_ok() && !pre.is_player(id) {
                let i = choose|i: int| reg_player_at(pre.ecs, i);
                assert(i != id.idx as int);
                assert(reg_player_at(post.ecs, i));
                assert forall|a: int, b: int|
                    reg_player_at(post.ecs, a) && reg_player_at(post.ecs, b) implies a == b by {
                    assert(a != id.idx as int && b != id.idx as int);
                    assert(reg_player_at(pre.ecs, a) && reg_player_at(pre.ecs, b));
                }
                assert(post.player_ok());
            }
        }
        true
    }

    /// Despawns `slot`, which must name a live non-player entity; the player
    /// is never destroyed.
    pub fn dispose_slot(&mut self, slot: EntityId)
        requires
            old(self).wf(),
            old(self).ecs.valid(slot),
            !old(self).is_player(slot),
        ensures
            final(self).wf(),
            !final(self).ecs.valid(slot),
            !final(self).ecs.live(slot.idx as int),
            final(self).ecs.num_slots() == old(self).ecs.num_slots(),
            forall|i: int|
                0 <= i < old(self).ecs.num_slots() && i != slot.idx as int ==> {
                    &&& final(self).ecs.live(i) == old(self).ecs.live(i)
                    &&& final(self).ecs.gen_of(i) == old(self).ecs.gen_of(i)
                    &&& final(self).ecs.comps_at(i) == old(self).ecs.comps_at(i)
                },
            State::map_same_but_occupants(*old(self), *final(self)),
            State::frame_fields_same(*old(self), *final(self)),
    {
        let removed = self.remove_entity(slot);
    }
}

/// Where a move by `(x, y)` from `id`'s position lands.
pub open spec fn spec_move_dest(s: State, id: EntityId, x: int, y: int) -> (int, int) {
    (s.basic_of(id).x + x, s.basic_of(id).y + y)
}

/// Whether the move is taken: the mover is positioned, the destination tile
/// is in bounds and passable, and the destination cell is empty (or the
/// mover's own).
pub open spec fn spec_move_allowed(s: State, id: EntityId, x: int, y: int) -> bool {
    let dest = spec_move_dest(s, id, x, y);
    &&& s.positioned(id)
    &&& s.spec_can_move(dest.0, dest.1)
    &&& (s.map_state.sp_occupant(dest.0, dest.1) is None || s.map_state.sp_occupant(dest.0, dest.1)
        == Some(id))
}

/// The state after a taken move: the mover's position component and its two
/// spatial-index cells are updated, and nothing else changes.
pub open spec fn spec_moved(pre: State, post: State, id: EntityId, x: int, y: int) -> bool {
    let dest = spec_move_dest(pre, id, x, y);
    &&& crate::registry::reg_same_except(pre.ecs, post.ecs, id.idx as int)
    &&& post.ecs.comps_at(id.idx as int) == (ComponentSet {
        basic: Some(
            crate::components::BasicEntity {
                x: dest.0 as i32,
                y: dest.1 as i32,
                d: pre.basic_of(id).d,
            },
        ),
        ..pre.ecs.comps_at(id.idx as int)
    })
    &&& post.map_state.occupants@ == pre.map_state.occupants@.update(
        pre.map_state.idx_of(pre.basic_of(id).x as int, pre.basic_of(id).y as int),
        None::<EntityId>,
    ).update(pre.map_state.idx_of(dest.0, dest.1), Some(id))
    &&& State::map_same_but_occupants(pre, post)
}

impl State {
    /// Moves `entity` by `(x, y)` if the destination is passable and
    /// unoccupied, following the remove-old, mutate, add-new protocol that
    /// keeps the spatial index synchronized. Returns the deltas actually
    /// walked: `(x, y)` on a taken move, `(0, 0)` otherwise (including for a
    /// handle that no longer resolves).
    pub fn move_entity_by(&mut self, entity: EntityId, x: i32, y: i32) -> (r: (i32, i32))
        requires
            old(self).wf_core(),
        ensures
            final(self).wf_core(),
            old(self).wf() ==> final(self).wf(),
            State::frame_fields_same(*old(self), *final(self)),
            spec_move_allowed(*old(self), entity, x as int, y as int) ==> spec_moved(
                *old(self),
                *final(self),
                entity,
                x as int,
                y as int,
            ) && r == (x, y),
            !spec_move_allowed(*old(self), entity, x as int, y as int) ==> *final(self) == *old(self) && r == (0i32, 0i32),
    {
        let ghost pre = *self;
        let b = match self.ecs.get_basic(entity) {
            Ok(b) => *b,
            Err(_) => {
                return (0, 0);
            },
        };
        let nx64: i64 = b.x as i64 + x as i64;
        let ny64: i64 = b.y as i64 + y as i64;
        if nx64 < 0 || nx64 >= self.map_state.map_width as i64 || ny64 < 0 || ny64
            >= self.map_state.map_height as i64 {
            return (0, 0);
        }
        let nx = nx64 as i32;
        let ny = ny64 as i32;
        match self.map_state.tile_at(nx, ny) {
            crate::display::TileType::Wall(_) => {
                return (0, 0);
            },
            _ => {},
        }
        match self.map_state.lookup((nx, ny)) {
            Some(o) => {
                if !(o.idx == entity.idx && o.gen == entity.gen) {
                    return (0, 0);
                }
            },
            None => {},
        }
        proof {
            assert(pre.ecs.live(entity.idx as int) && pre.ecs.comps_at(
                entity.idx as int,
            ).basic is Some);
        }
        self.map_state.clear((b.x, b.y));
        let set_r = self.ecs.set_basic(
            entity,
            crate::components::BasicEntity { x: nx, y: ny, d: b.d },
        );
        self.map_state.set((nx, ny), entity);
        proof {
            let post = *self;
            let w = pre.map_state.map_width as int;
            let h = pre.map_state.map_height as int;
            let c0 = pre.map_state.idx_of(b.x as int, b.y as int);
            let c1 = pre.map_state.idx_of(nx as int, ny as int);
            vstd::std_specs::vec::axiom_spec_len(&pre.ecs.slots);
            crate::display::lemma_xy_idx_bounds(w, h, b.x as int, b.y as int);
            crate::display::lemma_xy_idx_bounds(w, h, nx as int, ny as int);
            assert(pre.map_state.occupants@[c0] == Some(pre.ecs.id_at(entity.idx as int)));
            assert(pre.ecs.id_at(entity.idx as int) == entity);
            assert forall|i: int|
                0 <= i < post.ecs.num_slots() && post.ecs.live(i) && (#[trigger] post.ecs.comps_at(
                    i,
                )).basic is Some implies {
                let bb = post.ecs.comps_at(i).basic->Some_0;
                &&& post.map_state.sp_in_bounds(bb.x as int, bb.y as int)
                &&& post.map_state.occupants@[post.map_state.idx_of(bb.x as int, bb.y as int)]
                    == Some(post.ecs.id_at(i))
            } by {
                if i != entity.idx as int {
                    assert(pre.ecs.live(i) && pre.ecs.comps_at(i).basic is Some);
                    let bb = pre.ecs.comps_at(i).basic->Some_0;
                    let c = pre.map_state.idx_of(bb.x as int, bb.y as int);
                    crate::display::lemma_xy_idx_bounds(w, h, bb.x as int, bb.y as int);
                    assert(pre.map_state.occupants@[c] == Some(pre.ecs.id_at(i)));
                    assert(pre.ecs.id_at(i) != entity);
                    assert(c != c0);
                    assert(c != c1);
                }
            }
            assert forall|c: int|
                0 <= c < post.map_state.occupants@.len() && (
                #[trigger] post.map_state.occupants@[c]) is Some implies {
                let oid = post.map_state.occupants@[c]->Some_0;
                &&& post.ecs.valid(oid)
                &&& post.ecs.comps(oid).basic is Some
                &&& post.map_state.sp_in_bounds(
                    post.ecs.comps(oid).basic->Some_0.x as int,
                    post.ecs.comps(oid).basic->Some_0.y as int,
                )
                &&& post.map_state.idx_of(
                    post.ecs.comps(oid).basic->Some_0.x as int,
                    post.ecs.comps(oid).basic->Some_0.y as int,
                ) == c
            } by {
                if c != c1 && c != c0 {
                    assert(post.map_state.occupants@[c] == pre.map_state.occupants@[c]);
                    let oid = pre.map_state.occupants@[c]->Some_0;
                    assert(pre.ecs.valid(oid));
                    assert(oid != entity);
                    assert(oid.idx as int != entity.idx as int);
                }
            }
            if pre.player_ok() {
                let i = choose|i: int| reg_player_at(pre.ecs, i);
                assert(reg_player_at(post.ecs, i));
                assert forall|a2: int, b2: int|
                    reg_player_at(post.ecs, a2) && reg_player_at(post.ecs, b2) implies a2 == b2 by {
                    assert(reg_player_at(pre.ecs, a2) && reg_player_at(pre.ecs, b2));
                }
                assert(post.player_ok());
            }
        }
        (x, y)
    }
}

/// The pending-transition rule after a player move: standing on a portal
/// records its destination for the next game step; any other tile leaves the
/// pending destination alone.
pub open spec fn portal_pending_rule(
    post: State,
    pid: EntityId,
    old_pending: Option<(usize, i32, i32)>,
) -> bool {
    let b = post.basic_of(pid);
    let t = post.map_state.sp_tile(b.x as int, b.y as int);
    match t {
        crate::display::TileType::Portal(_d, dest, px, py) => post.destination_next_tick == Some(
            (dest, px, py),
        ),
        _ => post.destination_next_tick == old_pending,
    }
}

/// The player slot and handle survive any change that keeps the player tags
/// and slot generations in place.
pub proof fn lemma_player_id_stable(pre: State, post: State)
    requires
        pre.player_ok(),
        forall|i: int| reg_player_at(pre.ecs, i) <==> reg_player_at(post.ecs, i),
        forall|i: int|
            #[trigger] reg_player_at(pre.ecs, i) ==> post.ecs.gen_of(i) == pre.ecs.gen_of(i),
    ensures
        post.player_slot() == pre.player_slot(),
        post.player_id_spec() == pre.player_id_spec(),
{
    let a = pre.player_slot();
    assert(reg_player_at(pre.ecs, a));
    assert(reg_player_at(post.ecs, a));
    let b = post.player_slot();
    assert(reg_player_at(post.ecs, b));
    assert(reg_player_at(pre.ecs, b));
}

/// Everything `move_player_by` promises beyond well-formedness: the walk
/// itself (with the camera panned by the deltas actually walked), the
/// portal-pending rule at the player's final tile, and the fields the
/// operation leaves alone.
pub open spec fn player_move_post(pre: State, post: State, x: int, y: int) -> bool {
    let pid = pre.player_id_spec();
    &&& post.player_id_spec() == pre.player_id_spec()
    &&& (spec_move_allowed(pre, pid, x, y) ==> spec_moved(pre, post, pid, x, y) && post.camera == (
    Camera { dx: (pre.camera.dx + x) as i32, dy: (pre.camera.dy + y) as i32, ..pre.camera }))
    &&& (!spec_move_allowed(pre, pid, x, y) ==> post.ecs == pre.ecs && post.map_state
        == pre.map_state && post.camera == pre.camera)
    &&& portal_pending_rule(post, pid, pre.destination_next_tick)
    &&& post.queued_destruction@ == pre.queued_destruction@
    &&& post.waiting_for_directional_input == pre.waiting_for_directional_input
    &&& post.directional_callback == pre.directional_callback
}

impl State {
    /// Moves the player by `(x, y)` (when the destination allows it), pans
    /// the camera by the deltas actually walked, and, if the player now
    /// stands on a portal, records the portal's destination as the pending
    /// map transition for the next game step.
    pub fn move_player_by(&mut self, x: i32, y: i32)
        requires
            old(self).wf(),
            i32::MIN <= old(self).camera.dx + x <= i32::MAX,
            i32::MIN <= old(self).camera.dy + y <= i32::MAX,
        ensures
            final(self).wf(),
            player_move_post(*old(self), *final(self), x as int, y as int),
    {
        let ghost pre = *self;
        let pid = self.get_player_id();
        let deltas = self.move_entity_by(pid, x, y);
        proof {
            assert forall|i: int|
                reg_player_at(pre.ecs, i) <==> #[trigger] reg_player_at(self.ecs, i) by {
                if spec_move_allowed(pre, pid, x as int, y as int) {
                    assert(crate::registry::reg_same_except(pre.ecs, self.ecs, pid.idx as int));
                }
            }
            lemma_player_id_stable(pre, *self);
        }
        self.camera.dx = self.camera.dx + deltas.0;
        self.camera.dy = self.camera.dy + deltas.1;
        let plyr = self.get_player();
        proof {
            assert(self.ecs.live(pid.idx as int) && self.ecs.comps_at(
                pid.idx as int,
            ).basic is Some);
            assert(self.map_state.sp_in_bounds(plyr.x as int, plyr.y as int));
        }
        match self.map_state.tile_at(plyr.x, plyr.y) {
            crate::display::TileType::Portal(_d, destination, px, py) => {
                self.destination_next_tick = Some((destination, px, py));
            },
            _ => {},
        }
    }
}

/// Changing one slot's components without touching its liveness, generation,
/// player tag or position keeps the whole state consistent.
pub proof fn lemma_wf_one_slot_comps(pre: State, post: State, idx: int)
    requires
        0 <= idx < pre.ecs.num_slots(),
        crate::registry::reg_same_except(pre.ecs, post.ecs, idx),
        post.ecs.comps_at(idx).basic is Some <==> pre.ecs.comps_at(idx).basic is Some,
        post.ecs.comps_at(idx).basic is Some ==> post.ecs.comps_at(idx).basic->Some_0.x
            == pre.ecs.comps_at(idx).basic->Some_0.x && post.ecs.comps_at(idx).basic->Some_0.y
            == pre.ecs.comps_at(idx).basic->Some_0.y,
        post.ecs.comps_at(idx).player == pre.ecs.comps_at(idx).player,
        pre.ecs.comps_at(idx).stats is Some ==> post.ecs.comps_at(idx).stats is Some,
        post.ecs.comps_at(idx).stats is Some && post.ecs.live(idx) ==> post.ecs.comps_at(
            idx,
        ).stats->Some_0.inv(),
        post.map_state == pre.map_state,
        post.ecs.wf(),
        pre.wf_core(),
    ensures
        post.wf_core(),
        pre.player_ok() ==> post.player_ok() && post.player_slot() == pre.player_slot()
            && post.player_id_spec() == pre.player_id_spec(),
{
    assert forall|i: int|
        0 <= i < post.ecs.num_slots() && post.ecs.live(i) && (#[trigger] post.ecs.comps_at(
            i,
        )).basic is Some implies {
        let b = post.ecs.comps_at(i).basic->Some_0;
        &&& post.map_state.sp_in_bounds(b.x as int, b.y as int)
        &&& post.map_state.occupants@[post.map_state.idx_of(b.x as int, b.y as int)] == Some(
            post.ecs.id_at(i),
        )
    } by {
        assert(pre.ecs.live(i) && pre.ecs.comps_at(i).basic is Some);
        let pb = pre.ecs.comps_at(i).basic->Some_0;
        assert(pre.map_state.occupants@[pre.map_state.idx_of(pb.x as int, pb.y as int)] == Some(
            pre.ecs.id_at(i),
        ));
    }
    assert forall|c: int|
        0 <= c < post.map_state.occupants@.len() && (#[trigger] post.map_state.occupants@[c])
            is Some implies {
        let oid = post.map_state.occupants@[c]->Some_0;
        &&& post.ecs.valid(oid)
        &&& post.ecs.comps(oid).basic is Some
        &&& post.map_state.sp_in_bounds(
            post.ecs.comps(oid).basic->Some_0.x as int,
            post.ecs.comps(oid).basic->Some_0.y as int,
        )
        &&& post.map_state.idx_of(
            post.ecs.comps(oid).basic->Some_0.x as int,
            post.ecs.comps(oid).basic->Some_0.y as int,
        ) == c
    } by {
        let oid = pre.map_state.occupants@[c]->Some_0;
        assert(pre.ecs.valid(oid));
        assert(pre.ecs.comps(oid).basic is Some);
    }
    assert forall|i: int|
        0 <= i < post.ecs.num_slots() && post.ecs.live(i) && (#[trigger] post.ecs.comps_at(
            i,
        )).stats is Some implies post.ecs.comps_at(i).stats->Some_0.inv() by {
        if i != idx {
            assert(pre.ecs.live(i) && pre.ecs.comps_at(i).stats is Some);
        }
    }
    if pre.player_ok() {
        assert forall|i: int|
            reg_player_at(pre.ecs, i) <==> #[trigger] reg_player_at(post.ecs, i) by {}
        let i = choose|i: int| reg_player_at(pre.ecs, i);
        assert(reg_player_at(post.ecs, i));
        assert forall|a: int, b: int|
            reg_player_at(post.ecs, a) && reg_player_at(post.ecs, b) implies a == b by {
            assert(reg_player_at(pre.ecs, a) && reg_player_at(pre.ecs, b));
        }
        lemma_player_id_stable(pre, post);
    }
}

impl State {
    /// Replaces the stat block of a live entity; the new block must be
    /// well-formed.
    pub fn set_stats(&mut self, id: EntityId, s: StatBlock)
        requires
            old(self).wf_core(),
            old(self).ecs.valid(id),
            s.inv(),
        ensures
            final(self).wf_core(),
            crate::registry::reg_same_except(old(self).ecs, final(self).ecs, id.idx as int),
            final(self).ecs.comps_at(id.idx as int) == (ComponentSet {
                stats: Some(s),
                ..old(self).ecs.comps_at(id.idx as int)
            }),
            final(self).map_state == old(self).map_state,
            State::frame_fields_same(*old(self), *final(self)),
            old(self).player_ok() ==> final(self).player_ok() && final(self).player_id_spec()
                == old(self).player_id_spec(),
    {
        let ghost pre = *self;
        let r = self.ecs.set_stats(id, s);
        proof {
            lemma_wf_one_slot_comps(pre, *self, id.idx as int);
        }
    }

    /// Attaches or replaces the self-destruct countdown of a live entity.
    pub fn set_self_destruct(&mut self, id: EntityId, sd: crate::components::SelfDestructAI)
        requires
            old(self).wf_core(),
            old(self).ecs.valid(id),
        ensures
            final(self).wf_core(),
            crate::registry::reg_same_except(old(self).ecs, final(self).ecs, id.idx as int),
            final(self).ecs.comps_at(id.idx as int) == (ComponentSet {
                self_destruct: Some(sd),
                ..old(self).ecs.comps_at(id.idx as int)
            }),
            final(self).map_state == old(self).map_state,
            State::frame_fields_same(*old(self), *final(self)),
            old(self).player_ok() ==> final(self).player_ok() && final(self).player_id_spec()
                == old(self).player_id_spec(),
    {
        let ghost pre = *self;
        let r = self.ecs.set_self_destruct(id, sd);
        proof {
            lemma_wf_one_slot_comps(pre, *self, id.idx as int);
        }
    }

    /// Swaps the glyph of a positioned live entity (the death transition's
    /// corpse swap); the position itself is untouched.
    pub fn set_display_of(&mut self, id: EntityId, d: crate::display::Display)
        requires
            old(self).wf_core(),
            old(self).positioned(id),
        ensures
            final(self).wf_core(),
            crate::registry::reg_same_except(old(self).ecs, final(self).ecs, id.idx as int),
            final(self).ecs.comps_at(id.idx as int) == (ComponentSet {
                basic: Some(
                    crate::components::BasicEntity { d, ..old(self).basic_of(id) },
                ),
                ..old(self).ecs.comps_at(id.idx as int)
            }),
            final(self).map_state == old(self).map_state,
            State::frame_fields_same(*old(self), *final(self)),
            old(self).player_ok() ==> final(self).player_ok() && final(self).player_id_spec()
                == old(self).player_id_spec(),
    {
        let ghost pre = *self;
        let b = match self.ecs.get_basic(id) {
            Ok(b) => *b,
            Err(_) => {
                proof {
                    assert(false);
                }
                crate::components::BasicEntity {
                    x: 0,
                    y: 0,
                    d: crate::display::Display { glyph: 0, fg: (0, 0, 0), bg: (0, 0, 0) },
                }
            },
        };
        let r = self.ecs.set_basic(id, crate::components::BasicEntity { x: b.x, y: b.y, d });
        proof {
            lemma_wf_one_slot_comps(pre, *self, id.idx as int);
        }
    }
}

impl State {
    /// Consumes the pending portal transition recorded by the last player
    /// move, handing it to the caller that performs the map load.
    pub fn take_pending_destination(&mut self) -> (r: Option<(usize, i32, i32)>)
        ensures
            r == old(self).destination_next_tick,
            final(self).destination_next_tick is None,
            final(self).ecs == old(self).ecs,
            final(self).map_state == old(self).map_state,
            final(self).camera == old(self).camera,
            final(self).queued_destruction@ == old(self).queued_destruction@,
            final(self).waiting_for_directional_input == old(self).waiting_for_directional_input,
            final(self).directional_callback == old(self).directional_callback,
            old(self).wf() ==> final(self).wf(),
            old(self).wf_core() ==> final(self).wf_core(),
    {
        self.destination_next_tick.take()
    }

    /// The map name a portal destination index resolves to, if the index is
    /// within the fixed table of known maps.
    pub fn portal_location(&self, destination: usize) -> (r: Option<&'static str>)
        ensures
            destination < self.map_state.portal_locations@.len() ==> r == Some(
                self.map_state.portal_locations@[destination as int],
            ),
            destination >= self.map_state.portal_locations@.len() ==> r is None,
    {
        if destination < self.map_state.portal_locations.len() {
            Some(self.map_state.portal_locations[destination])
        } else {
            None
        }
    }
}

/// What can go wrong when a session is assembled or a map transition is
/// executed. All of these are configuration errors: the whole operation is
/// rejected and nothing is changed.
#[derive(Clone, Copy, PartialEq, Eq, Structural, Debug)]
pub enum WorldError {
    /// The descriptor's grids do not match its dimensions.
    BadDescriptor,
    /// The player's landing tile lies outside the map.
    DestinationOutOfBounds,
    /// The player's landing tile carries an entity descriptor.
    DestinationBlocked,
    /// The portal destination index lies outside the table of known maps.
    UnknownDestination,
    /// An entity descriptor names no known archetype.
    UnknownEntityName,
    /// The loaded player stat block violates the stat invariant.
    BadStats,
}

/// Whether every entity descriptor in the grid names a known archetype.
pub open spec fn all_names_known(entities: Seq<Option<crate::display::MEEntity>>) -> bool {
    forall|c: int|
        0 <= c < entities.len() && (#[trigger] entities[c]) is Some
            ==> crate::entities::known_entity_name(entities[c]->Some_0.name@)
}

impl State {
    /// Runtime check of `all_names_known`.
    fn check_names(entities: &Vec<Option<crate::display::MEEntity>>) -> (r: bool)
        ensures
            r == all_names_known(entities@),
    {
        let n = entities.len();
        let mut c: usize = 0;
        while c < n
            invariant
                n == entities@.len(),
                c <= n,
                forall|j: int|
                    0 <= j < c && (#[trigger] entities@[j]) is Some
                        ==> crate::entities::known_entity_name(entities@[j]->Some_0.name@),
            decreases n - c,
        {
            match &entities[c] {
                Some(me) => {
                    if !crate::entities::is_known_entity_name(me.name.as_str()) {
                        return false;
                    }
                },
                None => {},
            }
            c = c + 1;
        }
        true
    }

    /// Instantiates every entity descriptor of the loaded map through the
    /// entity factory, placing each at its grid cell. The caller guarantees
    /// a grid matching the map, resolvable names, and free cells under
    /// every descriptor.
    pub fn load_entities_from_map(
        state: &mut State,
        entities: &Vec<Option<crate::display::MEEntity>>,
    )
        requires
            old(state).wf(),
            entities@.len() == old(state).map_state.tiles@.len(),
            all_names_known(entities@),
            forall|c: int|
                0 <= c < entities@.len() && (#[trigger] entities@[c]) is Some ==> old(state).map_state.occupants@[c] is None,
        ensures
            final(state).wf(),
            final(state).player_id_spec() == old(state).player_id_spec(),
            forall|c: int|
                0 <= c < entities@.len() && (#[trigger] entities@[c]) is Some ==> final(state).map_state.occupants@[c] is Some && final(state).ecs.valid(
                    final(state).map_state.occupants@[c]->Some_0,
                ) && crate::entities::archetype_matches(
                    final(state).ecs.comps(final(state).map_state.occupants@[c]->Some_0),
                    entities@[c]->Some_0.name@,
                ),
            forall|c: int|
                0 <= c < entities@.len() && (#[trigger] entities@[c]) is None ==> final(state).map_state.occupants@[c] == old(state).map_state.occupants@[c],
            forall|i: int|
                0 <= i < old(state).ecs.num_slots() && old(state).ecs.live(i) ==> final(state).ecs.live(i) && final(state).ecs.gen_of(i) == old(state).ecs.gen_of(i) && final(state).ecs.comps_at(i) == old(state).ecs.comps_at(i),
            forall|i: int|
                0 <= i < old(state).ecs.num_slots() ==> final(state).ecs.gen_of(i) == old(state).ecs.gen_of(i),
            State::map_same_but_occupants(*old(state), *final(state)),
            State::frame_fields_same(*old(state), *final(state)),
    {
        let ghost pre = *state;
        let n = entities.len();
        let mut c: usize = 0;
        while c < n
            invariant
                state.wf(),
                n == entities@.len(),
                c <= n,
                entities@.len() == state.map_state.tiles@.len(),
                all_names_known(entities@),
                state.player_id_spec() == pre.player_id_spec(),
                forall|c2: int|
                    c <= c2 < entities@.len() && (#[trigger] entities@[c2]) is Some
                        ==> state.map_state.occupants@[c2] is None,
                forall|c2: int|
                    0 <= c2 < c && (#[trigger] entities@[c2]) is Some
                        ==> state.map_state.occupants@[c2] is Some && state.ecs.valid(
                        state.map_state.occupants@[c2]->Some_0,
                    ) && crate::entities::archetype_matches(
                        state.ecs.comps(state.map_state.occupants@[c2]->Some_0),
                        entities@[c2]->Some_0.name@,
                    ),
                forall|c2: int|
                    0 <= c2 < entities@.len() && (#[trigger] entities@[c2]) is None
                        ==> state.map_state.occupants@[c2] == pre.map_state.occupants@[c2],
                forall|i: int|
                    0 <= i < pre.ecs.num_slots() && pre.ecs.live(i) ==> state.ecs.live(i)
                        && state.ecs.gen_of(i) == pre.ecs.gen_of(i) && state.ecs.comps_at(i)
                        == pre.ecs.comps_at(i),
                forall|i: int|
                    0 <= i < pre.ecs.num_slots() ==> state.ecs.gen_of(i) == pre.ecs.gen_of(i),
                pre.ecs.num_slots() <= state.ecs.num_slots(),
                State::map_same_but_occupants(pre, *state),
                State::frame_fields_same(pre, *state),
            decreases n - c,
        {
            let ghost prev = *state;
            let is_some = entities[c].is_some();
            if is_some {
                let (x, y) = state.map_state.idx_xy(c);
                let name_owned: String = match &entities[c] {
                    Some(me) => me.name.clone(),
                    None => String::new(),
                };
                proof {
                    assert(entities@[c as int] is Some);
                    assert(crate::entities::known_entity_name(
                        entities@[c as int]->Some_0.name@,
                    ));
                    assert(state.map_state.idx_of(x as int, y as int) == c as int);
                    assert(state.map_state.sp_occupant(x as int, y as int) is None);
                }
                let r = crate::entities::resolve_entity_string(state, (x, y), name_owned.as_str());
                proof {
                    assert(r is Ok);
                    let eid = r->Ok_0;
                    assert(state.ecs.gen_of(eid.idx as int) == eid.gen);
                    if (eid.idx as int) < prev.ecs.num_slots() {
                        assert(eid.gen == prev.ecs.gen_of(eid.idx as int));
                    }
                    crate::display::lemma_xy_idx_bounds(
                        prev.map_state.map_width as int,
                        prev.map_state.map_height as int,
                        x as int,
                        y as int,
                    );
                    assert forall|i: int|
                        0 <= i < pre.ecs.num_slots() && pre.ecs.live(i) implies state.ecs.live(i)
                        && state.ecs.gen_of(i) == pre.ecs.gen_of(i) && state.ecs.comps_at(i)
                        == pre.ecs.comps_at(i) by {
                        assert(prev.ecs.live(i));
                    }
                    assert forall|i: int|
                        0 <= i < pre.ecs.num_slots() implies state.ecs.gen_of(i)
                        == pre.ecs.gen_of(i) by {
                        assert(prev.ecs.gen_of(i) == pre.ecs.gen_of(i));
                        assert(i < prev.ecs.num_slots());
                        let eid = r->Ok_0;
                        if i != eid.idx as int {
                            assert(state.ecs.gen_of(i) == prev.ecs.gen_of(i));
                        }
                    }
                    assert forall|c2: int|
                        0 <= c2 < c + 1 && (#[trigger] entities@[c2]) is Some implies
                        state.map_state.occupants@[c2] is Some && state.ecs.valid(
                        state.map_state.occupants@[c2]->Some_0,
                    ) && crate::entities::archetype_matches(
                        state.ecs.comps(state.map_state.occupants@[c2]->Some_0),
                        entities@[c2]->Some_0.name@,
                    ) by {
                        let eid = r->Ok_0;
                        if c2 == c as int {
                            assert(state.map_state.occupants@[c2] == Some(eid));
                            assert(name_owned@ == entities@[c2]->Some_0.name@);
                        } else {
                            assert(state.map_state.occupants@[c2]
                                == prev.map_state.occupants@[c2]);
                            let oid = prev.map_state.occupants@[c2]->Some_0;
                            assert(prev.ecs.valid(oid));
                            assert(oid.idx as int != eid.idx as int);
                            assert(state.ecs.comps(oid) == prev.ecs.comps(oid));
                        }
                    }
                }
            }
            c = c + 1;
        }
    }

    /// A fresh all-empty spatial index of `n` cells.
    fn fresh_occupants(n: usize) -> (r: Vec<Option<EntityId>>)
        ensures
            r@.len() == n,
            forall|c: int| 0 <= c < n ==> r@[c] is None,
    {
        let mut r: Vec<Option<EntityId>> = Vec::new();
        let mut i: usize = 0;
        while i < n
            invariant
                i <= n,
                r@.len() == i,
                forall|c: int| 0 <= c < i ==> r@[c] is None,
            decreases n - i,
        {
            r.push(None);
            i = i + 1;
        }
        r
    }

    /// Runtime validation of a map descriptor against `MapDescriptor::wf`.
    fn check_descriptor(md: &crate::display::MapDescriptor) -> (r: bool)
        ensures
            r == md.wf(),
    {
        if md.width <= 0 || md.height <= 0 {
            return false;
        }
        proof {
            assert((md.width as u64) * (md.height as u64) <= 0x4000_0000_0000_0000)
                by (nonlinear_arith)
                requires
                    0 < md.width as u64 <= 0x8000_0000,
                    0 < md.height as u64 <= 0x8000_0000,
            ;
        }
        md.tiles.len() as u64 == (md.width as u64) * (md.height as u64) && md.entities.len()
            == md.tiles.len()
    }
}

impl State {
    /// Assembles a fresh session from a map descriptor and the player's
    /// saved stat block: the tile grid is installed, the player spawns at
    /// `(1, 1)` with a starter container, empty equipment and the given
    /// stats, and every entity descriptor is instantiated. Rejected (with
    /// nothing built) when the descriptor is malformed, the start tile is
    /// unavailable, a descriptor name is unknown, or the stat block is
    /// ill-formed.
    pub fn new(md: crate::display::MapDescriptor, player_stat_block: crate::stats::StatBlock)
        -> (r: Result<State, WorldError>)
        ensures
            !md.wf() <==> r == Err::<State, WorldError>(WorldError::BadDescriptor),
            md.wf() && !(md.width > 1 && md.height > 1) <==> r == Err::<State, WorldError>(
                WorldError::DestinationOutOfBounds,
            ),
            md.wf() && md.width > 1 && md.height > 1 && md.entities@[crate::display::spec_xy_idx(
                md.width as int,
                1,
                1,
            )] is Some <==> r == Err::<State, WorldError>(WorldError::DestinationBlocked),
            md.wf() && md.width > 1 && md.height > 1 && md.entities@[crate::display::spec_xy_idx(
                md.width as int,
                1,
                1,
            )] is None && !all_names_known(md.entities@) <==> r == Err::<State, WorldError>(
                WorldError::UnknownEntityName,
            ),
            md.wf() && md.width > 1 && md.height > 1 && md.entities@[crate::display::spec_xy_idx(
                md.width as int,
                1,
                1,
            )] is None && all_names_known(md.entities@) && !player_stat_block.inv() <==> r == Err::<
                State,
                WorldError,
            >(WorldError::BadStats),
            r is Ok <==> md.wf() && md.width > 1 && md.height > 1 && md.entities@[
                crate::display::spec_xy_idx(md.width as int, 1, 1)] is None && all_names_known(
                md.entities@,
            ) && player_stat_block.inv(),
            r matches Ok(st) ==> {
                &&& st.wf()
                &&& st.map_state.map_width == md.width
                &&& st.map_state.map_height == md.height
                &&& st.map_state.tiles@ == md.tiles@
                &&& st.map_state.current_map == 0
                &&& st.map_state.portal_locations@.len() == 2
                &&& st.stats_of(st.player_id_spec()) == player_stat_block
                &&& st.basic_of(st.player_id_spec()).x == 1
                &&& st.basic_of(st.player_id_spec()).y == 1
                &&& st.destination_next_tick is None
                &&& st.queued_destruction@.len() == 0
                &&& forall|c: int|
                    0 <= c < md.entities@.len() && (#[trigger] md.entities@[c]) is Some
                        ==> st.map_state.occupants@[c] is Some && st.ecs.valid(
                        st.map_state.occupants@[c]->Some_0,
                    ) && crate::entities::archetype_matches(
                        st.ecs.comps(st.map_state.occupants@[c]->Some_0),
                        md.entities@[c]->Some_0.name@,
                    )
            },
    {
        if !State::check_descriptor(&md) {
            return Err(WorldError::BadDescriptor);
        }
        if !(md.width > 1 && md.height > 1) {
            return Err(WorldError::DestinationOutOfBounds);
        }
        let crate::display::MapDescriptor { width, height, tiles, entities } = md;
        let n = tiles.len();
        let occupants = State::fresh_occupants(n);
        let mut portal_locations: Vec<&'static str> = Vec::new();
        portal_locations.push("main.map");
        portal_locations.push("portal_land.map");
        let mut st = State {
            ecs: crate::registry::Registry::new(),
            map_state: crate::map::MapState {
                map_width: width,
                map_height: height,
                tiles,
                occupants,
                portal_locations,
                current_map: 0,
            },
            queued_destruction: Vec::new(),
            camera: Camera::new(-20, -20),
            waiting_for_directional_input: false,
            directional_callback: None,
            destination_next_tick: None,
        };
        let start_idx = st.map_state.xy_idx(1, 1);
        if entities[start_idx].is_some() {
            return Err(WorldError::DestinationBlocked);
        }
        if !State::check_names(&entities) {
            return Err(WorldError::UnknownEntityName);
        }
        if !player_stat_block.is_well_formed() {
            return Err(WorldError::BadStats);
        }
        let mut items: Vec<crate::items::Item> = Vec::new();
        items.push(
            crate::items::Item {
                name: "Rusty Sword".to_owned(),
                art: 0,
                effect_chain: Some(crate::items::EffectChain::DamageTarget(None, 5)),
            },
        );
        let mut comps = ComponentSet::empty();
        comps.basic = Some(
            crate::components::BasicEntity {
                x: 1,
                y: 1,
                d: crate::display::Display { glyph: 64, fg: (255, 255, 0), bg: (0, 0, 0) },
            },
        );
        comps.stats = Some(player_stat_block);
        comps.player = Some(crate::components::Player);
        comps.zombie = None;
        comps.container = Some(crate::items::Container { items, max_items: 999 });
        comps.equipment = Some(crate::items::Equipment::new());
        comps.view = Some(crate::components::EntityView { name: "Me...".to_owned(), art: 3 });
        let pid = st.spawn_bundle(comps);
        proof {
            assert(st.player_at(pid.idx as int));
            assert(st.wf());
        }
        State::load_entities_from_map(&mut st, &entities);
        Ok(st)
    }

    /// Executes a pending portal transition: every non-player entity is
    /// despawned, the destination map's grids replace the current ones, its
    /// entity descriptors are instantiated fresh, and the player lands at
    /// `(x, y)` with the camera recentered. Rejected (with nothing changed)
    /// when the destination index, the descriptor, the landing tile or a
    /// descriptor name is unusable.
    pub fn load_map_by_destination(
        &mut self,
        destination: usize,
        md: crate::display::MapDescriptor,
        x: i32,
        y: i32,
    ) -> (r: Result<(), WorldError>)
        requires
            old(self).wf(),
        ensures
            final(self).wf(),
            r is Err ==> *final(self) == *old(self),
            !md.wf() <==> r == Err::<(), WorldError>(WorldError::BadDescriptor),
            md.wf() && destination >= old(self).map_state.portal_locations@.len() <==> r == Err::<
                (),
                WorldError,
            >(WorldError::UnknownDestination),
            md.wf() && destination < old(self).map_state.portal_locations@.len() && !(0 <= x
                < md.width && 0 <= y < md.height) <==> r == Err::<(), WorldError>(
                WorldError::DestinationOutOfBounds,
            ),
            md.wf() && destination < old(self).map_state.portal_locations@.len() && 0 <= x
                < md.width && 0 <= y < md.height && md.entities@[crate::display::spec_xy_idx(
                md.width as int,
                x as int,
                y as int,
            )] is Some <==> r == Err::<(), WorldError>(WorldError::DestinationBlocked),
            md.wf() && destination < old(self).map_state.portal_locations@.len() && 0 <= x
                < md.width && 0 <= y < md.height && md.entities@[crate::display::spec_xy_idx(
                md.width as int,
                x as int,
                y as int,
            )] is None && !all_names_known(md.entities@) <==> r == Err::<(), WorldError>(
                WorldError::UnknownEntityName,
            ),
            r is Ok <==> md.wf() && destination < old(self).map_state.portal_locations@.len()
                && 0 <= x < md.width && 0 <= y < md.height && md.entities@[
                crate::display::spec_xy_idx(md.width as int, x as int, y as int)] is None
                && all_names_known(md.entities@),
            r is Ok ==> {
                &&& final(self).player_id_spec() == old(self).player_id_spec()
                &&& final(self).map_state.map_width == md.width
                &&& final(self).map_state.map_height == md.height
                &&& final(self).map_state.tiles@ == md.tiles@
                &&& final(self).map_state.current_map == destination
                &&& final(self).map_state.portal_locations == old(self).map_state.portal_locations
                &&& final(self).basic_of(final(self).player_id_spec()).x == x
                &&& final(self).basic_of(final(self).player_id_spec()).y == y
                &&& final(self).stats_of(final(self).player_id_spec()) == old(self).stats_of(
                    old(self).player_id_spec(),
                )
                &&& forall|id: EntityId|
                    #[trigger] old(self).ecs.valid(id) && id != old(self).player_id_spec()
                        ==> !final(self).ecs.valid(id)
                &&& final(self).destination_next_tick is None
                &&& final(self).camera == (Camera { x, y, dx: 0, dy: 0, ..old(self).camera })
&&& forall|c: int|
                    0 <= c < md.entities@.len() && (#[trigger] md.entities@[c]) is Some
                        ==> final(self).map_state.occupants@[c] is Some && final(self).ecs.valid(
                        final(self).map_state.occupants@[c]->Some_0,
                    ) && crate::entities::archetype_matches(
                        final(self).ecs.comps(final(self).map_state.occupants@[c]->Some_0),
                        md.entities@[c]->Some_0.name@,
                    )
            },
    {
        let ghost pre = *self;
        if !State::check_descriptor(&md) {
            return Err(WorldError::BadDescriptor);
        }
        if destination >= self.map_state.portal_locations.len() {
            return Err(WorldError::UnknownDestination);
        }
        if !(0 <= x && x < md.width && 0 <= y && y < md.height) {
            return Err(WorldError::DestinationOutOfBounds);
        }
        let crate::display::MapDescriptor { width, height, tiles, entities } = md;
        let ghost md_entities = entities@;
        let n_tiles = tiles.len();
        let dest_idx: usize = {
            proof {
                crate::display::lemma_xy_idx_bounds(
                    width as int,
                    height as int,
                    x as int,
                    y as int,
                );
                assert(crate::display::spec_xy_idx(width as int, x as int, y as int) < n_tiles);
                assert((y as int) * (width as int) <= crate::display::spec_xy_idx(
                    width as int,
                    x as int,
                    y as int,
                ));
            }
            (y as usize) * (width as usize) + (x as usize)
        };
        if entities[dest_idx].is_some() {
            return Err(WorldError::DestinationBlocked);
        }
        if !State::check_names(&entities) {
            return Err(WorldError::UnknownEntityName);
        }

        self.destination_next_tick = None;
        let pid = self.get_player_id();
        let player_d = self.get_player().get_display();

        let n_slots = self.ecs.slot_count();
        let mut i: usize = 0;
        while i < n_slots
            invariant
                self.wf(),
                i <= n_slots,
                n_slots == self.ecs.num_slots(),
                self.player_id_spec() == pre.player_id_spec(),
                pid == pre.player_id_spec(),
                self.ecs.valid(pid),
                self.ecs.comps_at(pid.idx as int) == pre.ecs.comps_at(pid.idx as int),
                forall|j: int| 0 <= j < i && self.ecs.live(j) ==> j == pid.idx as int,
                forall|j: int|
                    i <= j < n_slots ==> self.ecs.live(j) == pre.ecs.live(j) && self.ecs.gen_of(
                        j,
                    ) == pre.ecs.gen_of(j) && self.ecs.comps_at(j) == pre.ecs.comps_at(j),
                forall|id: EntityId|
                    #[trigger] pre.ecs.valid(id) && id != pid && (id.idx as int) < i
                        ==> !self.ecs.live(id.idx as int) && self.ecs.gen_of(id.idx as int)
                        != id.gen,
                self.map_state.map_width == pre.map_state.map_width,
                self.map_state.map_height == pre.map_state.map_height,
                self.map_state.portal_locations == pre.map_state.portal_locations,
                State::frame_fields_same_but_pending(pre, *self),
                self.destination_next_tick is None,
            decreases n_slots - i,
        {
            let maybe_id = self.ecs.id_at_index(i);
            match maybe_id {
                Some(id) => {
                    if !(id.idx == pid.idx && id.gen == pid.gen) {
                        proof {
                            if self.is_player(id) {
                                assert(reg_player_at(self.ecs, id.idx as int));
                                assert(reg_player_at(self.ecs, self.player_slot()));
                                vstd::std_specs::vec::axiom_spec_len(&self.ecs.slots);
                                assert(false);
                            }
                        }
                        let ghost before = *self;
                        let removed = self.remove_entity(id);
                        proof {
                            assert forall|k: int|
                                reg_player_at(before.ecs, k) <==> #[trigger] reg_player_at(
                                    self.ecs,
                                    k,
                                ) by {}
                            lemma_player_id_stable(before, *self);
                        }
                    }
                },
                None => {},
            }
            proof {
                assert forall|id2: EntityId|
                    #[trigger] pre.ecs.valid(id2) && id2 != pid && (id2.idx as int) < i + 1
                        implies !self.ecs.live(id2.idx as int) && self.ecs.gen_of(
                    id2.idx as int,
                ) != id2.gen by {
                    if id2.idx as int == i as int {
                        assert(pre.ecs.live(i as int));
                        assert(id2.gen == pre.ecs.gen_of(i as int));
                        if id2.idx == pid.idx && id2.gen == pid.gen {
                            assert(id2 == pid);
                            assert(false);
                        }
                    }
                }
            }
            i = i + 1;
        }

        let occupants = State::fresh_occupants(tiles.len());
        let mut retired_map = crate::map::MapState {
            map_width: width,
            map_height: height,
            tiles,
            occupants,
            portal_locations: Vec::new(),
            current_map: destination,
        };
        core::mem::swap(&mut self.map_state, &mut retired_map);
        core::mem::swap(
            &mut self.map_state.portal_locations,
            &mut retired_map.portal_locations,
        );
        let sr = self.ecs.set_basic(
            pid,
            crate::components::BasicEntity { x, y, d: player_d },
        );
        self.map_state.strict_add_from_pos((x, y), pid);
        self.camera.update_xy(x, y);
        proof {
            let mid = *self;
            crate::display::lemma_xy_idx_bounds(width as int, height as int, x as int, y as int);
            vstd::std_specs::vec::axiom_spec_len(&mid.ecs.slots);
            assert forall|j: int|
                0 <= j < mid.ecs.num_slots() && mid.ecs.live(j) && (#[trigger] mid.ecs.comps_at(
                    j,
                )).basic is Some implies {
                let b = mid.ecs.comps_at(j).basic->Some_0;
                &&& mid.map_state.sp_in_bounds(b.x as int, b.y as int)
                &&& mid.map_state.occupants@[mid.map_state.idx_of(b.x as int, b.y as int)] == Some(
                    mid.ecs.id_at(j),
                )
            } by {
                assert(j == pid.idx as int);
            }
            assert forall|c: int|
                0 <= c < mid.map_state.occupants@.len() && (#[trigger] mid.map_state.occupants@[c])
                    is Some implies {
                let oid = mid.map_state.occupants@[c]->Some_0;
                &&& mid.ecs.valid(oid)
                &&& mid.ecs.comps(oid).basic is Some
                &&& mid.map_state.sp_in_bounds(
                    mid.ecs.comps(oid).basic->Some_0.x as int,
                    mid.ecs.comps(oid).basic->Some_0.y as int,
                )
                &&& mid.map_state.idx_of(
                    mid.ecs.comps(oid).basic->Some_0.x as int,
                    mid.ecs.comps(oid).basic->Some_0.y as int,
                ) == c
            } by {
                assert(c == mid.map_state.idx_of(x as int, y as int));
            }
            assert forall|j: int|
                0 <= j < mid.ecs.num_slots() && mid.ecs.live(j) && (#[trigger] mid.ecs.comps_at(
                    j,
                )).stats is Some implies mid.ecs.comps_at(j).stats->Some_0.inv() by {
                assert(j == pid.idx as int);
                assert(pre.ecs.live(j) && pre.ecs.comps_at(j).stats is Some);
            }
            assert forall|k: int|
                reg_player_at(pre.ecs, k) <==> #[trigger] reg_player_at(self.ecs, k) by {
                if k != pid.idx as int {
                    if reg_player_at(pre.ecs, k) {
                        assert(pre.player_at(k) && pre.player_at(pre.player_slot()));
                        vstd::std_specs::vec::axiom_spec_len(&pre.ecs.slots);
                        assert(k == pid.idx as int);
                    }
                    if reg_player_at(self.ecs, k) {
                        assert(self.ecs.live(k));
                    }
                }
            }
            assert(reg_player_at(self.ecs, pid.idx as int));
            assert forall|a: int, b: int|
                reg_player_at(self.ecs, a) && reg_player_at(self.ecs, b) implies a == b by {
                assert(self.ecs.live(a) && self.ecs.live(b));
            }
            lemma_player_id_stable(pre, *self);
            assert(self.wf());
        }
        let ghost loaded_pre = *self;
        State::load_entities_from_map(self, &entities);
        proof {
            assert forall|id: EntityId|
                #[trigger] pre.ecs.valid(id) && id != pid implies !self.ecs.valid(id) by {
                assert(!loaded_pre.ecs.live(id.idx as int) && loaded_pre.ecs.gen_of(
                    id.idx as int,
                ) != id.gen);
                if self.ecs.valid(id) {
                    assert(self.ecs.live(id.idx as int));
                    assert(self.ecs.gen_of(id.idx as int) == loaded_pre.ecs.gen_of(
                        id.idx as int,
                    ));
                    assert(false);
                }
            }
            assert(loaded_pre.ecs.live(pid.idx as int));
            assert(self.ecs.comps_at(pid.idx as int) == loaded_pre.ecs.comps_at(pid.idx as int));
            assert(self.player_id_spec() == pid);
        }
        Ok(())
    }

    /// The fields a transition's despawn loop leaves alone (everything but
    /// the pending destination, which the transition consumes).
    pub open spec fn frame_fields_same_but_pending(pre: State, post: State) -> bool {
        &&& post.queued_destruction@ == pre.queued_destruction@
        &&& post.camera == pre.camera
        &&& post.waiting_for_directional_input == pre.waiting_for_directional_input
        &&& post.directional_callback == pre.directional_callback
    }
}

impl State {
    /// A random tile grid: each cell is a wall with a small probability,
    /// otherwise a floor, with the fixed generator glyphs.
    pub fn generate_map(width: i32, height: i32) -> (r: Vec<crate::display::TileType>)
        requires
            0 <= width,
            0 <= height,
            width * height <= usize::MAX,
        ensures
            r@.len() == width * height,
            forall|c: int|
                0 <= c < r@.len() ==> (#[trigger] r@[c]) == crate::display::TileType::Wall(
                    crate::display::Display { glyph: 94, fg: (0, 255, 0), bg: (0, 0, 0) },
                ) || r@[c] == crate::display::TileType::Floor(
                    crate::display::Display { glyph: 46, fg: (255, 255, 255), bg: (0, 0, 0) },
                ),
    {
        let total: usize = (width as usize) * (height as usize);
        let mut map: Vec<crate::display::TileType> = Vec::new();
        let mut i: usize = 0;
        while i < total
            invariant
                i <= total,
                map@.len() == i,
                forall|c: int|
                    0 <= c < i ==> (#[trigger] map@[c]) == crate::display::TileType::Wall(
                        crate::display::Display { glyph: 94, fg: (0, 255, 0), bg: (0, 0, 0) },
                    ) || map@[c] == crate::display::TileType::Floor(
                        crate::display::Display {
                            glyph: 46,
                            fg: (255, 255, 255),
                            bg: (0, 0, 0),
                        },
                    ),
            decreases total - i,
        {
            if crate::rng::chance_percent(3) {
                map.push(
                    crate::display::TileType::Wall(
                        crate::display::Display { glyph: 94, fg: (0, 255, 0), bg: (0, 0, 0) },
                    ),
                );
            } else {
                map.push(
                    crate::display::TileType::Floor(
                        crate::display::Display {
                            glyph: 46,
                            fg: (255, 255, 255),
                            bg: (0, 0, 0),
                        },
                    ),
                );
            }
            i = i + 1;
        }
        map
    }

    /// Scatters random hostiles over the map: for each cell, with a small
    /// probability, a goblin (or, less often, a fire elemental) spawns at a
    /// random free interior point; occupied points are skipped. Existing
    /// entities are untouched.
    pub fn generate_entities(&mut self)
        requires
            old(self).wf(),
            old(self).map_state.map_width > 2,
            old(self).map_state.map_height > 2,
        ensures
            final(self).wf(),
            final(self).player_id_spec() == old(self).player_id_spec(),
            forall|i: int|
                0 <= i < old(self).ecs.num_slots() && old(self).ecs.live(i) ==> final(self).ecs.live(i) && final(self).ecs.gen_of(i) == old(self).ecs.gen_of(i) && final(self).ecs.comps_at(i) == old(self).ecs.comps_at(i),
            State::map_same_but_occupants(*old(self), *final(self)),
            State::frame_fields_same(*old(self), *final(self)),
    {
        let ghost pre = *self;
        let w = self.map_state.map_width;
        let h = self.map_state.map_height;
        proof {
            assert(0 <= (w as i64) * (h as i64) <= 0x4000_0000_0000_0000) by (nonlinear_arith)
                requires
                    0 < w as i64 <= 0x8000_0000,
                    0 < h as i64 <= 0x8000_0000,
            ;
        }
        let total: i64 = (w as i64) * (h as i64);
        let mut i: i64 = 0;
        while i < total
            invariant
                self.wf(),
                self.player_id_spec() == pre.player_id_spec(),
                self.map_state.map_width == w,
                self.map_state.map_height == h,
                w > 2,
                h > 2,
                forall|j: int|
                    0 <= j < pre.ecs.num_slots() && pre.ecs.live(j) ==> self.ecs.live(j)
                        && self.ecs.gen_of(j) == pre.ecs.gen_of(j) && self.ecs.comps_at(j)
                        == pre.ecs.comps_at(j),
                State::map_same_but_occupants(pre, *self),
                State::frame_fields_same(pre, *self),
            decreases total - i,
        {
            let ghost prev = *self;
            if crate::rng::chance_percent(1) {
                let pos = crate::rng::random_point(1, w - 1, 1, h - 1);
                let free = match self.map_state.lookup(pos) {
                    Some(_) => false,
                    None => true,
                };
                if free {
                    if !crate::rng::chance_percent(30) {
                        let r = crate::entities::create_goblin(self, pos);
                    } else {
                        let r = crate::entities::create_fire_elemental(self, pos);
                    }
                    proof {
                        assert forall|j: int|
                            0 <= j < pre.ecs.num_slots() && pre.ecs.live(j) implies
                            self.ecs.live(j) && self.ecs.gen_of(j) == pre.ecs.gen_of(j)
                            && self.ecs.comps_at(j) == pre.ecs.comps_at(j) by {
                            assert(prev.ecs.live(j));
                        }
                    }
                }
            }
            i = i + 1;
        }
    }
}

} // verus!
