//! Entity registry: owns every entity record and its components, hands out
//! generation-tagged identities, and reclaims slots without ever letting a
//! stale handle resolve to a newer entity.

use vstd::prelude::*;

use crate::components::{BasicEntity, EntityView, Player, PlayerAI, SelfDestructAI, ZombieAI};
use crate::items::{Container, Equipment};
use crate::stats::StatBlock;

verus! {

broadcast use vstd::seq_lib::lemma_seq_contains_after_push;

/// A stable entity handle: a slot index tagged with the generation the slot
/// had when the entity was spawned. A handle resolves only while its
/// generation matches the slot's current one, so a handle outlives its
/// entity as a harmless dud, never as an alias of a newer entity.
#[derive(Clone, Copy, PartialEq, Eq, Structural, Debug)]
pub struct EntityId {
    pub idx: usize,
    pub gen: u64,
}

/// Errors of component and identity lookups.
#[derive(Clone, Copy, PartialEq, Eq, Structural, Debug)]
pub enum EcsError {
    /// The handle does not name a live entity (never spawned, despawned, or
    /// from an earlier generation of a reused slot).
    UnknownEntity,
    /// The entity is live but lacks the requested component.
    MissingComponent,
}

/// Every component an entity may carry, each optional. The component set of
/// this game is closed, so the registry stores them as one record per slot.
#[derive(Debug)]
pub struct ComponentSet {
    pub basic: Option<BasicEntity>,
    pub stats: Option<StatBlock>,
    pub player: Option<Player>,
    pub zombie: Option<ZombieAI>,
    pub self_destruct: Option<SelfDestructAI>,
    pub view: Option<EntityView>,
    pub container: Option<Container>,
    pub equipment: Option<Equipment>,
}

impl ComponentSet {
    /// The record of a slot with no entity.
    pub open spec fn spec_empty() -> ComponentSet {
        ComponentSet {
            basic: None,
            stats: None,
            player: None,
            zombie: None,
            self_destruct: None,
            view: None,
            container: None,
            equipment: None,
        }
    }

    /// A bundle with no components; spawn callers fill in what they need.
    pub fn empty() -> (r: ComponentSet)
        ensures
            r == ComponentSet::spec_empty(),
    {
        ComponentSet {
            basic: None,
            stats: None,
            player: None,
            zombie: None,
            self_destruct: None,
            view: None,
            container: None,
            equipment: None,
        }
    }
}

/// One identity slot: its current generation, whether an entity lives in it,
/// and that entity's components.
#[derive(Debug)]
pub struct Slot {
    pub gen: u64,
    pub live: bool,
    pub comps: ComponentSet,
}

/// The entity registry. Slots are reused through a free list; a slot's
/// generation advances on every despawn (wrapping only after an unreachable
/// count of reuses of one slot), so a stale handle never matches the slot's
/// current generation.
#[derive(Debug)]
pub struct Registry {
    pub slots: Vec<Slot>,
    pub free: Vec<usize>,
}

impl Registry {
    pub open spec fn num_slots(self) -> int {
        self.slots@.len() as int
    }

    /// Whether slot `i` currently holds an entity.
    pub open spec fn live(self, i: int) -> bool {
        0 <= i < self.num_slots() && self.slots@[i].live
    }

    pub open spec fn gen_of(self, i: int) -> u64 {
        self.slots@[i].gen
    }

    pub open spec fn comps_at(self, i: int) -> ComponentSet {
        self.slots@[i].comps
    }

    /// The handle of the entity living in slot `i`.
    pub open spec fn id_at(self, i: int) -> EntityId {
        EntityId { idx: i as usize, gen: self.slots@[i].gen }
    }

    /// Whether `id` names a live entity: its slot is live and the
    /// generations match.
    pub open spec fn valid(self, id: EntityId) -> bool {
        self.live(id.idx as int) && self.slots@[id.idx as int].gen == id.gen
    }

    /// The components of the entity `id` names (meaningful when `valid`).
    pub open spec fn comps(self, id: EntityId) -> ComponentSet {
        self.comps_at(id.idx as int)
    }

    /// Free-list soundness: every listed slot exists, is dead, and is listed
    /// once.
    pub open spec fn wf(self) -> bool {
        &&& forall|k: int|
            0 <= k < self.free@.len() ==> (#[trigger] self.free@[k]) < self.slots@.len()
                && !self.slots@[self.free@[k] as int].live
        &&& forall|k1: int, k2: int|
            0 <= k1 < k2 < self.free@.len() ==> self.free@[k1] != self.free@[k2]
    }

    /// An empty registry.
    pub fn new() -> (r: Registry)
        ensures
            r.wf(),
            r.num_slots() == 0,
            r.free@.len() == 0,
    {
        Registry { slots: Vec::new(), free: Vec::new() }
    }

    /// Allocates a fresh or reclaimed identity and attaches the given
    /// components. The returned handle was not valid before the call, and no
    /// other slot is touched.
    pub fn spawn(&mut self, comps: ComponentSet) -> (id: EntityId)
        requires
            old(self).wf(),
        ensures
            final(self).wf(),
            final(self).valid(id),
            final(self).comps(id) == comps,
            !old(self).valid(id),
            !old(self).live(id.idx as int),
            final(self).live(id.idx as int),
            final(self).gen_of(id.idx as int) == id.gen,
            (id.idx as int) < old(self).num_slots() ==> id.gen == old(self).gen_of(
                id.idx as int,
            ),
            old(self).num_slots() <= final(self).num_slots() <= old(self).num_slots() + 1,
            final(self).num_slots() == old(self).num_slots() + 1 ==> id.idx as int == old(
                self,
            ).num_slots(),
            final(self).num_slots() == old(self).num_slots() ==> (id.idx as int) < old(
                self,
            ).num_slots(),
            forall|i: int|
                0 <= i < old(self).num_slots() && i != id.idx as int ==> {
                    &&& final(self).live(i) == old(self).live(i)
                    &&& final(self).gen_of(i) == old(self).gen_of(i)
                    &&& final(self).comps_at(i) == old(self).comps_at(i)
                },
    {
        let popped = self.free.pop();
        match popped {
            Some(f) => {
                let g = self.slots[f].gen;
                self.slots[f].live = true;
                self.slots[f].comps = comps;
                EntityId { idx: f, gen: g }
            },
            None => {
                self.slots.push(Slot { gen: 0, live: true, comps });
                EntityId { idx: self.slots.len() - 1, gen: 0 }
            },
        }
    }

    /// Removes the entity `id` names and invalidates the handle; a handle
    /// that does not resolve is an error (double despawn surfaces bugs
    /// rather than passing silently).
    pub fn despawn(&mut self, id: EntityId) -> (r: Result<(), EcsError>)
        requires
            old(self).wf(),
        ensures
            final(self).wf(),
            old(self).valid(id) ==> {
                &&& r is Ok
                &&& !final(self).live(id.idx as int)
                &&& final(self).comps_at(id.idx as int) == ComponentSet::spec_empty()
                &&& final(self).num_slots() == old(self).num_slots()
                &&& forall|i: int|
                    0 <= i < old(self).num_slots() && i != id.idx as int ==> {
                        &&& final(self).live(i) == old(self).live(i)
                        &&& final(self).gen_of(i) == old(self).gen_of(i)
                        &&& final(self).comps_at(i) == old(self).comps_at(i)
                    }
            },
            old(self).valid(id) ==> final(self).gen_of(id.idx as int) != id.gen,
            !old(self).valid(id) ==> r == Err::<(), EcsError>(EcsError::UnknownEntity)
                && *final(self) == *old(self),
    {
        if id.idx >= self.slots.len() || !self.slots[id.idx].live || self.slots[id.idx].gen
            != id.gen {
            return Err(EcsError::UnknownEntity);
        }
        assert(forall|k: int|
            0 <= k < self.free@.len() ==> (#[trigger] self.free@[k]) != id.idx);
        self.slots[id.idx].live = false;
        self.slots[id.idx].comps = ComponentSet::empty();
        let g = self.slots[id.idx].gen;
        self.slots[id.idx].gen = if g < u64::MAX {
            g + 1
        } else {
            0
        };
        self.free.push(id.idx);
        Ok(())
    }

    /// The handle of the entity in slot `i`, if the slot is live. Lets
    /// callers enumerate entities by slot.
    pub fn id_at_index(&self, i: usize) -> (r: Option<EntityId>)
        ensures
            r == if self.live(i as int) {
                Some(self.id_at(i as int))
            } else {
                None::<EntityId>
            },
    {
        if i < self.slots.len() && self.slots[i].live {
            Some(EntityId { idx: i, gen: self.slots[i].gen })
        } else {
            None
        }
    }

    /// The number of identity slots (live or not).
    pub fn slot_count(&self) -> (r: usize)
        ensures
            r as int == self.num_slots(),
    {
        self.slots.len()
    }

    /// Whether `id` names a live entity.
    pub fn is_valid(&self, id: EntityId) -> (r: bool)
        ensures
            r == self.valid(id),
    {
        id.idx < self.slots.len() && self.slots[id.idx].live && self.slots[id.idx].gen == id.gen
    }

    /// Position component lookup; fails soft with the reason.
    pub fn get_basic(&self, id: EntityId) -> (r: Result<&BasicEntity, EcsError>)
        ensures
            match r {
                Ok(b) => self.valid(id) && self.comps(id).basic == Some(*b),
                Err(e) => (e == EcsError::UnknownEntity && !self.valid(id)) || (
                e == EcsError::MissingComponent && self.valid(id) && self.comps(id).basic is None),
            },
    {
        if !self.is_valid(id) {
            return Err(EcsError::UnknownEntity);
        }
        match &self.slots[id.idx].comps.basic {
            Some(b) => Ok(b),
            None => Err(EcsError::MissingComponent),
        }
    }

    /// Stat component lookup.
    pub fn get_stats(&self, id: EntityId) -> (r: Result<&StatBlock, EcsError>)
        ensures
            match r {
                Ok(s) => self.valid(id) && self.comps(id).stats == Some(*s),
                Err(e) => (e == EcsError::UnknownEntity && !self.valid(id)) || (
                e == EcsError::MissingComponent && self.valid(id) && self.comps(id).stats is None),
            },
    {
        if !self.is_valid(id) {
            return Err(EcsError::UnknownEntity);
        }
        match &self.slots[id.idx].comps.stats {
            Some(s) => Ok(s),
            None => Err(EcsError::MissingComponent),
        }
    }

    /// Display-identity component lookup.
    pub fn get_view(&self, id: EntityId) -> (r: Result<&EntityView, EcsError>)
        ensures
            match r {
                Ok(v) => self.valid(id) && self.comps(id).view is Some && self.comps(
                    id,
                ).view->Some_0 == *v,
                Err(e) => (e == EcsError::UnknownEntity && !self.valid(id)) || (
                e == EcsError::MissingComponent && self.valid(id) && self.comps(id).view is None),
            },
    {
        if !self.is_valid(id) {
            return Err(EcsError::UnknownEntity);
        }
        match &self.slots[id.idx].comps.view {
            Some(v) => Ok(v),
            None => Err(EcsError::MissingComponent),
        }
    }

    /// Container component lookup.
    pub fn get_container(&self, id: EntityId) -> (r: Result<&Container, EcsError>)
        ensures
            match r {
                Ok(c) => self.valid(id) && self.comps(id).container is Some && self.comps(
                    id,
                ).container->Some_0 == *c,
                Err(e) => (e == EcsError::UnknownEntity && !self.valid(id)) || (
                e == EcsError::MissingComponent && self.valid(id) && self.comps(
                    id,
                ).container is None),
            },
    {
        if !self.is_valid(id) {
            return Err(EcsError::UnknownEntity);
        }
        match &self.slots[id.idx].comps.container {
            Some(c) => Ok(c),
            None => Err(EcsError::MissingComponent),
        }
    }

    /// Equipment component lookup.
    pub fn get_equipment(&self, id: EntityId) -> (r: Result<&Equipment, EcsError>)
        ensures
            match r {
                Ok(q) => self.valid(id) && self.comps(id).equipment is Some && self.comps(
                    id,
                ).equipment->Some_0 == *q,
                Err(e) => (e == EcsError::UnknownEntity && !self.valid(id)) || (
                e == EcsError::MissingComponent && self.valid(id) && self.comps(
                    id,
                ).equipment is None),
            },
    {
        if !self.is_valid(id) {
            return Err(EcsError::UnknownEntity);
        }
        match &self.slots[id.idx].comps.equipment {
            Some(q) => Ok(q),
            None => Err(EcsError::MissingComponent),
        }
    }

    /// Self-destruct countdown lookup (copied out; the component is plain
    /// data).
    pub fn get_self_destruct(&self, id: EntityId) -> (r: Result<SelfDestructAI, EcsError>)
        ensures
            match r {
                Ok(sd) => self.valid(id) && self.comps(id).self_destruct == Some(sd),
                Err(e) => (e == EcsError::UnknownEntity && !self.valid(id)) || (
                e == EcsError::MissingComponent && self.valid(id) && self.comps(
                    id,
                ).self_destruct is None),
            },
    {
        if !self.is_valid(id) {
            return Err(EcsError::UnknownEntity);
        }
        match self.slots[id.idx].comps.self_destruct {
            Some(sd) => Ok(sd),
            None => Err(EcsError::MissingComponent),
        }
    }

    /// Whether `id` is live and carries the hostile-pursuit tag.
    pub fn has_zombie(&self, id: EntityId) -> (r: bool)
        ensures
            r == (self.valid(id) && self.comps(id).zombie is Some),
    {
        self.is_valid(id) && self.slots[id.idx].comps.zombie.is_some()
    }

    /// Whether `id` is live and carries the player tag.
    pub fn has_player(&self, id: EntityId) -> (r: bool)
        ensures
            r == (self.valid(id) && self.comps(id).player is Some),
    {
        self.is_valid(id) && self.slots[id.idx].comps.player.is_some()
    }

    /// Sets (or attaches) the position component of a live entity.
    pub fn set_basic(&mut self, id: EntityId, b: BasicEntity) -> (r: Result<(), EcsError>)
        requires
            old(self).wf(),
        ensures
            final(self).wf(),
            old(self).valid(id) ==> {
                &&& r is Ok
                &&& final(self).comps_at(id.idx as int) == (ComponentSet {
                    basic: Some(b),
                    ..old(self).comps_at(id.idx as int)
                })
                &&& reg_same_except(*old(self), *final(self), id.idx as int)
            },
            !old(self).valid(id) ==> r == Err::<(), EcsError>(EcsError::UnknownEntity)
                && *final(self) == *old(self),
    {
        if !self.is_valid(id) {
            return Err(EcsError::UnknownEntity);
        }
        self.slots[id.idx].comps.basic = Some(b);
        Ok(())
    }

    /// Sets (or attaches) the stat component of a live entity.
    pub fn set_stats(&mut self, id: EntityId, s: StatBlock) -> (r: Result<(), EcsError>)
        requires
            old(self).wf(),
        ensures
            final(self).wf(),
            old(self).valid(id) ==> {
                &&& r is Ok
                &&& final(self).comps_at(id.idx as int) == (ComponentSet {
                    stats: Some(s),
                    ..old(self).comps_at(id.idx as int)
                })
                &&& reg_same_except(*old(self), *final(self), id.idx as int)
            },
            !old(self).valid(id) ==> r == Err::<(), EcsError>(EcsError::UnknownEntity)
                && *final(self) == *old(self),
    {
        if !self.is_valid(id) {
            return Err(EcsError::UnknownEntity);
        }
        self.slots[id.idx].comps.stats = Some(s);
        Ok(())
    }

    /// Sets (or attaches) the self-destruct countdown of a live entity.
    pub fn set_self_destruct(&mut self, id: EntityId, sd: SelfDestructAI) -> (r: Result<
        (),
        EcsError,
    >)
        requires
            old(self).wf(),
        ensures
            final(self).wf(),
            old(self).valid(id) ==> {
                &&& r is Ok
                &&& final(self).comps_at(id.idx as int) == (ComponentSet {
                    self_destruct: Some(sd),
                    ..old(self).comps_at(id.idx as int)
                })
                &&& reg_same_except(*old(self), *final(self), id.idx as int)
            },
            !old(self).valid(id) ==> r == Err::<(), EcsError>(EcsError::UnknownEntity)
                && *final(self) == *old(self),
    {
        if !self.is_valid(id) {
            return Err(EcsError::UnknownEntity);
        }
        self.slots[id.idx].comps.self_destruct = Some(sd);
        Ok(())
    }

    /// Detaches and returns the equipment component; `put_equipment` hands it
    /// back. The pair stands in for a mutable borrow scoped to one operation.
    pub fn take_equipment(&mut self, id: EntityId) -> (r: Result<Equipment, EcsError>)
        requires
            old(self).wf(),
        ensures
            final(self).wf(),
            match r {
                Ok(q) => {
                    &&& old(self).valid(id)
                    &&& old(self).comps(id).equipment is Some
                    &&& q == old(self).comps(id).equipment->Some_0
                    &&& final(self).comps_at(id.idx as int) == (ComponentSet {
                        equipment: None,
                        ..old(self).comps_at(id.idx as int)
                    })
                    &&& reg_same_except(*old(self), *final(self), id.idx as int)
                },
                Err(e) => {
                    &&& *final(self) == *old(self)
                    &&& (e == EcsError::UnknownEntity && !old(self).valid(id)) || (
                    e == EcsError::MissingComponent && old(self).valid(id) && old(self).comps(
                        id,
                    ).equipment is None)
                },
            },
    {
        if !self.is_valid(id) {
            return Err(EcsError::UnknownEntity);
        }
        if self.slots[id.idx].comps.equipment.is_none() {
            return Err(EcsError::MissingComponent);
        }
        Ok(self.slots[id.idx].comps.equipment.take().unwrap())
    }

    /// Reattaches an equipment component taken with `take_equipment`.
    pub fn put_equipment(&mut self, id: EntityId, q: Equipment) -> (r: Result<(), EcsError>)
        requires
            old(self).wf(),
        ensures
            final(self).wf(),
            old(self).valid(id) ==> {
                &&& r is Ok
                &&& final(self).comps_at(id.idx as int) == (ComponentSet {
                    equipment: Some(q),
                    ..old(self).comps_at(id.idx as int)
                })
                &&& reg_same_except(*old(self), *final(self), id.idx as int)
            },
            !old(self).valid(id) ==> r == Err::<(), EcsError>(EcsError::UnknownEntity)
                && *final(self) == *old(self),
    {
        if !self.is_valid(id) {
            return Err(EcsError::UnknownEntity);
        }
        self.slots[id.idx].comps.equipment = Some(q);
        Ok(())
    }

    /// Snapshot of all live entities carrying the hostile-pursuit tag, in
    /// slot order.
    pub fn query_zombies(&self) -> (r: Vec<EntityId>)
        ensures
            forall|k: int|
                0 <= k < r@.len() ==> self.valid(#[trigger] r@[k]) && self.comps(
                    r@[k],
                ).zombie is Some,
            forall|i: int|
                0 <= i < self.num_slots() && self.live(i) && self.comps_at(i).zombie is Some
                    ==> r@.contains(self.id_at(i)),
            forall|k1: int, k2: int| 0 <= k1 < k2 < r@.len() ==> r@[k1].idx < r@[k2].idx,
    {
        let mut r: Vec<EntityId> = Vec::new();
        let n = self.slots.len();
        let mut i: usize = 0;
        while i < n
            invariant
                n == self.num_slots(),
                i <= n,
                forall|k: int|
                    0 <= k < r@.len() ==> self.valid(#[trigger] r@[k]) && self.comps(
                        r@[k],
                    ).zombie is Some,
                forall|j: int|
                    0 <= j < i && self.live(j) && self.comps_at(j).zombie is Some ==> r@.contains(
                        self.id_at(j),
                    ),
                forall|k1: int, k2: int| 0 <= k1 < k2 < r@.len() ==> r@[k1].idx < r@[k2].idx,
                forall|k: int| 0 <= k < r@.len() ==> (#[trigger] r@[k]).idx < i,
            decreases n - i,
        {
            if self.slots[i].live && self.slots[i].comps.zombie.is_some() {
                r.push(EntityId { idx: i, gen: self.slots[i].gen });
            }
            i = i + 1;
        }
        r
    }

    /// Snapshot of all live entities carrying a self-destruct countdown, in
    /// slot order.
    pub fn query_self_destructs(&self) -> (r: Vec<EntityId>)
        ensures
            forall|k: int|
                0 <= k < r@.len() ==> self.valid(#[trigger] r@[k]) && self.comps(
                    r@[k],
                ).self_destruct is Some,
            forall|i: int|
                0 <= i < self.num_slots() && self.live(i) && self.comps_at(i).self_destruct is Some
                    ==> r@.contains(self.id_at(i)),
            forall|k1: int, k2: int| 0 <= k1 < k2 < r@.len() ==> r@[k1].idx < r@[k2].idx,
    {
        let mut r: Vec<EntityId> = Vec::new();
        let n = self.slots.len();
        let mut i: usize = 0;
        while i < n
            invariant
                n == self.num_slots(),
                i <= n,
                forall|k: int|
                    0 <= k < r@.len() ==> self.valid(#[trigger] r@[k]) && self.comps(
                        r@[k],
                    ).self_destruct is Some,
                forall|j: int|
                    0 <= j < i && self.live(j) && self.comps_at(j).self_destruct is Some
                        ==> r@.contains(self.id_at(j)),
                forall|k1: int, k2: int| 0 <= k1 < k2 < r@.len() ==> r@[k1].idx < r@[k2].idx,
                forall|k: int| 0 <= k < r@.len() ==> (#[trigger] r@[k]).idx < i,
            decreases n - i,
        {
            if self.slots[i].live && self.slots[i].comps.self_destruct.is_some() {
                r.push(EntityId { idx: i, gen: self.slots[i].gen });
            }
            i = i + 1;
        }
        r
    }

    /// Snapshot of all live entities with a position component, in slot
    /// order; what the render layer iterates.
    pub fn query_basics(&self) -> (r: Vec<EntityId>)
        ensures
            forall|k: int|
                0 <= k < r@.len() ==> self.valid(#[trigger] r@[k]) && self.comps(
                    r@[k],
                ).basic is Some,
            forall|i: int|
                0 <= i < self.num_slots() && self.live(i) && self.comps_at(i).basic is Some
                    ==> r@.contains(self.id_at(i)),
            forall|k1: int, k2: int| 0 <= k1 < k2 < r@.len() ==> r@[k1].idx < r@[k2].idx,
    {
        let mut r: Vec<EntityId> = Vec::new();
        let n = self.slots.len();
        let mut i: usize = 0;
        while i < n
            invariant
                n == self.num_slots(),
                i <= n,
                forall|k: int|
                    0 <= k < r@.len() ==> self.valid(#[trigger] r@[k]) && self.comps(
                        r@[k],
                    ).basic is Some,
                forall|j: int|
                    0 <= j < i && self.live(j) && self.comps_at(j).basic is Some ==> r@.contains(
                        self.id_at(j),
                    ),
                forall|k1: int, k2: int| 0 <= k1 < k2 < r@.len() ==> r@[k1].idx < r@[k2].idx,
                forall|k: int| 0 <= k < r@.len() ==> (#[trigger] r@[k]).idx < i,
            decreases n - i,
        {
            if self.slots[i].live && self.slots[i].comps.basic.is_some() {
                r.push(EntityId { idx: i, gen: self.slots[i].gen });
            }
            i = i + 1;
        }
        r
    }

    /// Snapshot of all live entities with a stat component, in slot order;
    /// what the death sweep scans.
    pub fn query_stats_ids(&self) -> (r: Vec<EntityId>)
        ensures
            forall|k: int|
                0 <= k < r@.len() ==> self.valid(#[trigger] r@[k]) && self.comps(
                    r@[k],
                ).stats is Some,
            forall|i: int|
                0 <= i < self.num_slots() && self.live(i) && self.comps_at(i).stats is Some
                    ==> r@.contains(self.id_at(i)),
            forall|k1: int, k2: int| 0 <= k1 < k2 < r@.len() ==> r@[k1].idx < r@[k2].idx,
    {
        let mut r: Vec<EntityId> = Vec::new();
        let n = self.slots.len();
        let mut i: usize = 0;
        while i < n
            invariant
                n == self.num_slots(),
                i <= n,
                forall|k: int|
                    0 <= k < r@.len() ==> self.valid(#[trigger] r@[k]) && self.comps(
                        r@[k],
                    ).stats is Some,
                forall|j: int|
                    0 <= j < i && self.live(j) && self.comps_at(j).stats is Some ==> r@.contains(
                        self.id_at(j),
                    ),
                forall|k1: int, k2: int| 0 <= k1 < k2 < r@.len() ==> r@[k1].idx < r@[k2].idx,
                forall|k: int| 0 <= k < r@.len() ==> (#[trigger] r@[k]).idx < i,
            decreases n - i,
        {
            if self.slots[i].live && self.slots[i].comps.stats.is_some() {
                r.push(EntityId { idx: i, gen: self.slots[i].gen });
            }
            i = i + 1;
        }
        r
    }

    /// The first live entity carrying the player tag, if any.
    pub fn find_player(&self) -> (r: Option<EntityId>)
        ensures
            match r {
                Some(id) => self.valid(id) && self.comps(id).player is Some,
                None => forall|i: int|
                    0 <= i < self.num_slots() && self.live(i) ==> (#[trigger] self.comps_at(
                        i,
                    )).player is None,
            },
    {
        let n = self.slots.len();
        let mut i: usize = 0;
        while i < n
            invariant
                n == self.num_slots(),
                i <= n,
                forall|j: int|
                    0 <= j < i && self.live(j) ==> (#[trigger] self.comps_at(j)).player is None,
            decreases n - i,
        {
            if self.slots[i].live && self.slots[i].comps.player.is_some() {
                return Some(EntityId { idx: i, gen: self.slots[i].gen });
            }
            i = i + 1;
        }
        None
    }
}

/// Slots other than `idx` are untouched, and slot `idx` keeps its liveness
/// and generation (only its components may differ).
pub open spec fn reg_same_except(pre: Registry, post: Registry, idx: int) -> bool {
    &&& post.num_slots() == pre.num_slots()
    &&& post.live(idx) == pre.live(idx)
    &&& post.gen_of(idx) == pre.gen_of(idx)
    &&& forall|i: int|
        0 <= i < pre.num_slots() && i != idx ==> {
            &&& post.live(i) == pre.live(i)
            &&& post.gen_of(i) == pre.gen_of(i)
            &&& post.comps_at(i) == pre.comps_at(i)
        }
}

} // verus!
