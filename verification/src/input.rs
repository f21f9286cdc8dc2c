//! Input-driven actions: the movement handler, the directional-prompt state
//! machine (Idle, awaiting a direction, back to Idle), item effects
//! dispatched at a target, and the inventory window's selection logic. Key
//! decoding itself belongs to the input layer; this module receives plain
//! events.

use vstd::prelude::*;

use crate::items::{EffectChain, InventoryUI};
use crate::registry::{reg_same_except, ComponentSet, EntityId};
use crate::stats::{stat_dec_result, EntityStat, StatBlock};
use crate::world::{player_move_post, State};

verus! {

/// A decoded input event handed in by the input layer: a movement (or
/// aiming) direction, one of the 32 item-selection keys by its table index,
/// or anything else.
#[derive(Clone, Copy, Debug)]
pub enum GameKey {
    Direction(i32, i32),
    ItemSlot(usize),
    Other,
}

/// The stat block after `hp.decrement(amt)`: hit points lowered by `amt`,
/// floored at `-bonus`; the `dead` flag is untouched (the death sweep
/// handles the transition).
pub open spec fn spec_hp_dec(sb: StatBlock, amt: int) -> StatBlock {
    let nb = stat_dec_result(sb.hp.spec_base(), sb.hp.spec_bonus(), amt);
    StatBlock { hp: EntityStat { base: nb as i32, ..sb.hp }, ..sb }
}

/// The state after `id`'s hit points dropped by `amt`: only `id`'s stat
/// block changed, by exactly `hp.decrement(amt)`.
pub open spec fn hp_decremented(pre: State, post: State, id: EntityId, amt: int) -> bool {
    &&& reg_same_except(pre.ecs, post.ecs, id.idx as int)
    &&& post.ecs.comps_at(id.idx as int) == (ComponentSet {
        stats: Some(spec_hp_dec(pre.stats_of(id), amt)),
        ..pre.ecs.comps_at(id.idx as int)
    })
    &&& post.map_state == pre.map_state
    &&& State::frame_fields_same(pre, post)
}

impl EffectChain {
    /// Dispatches this effect against a target: `DamageTarget` lowers the
    /// target's hit points by its amount (the death transition is left to
    /// the death sweep). The other variants are inert, as is a missing or
    /// unresolvable target. A negative amount is also inert, by choice: the
    /// combat model floors damage at zero everywhere, so a damage effect
    /// never raises hit points.
    pub fn handle_chain_target(
        &self,
        user: Option<EntityId>,
        target: Option<EntityId>,
        state: &mut State,
    )
        requires
            old(state).wf(),
        ensures
            final(state).wf(),
            final(state).player_id_spec() == old(state).player_id_spec(),
            match *self {
                EffectChain::DamageTarget(_, amt) => {
                    if target matches Some(t) && old(state).ecs.valid(t) && old(state).ecs.comps(
                        t,
                    ).stats is Some && amt >= 0 {
                        hp_decremented(*old(state), *final(state), target->Some_0, amt as int)
                    } else {
                        *final(state) == *old(state)
                    }
                },
                _ => *final(state) == *old(state),
            },
    {
        let ghost pre = *state;
        match self {
            EffectChain::DamageTarget(_chain, amt) => {
                match target {
                    Some(t) => {
                        let mut sb = match state.get_stats(t) {
                            Ok(sb) => sb,
                            Err(_) => {
                                return ;
                            },
                        };
                        if *amt < 0 {
                            return ;
                        }
                        proof {
                            assert(pre.ecs.live(t.idx as int) && pre.ecs.comps_at(
                                t.idx as int,
                            ).stats is Some);
                        }
                        sb.hp.decrement(*amt);
                        state.set_stats(t, sb);
                    },
                    None => {},
                }
            },
            _ => {},
        }
    }
}

impl State {
    /// One movement-phase input. A selection key opens the directional
    /// prompt (remembering which slot) and suppresses the turn advance; a
    /// direction moves the player; anything else suppresses the turn
    /// advance and changes nothing.
    pub fn handle_movement_input(&mut self, key: GameKey, do_tick: &mut bool)
        requires
            old(self).wf(),
            key matches GameKey::Direction(dx, dy) ==> i32::MIN <= old(self).camera.dx + dx
                <= i32::MAX && i32::MIN <= old(self).camera.dy + dy <= i32::MAX,
        ensures
            final(self).wf(),
            match key {
                GameKey::ItemSlot(i) => {
                    &&& final(self).waiting_for_directional_input
                    &&& final(self).directional_callback == Some(i)
                    &&& *final(do_tick) == false
                    &&& final(self).ecs == old(self).ecs
                    &&& final(self).map_state == old(self).map_state
                    &&& final(self).camera == old(self).camera
                    &&& final(self).queued_destruction@ == old(self).queued_destruction@
                    &&& final(self).destination_next_tick == old(self).destination_next_tick
                },
                GameKey::Direction(dx, dy) => {
                    &&& player_move_post(*old(self), *final(self), dx as int, dy as int)
                    &&& *final(do_tick) == *old(do_tick)
                },
                GameKey::Other => {
                    &&& *final(self) == *old(self)
                    &&& *final(do_tick) == false
                },
            },
    {
        match key {
            GameKey::ItemSlot(i) => {
                self.waiting_for_directional_input = true;
                *do_tick = false;
                self.directional_callback = Some(i);
            },
            GameKey::Direction(dx, dy) => {
                self.move_player_by(dx, dy);
            },
            GameKey::Other => {
                *do_tick = false;
            },
        }
    }

    /// The entity a directional prompt resolves to at `(px, py)`: the
    /// occupant of that tile, provided it has a stat block to act on.
    pub open spec fn prompt_target(self, px: int, py: int) -> Option<EntityId> {
        if self.map_state.sp_in_bounds(px, py) && self.map_state.sp_occupant(px, py) is Some
            && self.ecs.comps(self.map_state.sp_occupant(px, py)->Some_0).stats is Some {
            self.map_state.sp_occupant(px, py)
        } else {
            None
        }
    }

    /// The damage amount wired to prompt slot `slot`: the player's equip
    /// table must bind an item index at position `slot`, the index must
    /// name an item in the player's container, and that item must carry a
    /// `DamageTarget` effect.
    pub open spec fn equipped_damage(self, slot: int) -> Option<i32> {
        let pid = self.player_id_spec();
        let cs = self.ecs.comps(pid);
        if cs.equipment is Some && cs.container is Some && 0 <= slot
            < cs.equipment->Some_0.equips@.len() && cs.equipment->Some_0.equips@[slot] is Some && (
        cs.equipment->Some_0.equips@[slot]->Some_0 as int) < cs.container->Some_0.items@.len() {
            match cs.container->Some_0.items@[
                cs.equipment->Some_0.equips@[slot]->Some_0 as int].effect_chain {
                Some(EffectChain::DamageTarget(_, amt)) => Some(amt),
                _ => None,
            }
        } else {
            None
        }
    }

    /// Resolves the directional prompt. Consumed only while awaiting a
    /// direction: a direction key scans the tile adjacent to the player in
    /// that direction and dispatches the remembered slot's effect against
    /// any target there, then forgets the slot; a non-direction key leaves
    /// the slot untouched (the caller exits the prompt unconditionally
    /// afterwards). Returns whether the prompt consumed the key.
    pub fn handle_directional_input(&mut self, key: GameKey) -> (r: bool)
        requires
            old(self).wf(),
        ensures
            final(self).wf(),
            !old(self).waiting_for_directional_input ==> r == false && *final(self) == *old(self),
            old(self).waiting_for_directional_input && old(self).directional_callback is None ==> r
                == false && *final(self) == (State {
                waiting_for_directional_input: false,
                ..*old(self)
            }),
            old(self).waiting_for_directional_input && old(self).directional_callback is Some && !(
            key matches GameKey::Direction(_, _)) ==> r == true && *final(self) == *old(self),
            old(self).waiting_for_directional_input ==> match (
                old(self).directional_callback,
                key,
            ) {
                (Some(slot), GameKey::Direction(dx, dy)) => r == true && ({
                let pre = *old(self);
                let pid = pre.player_id_spec();
                let px = pre.basic_of(pid).x + dx;
                let py = pre.basic_of(pid).y + dy;
                let t = pre.prompt_target(px, py);
                let dmg = pre.equipped_damage(slot as int);
                &&& final(self).directional_callback is None
                &&& final(self).waiting_for_directional_input
                    == pre.waiting_for_directional_input
                &&& final(self).destination_next_tick == pre.destination_next_tick
                &&& final(self).queued_destruction@ == pre.queued_destruction@
                &&& final(self).camera == pre.camera
                &&& final(self).map_state == pre.map_state
                &&& (if t is Some && dmg is Some && dmg->Some_0 >= 0 {
                    &&& reg_same_except(pre.ecs, final(self).ecs, t->Some_0.idx as int)
                    &&& final(self).ecs.comps_at(t->Some_0.idx as int) == (ComponentSet {
                        stats: Some(spec_hp_dec(pre.stats_of(t->Some_0), dmg->Some_0 as int)),
                        ..pre.ecs.comps_at(t->Some_0.idx as int)
                    })
                } else {
                    final(self).ecs == pre.ecs
                })
                }),
                _ => true,
            },
    {
        let ghost pre = *self;
        if !self.waiting_for_directional_input {
            return false;
        }
        let slot = match self.directional_callback {
            Some(s) => s,
            None => {
                self.waiting_for_directional_input = false;
                return false;
            },
        };
        let (dx, dy) = match key {
            GameKey::Direction(dx, dy) => (dx, dy),
            _ => {
                return true;
            },
        };
        let plyr = self.get_player();
        let pid = self.get_player_id();
        let px64: i64 = plyr.x as i64 + dx as i64;
        let py64: i64 = plyr.y as i64 + dy as i64;
        let found_entity: Option<EntityId> = if px64 < 0 || px64
            >= self.map_state.map_width as i64 || py64 < 0 || py64
            >= self.map_state.map_height as i64 {
            None
        } else {
            match self.map_state.lookup((px64 as i32, py64 as i32)) {
                Some(e) => {
                    match self.ecs.get_stats(e) {
                        Ok(_) => Some(e),
                        Err(_) => None,
                    }
                },
                None => None,
            }
        };
        proof {
            let px = px64 as int;
            let py = py64 as int;
            if pre.map_state.sp_in_bounds(px, py) {
                crate::display::lemma_xy_idx_bounds(
                    pre.map_state.map_width as int,
                    pre.map_state.map_height as int,
                    px,
                    py,
                );
                if pre.map_state.sp_occupant(px, py) is Some {
                    let t = pre.map_state.sp_occupant(px, py)->Some_0;
                    assert(pre.map_state.occupants@[pre.map_state.idx_of(px, py)] is Some);
                    assert(pre.ecs.valid(t));
                }
            }
        }
        let eff_chain: Option<EffectChain> = {
            let equips_r = self.ecs.get_equipment(pid);
            let cont_r = self.ecs.get_container(pid);
            match (equips_r, cont_r) {
                (Ok(eq), Ok(cont)) => {
                    if slot < eq.equips.len() {
                        match eq.equips[slot] {
                            Some(item_idx) => {
                                if item_idx < cont.items.len() {
                                    match &cont.items[item_idx].effect_chain {
                                        Some(c) => Some(c.clone()),
                                        None => None,
                                    }
                                } else {
                                    None
                                }
                            },
                            None => None,
                        }
                    } else {
                        None
                    }
                },
                _ => None,
            }
        };
        match eff_chain {
            Some(chain) => {
                chain.handle_chain_target(Some(pid), found_entity, self);
            },
            None => {},
        }
        self.directional_callback = None;
        true
    }
}

/// Whether `equip_item(slot, item)` takes its binding branch, which also
/// forgets the pending selection: the player has an equip table, `item`
/// lies within it, and position `item` is not already bound to exactly
/// `slot`.
pub open spec fn equip_binds(pre: State, slot: usize, item: usize) -> bool {
    let cs = pre.ecs.comps(pre.player_id_spec());
    &&& cs.equipment is Some
    &&& (item as int) < cs.equipment->Some_0.equips@.len()
    &&& cs.equipment->Some_0.equips@[item as int] != Some(slot)
}

/// The game-state effect of `equip_item(slot, item)`: position `item` of
/// the player's equip table is bound to `slot`, or unbound when it already
/// held exactly `slot`; a missing table or an out-of-range `item` leaves
/// the state untouched. Nothing else in the state changes.
pub open spec fn equip_effect(pre: State, post: State, slot: usize, item: usize) -> bool {
    let pid = pre.player_id_spec();
    let cs = pre.ecs.comps(pid);
    if cs.equipment is Some && (item as int) < cs.equipment->Some_0.equips@.len() {
        let eq = cs.equipment->Some_0;
        let bound = if eq.equips@[item as int] == Some(slot) {
            None::<usize>
        } else {
            Some(slot)
        };
        &&& reg_same_except(pre.ecs, post.ecs, pid.idx as int)
        &&& post.ecs.comps_at(pid.idx as int).equipment is Some
        &&& post.ecs.comps_at(pid.idx as int).equipment->Some_0.equips@ == eq.equips@.update(
            item as int,
            bound,
        )
        &&& post.ecs.comps_at(pid.idx as int).equipment->Some_0.max_equips == eq.max_equips
        &&& post.ecs.comps_at(pid.idx as int).basic == cs.basic
        &&& post.ecs.comps_at(pid.idx as int).stats == cs.stats
        &&& post.ecs.comps_at(pid.idx as int).player == cs.player
        &&& post.ecs.comps_at(pid.idx as int).zombie == cs.zombie
        &&& post.ecs.comps_at(pid.idx as int).self_destruct == cs.self_destruct
        &&& post.ecs.comps_at(pid.idx as int).view == cs.view
        &&& post.ecs.comps_at(pid.idx as int).container == cs.container
        &&& post.map_state == pre.map_state
        &&& State::frame_fields_same(pre, post)
    } else {
        post == pre
    }
}

impl InventoryUI {
    /// Binds `slot` into equip position `item`, or unbinds it when `item`
    /// is already bound to exactly that slot. A player without an equipment
    /// table, or an `item` beyond the table, is left untouched. A fresh
    /// binding also forgets the pending selection.
    pub fn equip_item(&mut self, state: &mut State, slot: usize, item: usize)
        requires
            old(state).wf(),
        ensures
            final(state).wf(),
            final(state).player_id_spec() == old(state).player_id_spec(),
            equip_effect(*old(state), *final(state), slot, item),
            final(self).container_id == old(self).container_id,
            final(self).pending_item == if equip_binds(*old(state), slot, item) {
                None::<usize>
            } else {
                old(self).pending_item
            },
    {
        let ghost pre = *state;
        let pid = state.get_player_id();
        let eq_len = match state.ecs.get_equipment(pid) {
            Ok(q) => q.equips.len(),
            Err(_) => {
                return ;
            },
        };
        if item >= eq_len {
            return ;
        }
        let mut player_equips = match state.ecs.take_equipment(pid) {
            Ok(q) => q,
            Err(_) => {
                proof {
                    assert(false);
                }
                return ;
            },
        };
        let unbind = match player_equips.equips[item] {
            Some(in_slot) => in_slot == slot,
            None => false,
        };
        if unbind {
            player_equips.equips[item] = None;
            let r = state.ecs.put_equipment(pid, player_equips);
            proof {
                lemma_equip_wf(pre, *state, pid);
            }
            return ;
        }
        player_equips.equips[item] = Some(slot);
        let r = state.ecs.put_equipment(pid, player_equips);
        self.pending_item = None;
        proof {
            lemma_equip_wf(pre, *state, pid);
        }
    }

    /// One selection key: with no selection pending, remembers the item;
    /// with a pending selection, dispatches `equip_item` and then clears the
    /// pending selection if it still names this very item.
    pub fn select_item(&mut self, state: &mut State, item: usize)
        requires
            old(state).wf(),
        ensures
            final(state).wf(),
            final(state).player_id_spec() == old(state).player_id_spec(),
            old(self).pending_item is None ==> final(self).pending_item == Some(item) && final(self).container_id == old(self).container_id && *final(state) == *old(state),
            old(self).pending_item matches Some(slot) ==> {
                &&& equip_effect(*old(state), *final(state), slot, item)
                &&& final(self).container_id == old(self).container_id
                &&& final(self).pending_item == (if equip_binds(*old(state), slot, item) {
                    None::<usize>
                } else if slot == item {
                    None::<usize>
                } else {
                    Some(slot)
                })
            },
    {
        let pending = self.pending_item;
        match pending {
            Some(slot) => {
                self.equip_item(state, slot, item);
                let slot2 = self.pending_item;
                match slot2 {
                    None => {},
                    Some(s) => {
                        if s == item {
                            self.pending_item = None;
                        }
                    },
                }
            },
            None => {
                self.pending_item = Some(item);
            },
        }
    }

    /// One key of inventory input, already decoded by the input layer into
    /// an optional selection-table index and an escape flag. A selection
    /// index selects that item; escape asks the caller to close the window.
    pub fn on_input(&mut self, state: &mut State, key_index: Option<usize>, escape: bool) -> (r:
        bool)
        requires
            old(state).wf(),
        ensures
            final(state).wf(),
            final(state).player_id_spec() == old(state).player_id_spec(),
            r == escape,
            key_index is None ==> *final(state) == *old(state) && *final(self) == *old(self),
            key_index matches Some(i) ==> {
                &&& (old(self).pending_item is None ==> final(self).pending_item == Some(i)
                    && final(self).container_id == old(self).container_id && *final(state)
                    == *old(state))
                &&& (old(self).pending_item matches Some(slot) ==> {
                    &&& equip_effect(*old(state), *final(state), slot, i)
                    &&& final(self).container_id == old(self).container_id
                    &&& final(self).pending_item == (if equip_binds(*old(state), slot, i) {
                        None::<usize>
                    } else if slot == i {
                        None::<usize>
                    } else {
                        Some(slot)
                    })
                })
            },
    {
        match key_index {
            Some(i) => {
                self.select_item(state, i);
            },
            None => {},
        }
        escape
    }
}

/// Replacing only the player's equipment table keeps the whole state
/// consistent.
proof fn lemma_equip_wf(pre: State, post: State, pid: EntityId)
    requires
        pre.wf(),
        pre.ecs.valid(pid),
        pid == pre.player_id_spec(),
        post.ecs.wf(),
        reg_same_except(pre.ecs, post.ecs, pid.idx as int),
        post.ecs.comps_at(pid.idx as int).basic == pre.ecs.comps_at(pid.idx as int).basic,
        post.ecs.comps_at(pid.idx as int).player == pre.ecs.comps_at(pid.idx as int).player,
        post.ecs.comps_at(pid.idx as int).stats == pre.ecs.comps_at(pid.idx as int).stats,
        post.map_state == pre.map_state,
    ensures
        post.wf(),
        post.player_id_spec() == pre.player_id_spec(),
{
    vstd::std_specs::vec::axiom_spec_len(&pre.ecs.slots);
    crate::world::lemma_wf_one_slot_comps(pre, post, pid.idx as int);
}

} // verus!
