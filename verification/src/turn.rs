//! Turn resolution: the three per-entity behaviors (player regeneration,
//! hostile pursuit, self-destruct countdown), the death sweep, deferred
//! destruction, and the scheduler that runs one discrete game step over a
//! snapshot of the entity lists.

use vstd::prelude::*;

use crate::camera::spec_sign;
use crate::components::{PlayerAI, SelfDestructAI, ZombieAI};
use crate::display::Display;
use crate::registry::{reg_same_except, ComponentSet, EntityId};
use crate::rng::random_below;
use crate::stats::{spec_damaged, spec_regen};
use crate::world::{
    lemma_player_id_stable, reg_player_at, spec_move_allowed, spec_moved, State,
};

verus! {

/// No entity whose stat block says `dead` ever returns to life: in the later
/// state its slot is either freed or still flagged dead.
pub open spec fn dead_monotone(pre: State, post: State) -> bool {
    forall|i: int|
        0 <= i < pre.ecs.num_slots() && pre.ecs.live(i) && (#[trigger] pre.ecs.comps_at(
            i,
        )).stats is Some && pre.ecs.comps_at(i).stats->Some_0.dead ==> !post.ecs.live(i) || (
        post.ecs.comps_at(i).stats is Some && post.ecs.comps_at(i).stats->Some_0.dead)
}

/// Turn processing never allocates identities: the slot count is unchanged
/// and a slot live afterwards was live before, with the same generation.
pub open spec fn no_spawn(pre: State, post: State) -> bool {
    &&& post.ecs.num_slots() == pre.ecs.num_slots()
    &&& forall|i: int|
        0 <= i < pre.ecs.num_slots() && #[trigger] post.ecs.live(i) ==> pre.ecs.live(i)
            && post.ecs.gen_of(i) == pre.ecs.gen_of(i)
}

/// `dead_monotone` and `no_spawn` compose across consecutive turn phases.
pub proof fn lemma_turn_frame_trans(a: State, b: State, c: State)
    requires
        dead_monotone(a, b),
        dead_monotone(b, c),
        no_spawn(a, b),
        no_spawn(b, c),
    ensures
        dead_monotone(a, c),
        no_spawn(a, c),
{
    assert forall|i: int|
        0 <= i < a.ecs.num_slots() && a.ecs.live(i) && (#[trigger] a.ecs.comps_at(i)).stats is Some
            && a.ecs.comps_at(i).stats->Some_0.dead implies !c.ecs.live(i) || (c.ecs.comps_at(
        i,
    ).stats is Some && c.ecs.comps_at(i).stats->Some_0.dead) by {
        if c.ecs.live(i) {
            assert(b.ecs.live(i));
        }
    }
    assert forall|i: int|
        0 <= i < a.ecs.num_slots() && #[trigger] c.ecs.live(i) implies a.ecs.live(i)
            && c.ecs.gen_of(i) == a.ecs.gen_of(i) by {
        assert(b.ecs.live(i));
    }
}

/// The saturating one-step countdown: `turns_left` drops by one, held at
/// the lowest representable value.
pub open spec fn ticked(tl: i32) -> int {
    if tl > i32::MIN {
        tl - 1
    } else {
        tl as int
    }
}

/// Liveness and generations of every slot are unchanged (nothing spawned,
/// nothing despawned).
pub open spec fn lives_same(pre: State, post: State) -> bool {
    &&& post.ecs.num_slots() == pre.ecs.num_slots()
    &&& forall|i: int|
        0 <= i < pre.ecs.num_slots() ==> post.ecs.live(i) == pre.ecs.live(i) && post.ecs.gen_of(i)
            == pre.ecs.gen_of(i)
}

/// The self-destruct component of every slot is unchanged.
pub open spec fn countdowns_same(pre: State, post: State) -> bool {
    forall|i: int|
        0 <= i < pre.ecs.num_slots() ==> (#[trigger] post.ecs.comps_at(i)).self_destruct
            == pre.ecs.comps_at(i).self_destruct
}

/// `lives_same` and `countdowns_same` compose across consecutive phases.
pub proof fn lemma_phase_same_trans(a: State, b: State, c: State)
    requires
        lives_same(a, b),
        lives_same(b, c),
        countdowns_same(a, b),
        countdowns_same(b, c),
    ensures
        lives_same(a, c),
        countdowns_same(a, c),
{
}

/// Every countdown carried by an entity live at the start of a game step
/// was resolved by its end: a surviving holder's counter dropped by one —
/// unless the entity underwent the death transition this step, which
/// re-arms the countdown at ten.
pub open spec fn countdowns_resolved(pre: State, post: State) -> bool {
    forall|i: int|
        #![trigger post.ecs.comps_at(i)]
        0 <= i < pre.ecs.num_slots() && pre.ecs.live(i) && pre.ecs.comps_at(
            i,
        ).self_destruct is Some && post.ecs.live(i) ==> {
            let ntl = ticked(pre.ecs.comps_at(i).self_destruct->Some_0.turns_left);
            ||| post.ecs.comps_at(i).self_destruct == Some(
                SelfDestructAI { turns_left: ntl as i32 },
            )
            ||| (post.ecs.comps_at(i).stats is Some && post.ecs.comps_at(i).stats->Some_0.dead
                && post.ecs.comps_at(i).self_destruct == Some(
                SelfDestructAI { turns_left: 10 },
            ))
        }
}

/// A hostile sits its turn out when its handle no longer resolves, when it
/// lacks a position or stats, or when it is dead.
pub open spec fn zombie_skips(s: State, me: EntityId) -> bool {
    ||| !s.ecs.valid(me)
    ||| s.ecs.comps(me).basic is None
    ||| s.ecs.comps(me).stats is None
    ||| s.stats_of(me).dead
}

/// Squared grid distance from `me` to the player.
pub open spec fn dist2_to_player(s: State, me: EntityId) -> int {
    let b = s.basic_of(me);
    let p = s.basic_of(s.player_id_spec());
    (p.x - b.x) * (p.x - b.x) + (p.y - b.y) * (p.y - b.y)
}

/// The one-cell step from `me` toward the player: the sign of each axis of
/// the separation (diagonals allowed).
pub open spec fn step_toward_player(s: State, me: EntityId) -> (int, int) {
    let b = s.basic_of(me);
    let p = s.basic_of(s.player_id_spec());
    (spec_sign(p.x - b.x), spec_sign(p.y - b.y))
}

/// The state after the player took a hit of `atk`: only the player's stat
/// block changed, by exactly `take_damage(atk)`.
pub open spec fn player_attacked(pre: State, post: State, atk: int) -> bool {
    let ps = pre.player_slot();
    &&& reg_same_except(pre.ecs, post.ecs, ps)
    &&& post.ecs.comps_at(ps) == (ComponentSet {
        stats: Some(spec_damaged(pre.stats_of(pre.player_id_spec()), atk)),
        ..pre.ecs.comps_at(ps)
    })
    &&& post.map_state == pre.map_state
    &&& State::frame_fields_same(pre, post)
}

/// The state after `e` regenerated one hit point: only `e`'s stat block
/// changed, by exactly `hp.increment(1)`.
pub open spec fn entity_regenned(pre: State, post: State, e: EntityId) -> bool {
    &&& reg_same_except(pre.ecs, post.ecs, e.idx as int)
    &&& post.ecs.comps_at(e.idx as int) == (ComponentSet {
        stats: Some(spec_regen(pre.stats_of(e))),
        ..pre.ecs.comps_at(e.idx as int)
    })
    &&& post.map_state == pre.map_state
    &&& State::frame_fields_same(pre, post)
}

impl ZombieAI {
    /// The deterministic core of a hostile's turn, given the staggering roll
    /// already drawn. Dead or unresolvable hostiles skip. Within squared
    /// distance 2 (one step, diagonals included) the hostile attacks the
    /// player; within squared distance 25 it steps one cell toward the
    /// player when the roll is below 90 and the destination is free;
    /// otherwise it stays put.
    pub fn act(state: &mut State, me: EntityId, roll: u32)
        requires
            old(state).wf(),
        ensures
            final(state).wf(),
            final(state).player_id_spec() == old(state).player_id_spec(),
            dead_monotone(*old(state), *final(state)),
            no_spawn(*old(state), *final(state)),
            lives_same(*old(state), *final(state)),
            countdowns_same(*old(state), *final(state)),
            zombie_skips(*old(state), me) ==> *final(state) == *old(state),
            !zombie_skips(*old(state), me) ==> {
                let d2 = dist2_to_player(*old(state), me);
                let st = step_toward_player(*old(state), me);
                &&& (d2 <= 2 ==> player_attacked(
                    *old(state),
                    *final(state),
                    old(state).stats_of(me).atk.spec_total(),
                ))
                &&& (2 < d2 < 25 && roll < 90 ==> {
                    &&& (spec_move_allowed(*old(state), me, st.0, st.1) ==> spec_moved(
                        *old(state),
                        *final(state),
                        me,
                        st.0,
                        st.1,
                    ) && State::frame_fields_same(*old(state), *final(state)))
                    &&& (!spec_move_allowed(*old(state), me, st.0, st.1) ==> *final(state) == *old(state))
                })
                &&& (2 < d2 < 25 && roll >= 90 ==> *final(state) == *old(state))
                &&& (d2 >= 25 ==> *final(state) == *old(state))
            },
    {
        let ghost pre = *state;
        let plr_pos = state.get_player();
        let pid = state.get_player_id();
        let be_comp = match state.get_basic(me) {
            Ok(b) => b,
            Err(_) => {
                return ;
            },
        };
        let me_stats = match state.get_stats(me) {
            Ok(s) => s,
            Err(_) => {
                return ;
            },
        };
        if me_stats.dead {
            return ;
        }
        proof {
            assert(!zombie_skips(pre, me));
            assert(pre.ecs.live(me.idx as int) && pre.ecs.comps_at(me.idx as int).basic is Some);
            assert(pre.ecs.live(pid.idx as int) && pre.ecs.comps_at(pid.idx as int).basic is Some);
            assert(pre.ecs.comps_at(me.idx as int).stats is Some);
        }
        let dx: i64 = plr_pos.x as i64 - be_comp.x as i64;
        let dy: i64 = plr_pos.y as i64 - be_comp.y as i64;
        proof {
            assert(pre.map_state.sp_in_bounds(be_comp.x as int, be_comp.y as int));
            assert(pre.map_state.sp_in_bounds(plr_pos.x as int, plr_pos.y as int));
            assert(0 <= dx * dx < 0x4000_0000_0000_0000 && 0 <= dy * dy
                < 0x4000_0000_0000_0000) by (nonlinear_arith)
                requires
                    -0x7FFF_FFFF <= dx <= 0x7FFF_FFFF,
                    -0x7FFF_FFFF <= dy <= 0x7FFF_FFFF,
            ;
        }
        let d2: i64 = dx * dx + dy * dy;
        if d2 <= 2 {
            let atk = me_stats.atk.get_total();
            let mut plr_stats = state.get_player_stat_block();
            plr_stats.take_damage(atk);
            state.set_stats(pid, plr_stats);
            proof {
                vstd::std_specs::vec::axiom_spec_len(&pre.ecs.slots);
                assert(pid.idx as int == pre.player_slot());
            }
        } else if d2 < 25 && roll < 90 {
            let sdx: i32 = if dx > 0 {
                1
            } else if dx < 0 {
                -1
            } else {
                0
            };
            let sdy: i32 = if dy > 0 {
                1
            } else if dy < 0 {
                -1
            } else {
                0
            };
            let deltas = state.move_entity_by(me, sdx, sdy);
            proof {
                if spec_move_allowed(pre, me, sdx as int, sdy as int) {
                    assert forall|i: int|
                        reg_player_at(pre.ecs, i) <==> #[trigger] reg_player_at(
                            state.ecs,
                            i,
                        ) by {
                        assert(reg_same_except(pre.ecs, state.ecs, me.idx as int));
                    }
                    lemma_player_id_stable(pre, *state);
                }
            }
        }
    }

    /// One hostile turn: draws the staggering roll, then acts as `act`
    /// describes; whatever the roll, the hostile either attacks an adjacent
    /// player, steps one free cell toward a player within pursuit radius, or
    /// stays put.
    pub fn on_turn(state: &mut State, me: EntityId)
        requires
            old(state).wf(),
        ensures
            final(state).wf(),
            final(state).player_id_spec() == old(state).player_id_spec(),
            dead_monotone(*old(state), *final(state)),
            no_spawn(*old(state), *final(state)),
            lives_same(*old(state), *final(state)),
            countdowns_same(*old(state), *final(state)),
            zombie_skips(*old(state), me) ==> *final(state) == *old(state),
            !zombie_skips(*old(state), me) ==> {
                let d2 = dist2_to_player(*old(state), me);
                let st = step_toward_player(*old(state), me);
                &&& (d2 <= 2 ==> player_attacked(
                    *old(state),
                    *final(state),
                    old(state).stats_of(me).atk.spec_total(),
                ))
                &&& (2 < d2 < 25 ==> *final(state) == *old(state) || (spec_move_allowed(
                    *old(state),
                    me,
                    st.0,
                    st.1,
                ) && spec_moved(*old(state), *final(state), me, st.0, st.1)
                    && State::frame_fields_same(*old(state), *final(state))))
                &&& (d2 >= 25 ==> *final(state) == *old(state))
            },
    {
        let roll = random_below(100);
        ZombieAI::act(state, me, roll);
    }
}

impl PlayerAI {
    /// The deterministic core of the player's scheduled turn, given the
    /// regeneration roll already drawn: on a roll below 30 the entity
    /// regenerates one hit point, otherwise nothing changes. An entity
    /// without stats is skipped.
    pub fn act(state: &mut State, e: EntityId, roll: u32)
        requires
            old(state).wf(),
        ensures
            final(state).wf(),
            final(state).player_id_spec() == old(state).player_id_spec(),
            dead_monotone(*old(state), *final(state)),
            no_spawn(*old(state), *final(state)),
            lives_same(*old(state), *final(state)),
            countdowns_same(*old(state), *final(state)),
            !(old(state).ecs.valid(e) && old(state).ecs.comps(e).stats is Some) ==> *final(state)
                == *old(state),
            old(state).ecs.valid(e) && old(state).ecs.comps(e).stats is Some && roll < 30
                ==> entity_regenned(*old(state), *final(state), e),
            old(state).ecs.valid(e) && old(state).ecs.comps(e).stats is Some && roll >= 30
                ==> *final(state) == *old(state),
    {
        let ghost pre = *state;
        let mut st_bl = match state.get_stats(e) {
            Ok(s) => s,
            Err(_) => {
                return ;
            },
        };
        if roll >= 30 {
            return ;
        }
        proof {
            assert(pre.ecs.live(e.idx as int) && pre.ecs.comps_at(e.idx as int).stats is Some);
        }
        st_bl.hp.increment(1);
        state.set_stats(e, st_bl);
    }

    /// The player's scheduled turn: with fixed probability (30 in 100) the
    /// player regenerates one hit point; otherwise nothing changes.
    pub fn on_turn(state: &mut State, e: EntityId)
        requires
            old(state).wf(),
        ensures
            final(state).wf(),
            final(state).player_id_spec() == old(state).player_id_spec(),
            dead_monotone(*old(state), *final(state)),
            no_spawn(*old(state), *final(state)),
            lives_same(*old(state), *final(state)),
            countdowns_same(*old(state), *final(state)),
            *final(state) == *old(state) || (old(state).ecs.valid(e) && old(state).ecs.comps(
                e,
            ).stats is Some && entity_regenned(*old(state), *final(state), e)),
    {
        let roll = random_below(100);
        PlayerAI::act(state, e, roll);
    }
}

impl SelfDestructAI {
    /// One countdown turn: decrements `turns_left` (saturating at the lowest
    /// representable value) and, once it has gone negative, queues the
    /// entity for the deferred-destruction sweep at the end of the game
    /// step. An entity without the countdown component is skipped.
    pub fn on_turn(state: &mut State, me: EntityId)
        requires
            old(state).wf(),
        ensures
            final(state).wf(),
            final(state).player_id_spec() == old(state).player_id_spec(),
            dead_monotone(*old(state), *final(state)),
            no_spawn(*old(state), *final(state)),
            lives_same(*old(state), *final(state)),
            !(old(state).ecs.valid(me) && old(state).ecs.comps(me).self_destruct is Some) ==> *final(state) == *old(state),
            old(state).ecs.valid(me) && old(state).ecs.comps(me).self_destruct is Some ==> {
                let tl = old(state).ecs.comps(me).self_destruct->Some_0.turns_left;
                let ntl: int = if tl > i32::MIN {
                    tl - 1
                } else {
                    tl as int
                };
                &&& reg_same_except(old(state).ecs, final(state).ecs, me.idx as int)
                &&& final(state).ecs.comps_at(me.idx as int) == (ComponentSet {
                    self_destruct: Some(SelfDestructAI { turns_left: ntl as i32 }),
                    ..old(state).ecs.comps_at(me.idx as int)
                })
                &&& final(state).map_state == old(state).map_state
                &&& final(state).camera == old(state).camera
                &&& final(state).waiting_for_directional_input == old(state).waiting_for_directional_input
                &&& final(state).directional_callback == old(state).directional_callback
                &&& final(state).destination_next_tick == old(state).destination_next_tick
                &&& (ntl < 0 ==> final(state).queued_destruction@ == old(state).queued_destruction@.push(me))
                &&& (ntl >= 0 ==> final(state).queued_destruction@ == old(state).queued_destruction@)
            },
    {
        let sd = match state.ecs.get_self_destruct(me) {
            Ok(sd) => sd,
            Err(_) => {
                return ;
            },
        };
        let ntl: i32 = if sd.turns_left > i32::MIN {
            sd.turns_left - 1
        } else {
            sd.turns_left
        };
        state.set_self_destruct(me, SelfDestructAI { turns_left: ntl });
        if ntl < 0 {
            state.queue_destruction(me);
        }
    }
}

/// Whether a component record is due for the death transition: it has stats,
/// is not yet flagged dead, and its hit-point total has reached zero or
/// below.
pub open spec fn needs_death(cs: ComponentSet) -> bool {
    cs.stats is Some && !cs.stats->Some_0.dead && cs.stats->Some_0.hp.spec_total() <= 0
}

/// The glyph an entity is swapped to when it dies.
pub open spec fn spec_corpse_display() -> Display {
    Display { glyph: 37, fg: (255u8, 0u8, 0u8), bg: (0u8, 0u8, 0u8) }
}

/// The death transition applied to a component record: the stat block is
/// flagged dead, a ten-turn self-destruct countdown is attached, and the
/// glyph (if the entity is drawn at all) becomes the corpse glyph.
pub open spec fn death_transform(cs: ComponentSet) -> ComponentSet {
    ComponentSet {
        stats: Some(crate::stats::StatBlock { dead: true, ..cs.stats->Some_0 }),
        self_destruct: Some(SelfDestructAI { turns_left: 10 }),
        basic: match cs.basic {
            Some(b) => Some(
                crate::components::BasicEntity { d: spec_corpse_display(), ..b },
            ),
            None => None,
        },
        ..cs
    }
}

/// No live entity is still due for the death transition: everything at or
/// below zero hit points is already flagged dead.
pub open spec fn all_deaths_settled(s: State) -> bool {
    forall|i: int|
        0 <= i < s.ecs.num_slots() && s.ecs.live(i) ==> !needs_death(#[trigger] s.ecs.comps_at(i))
}

impl State {
    /// The death sweep: every live entity whose hit-point total has reached
    /// zero or below and which is not yet dead undergoes the death
    /// transition, exactly once; every other entity is untouched.
    pub fn death_sweep(&mut self)
        requires
            old(self).wf(),
        ensures
            final(self).wf(),
            final(self).player_id_spec() == old(self).player_id_spec(),
            dead_monotone(*old(self), *final(self)),
            no_spawn(*old(self), *final(self)),
            final(self).ecs.num_slots() == old(self).ecs.num_slots(),
            forall|i: int|
                0 <= i < old(self).ecs.num_slots() ==> final(self).ecs.live(i) == old(self).ecs.live(i) && final(self).ecs.gen_of(i) == old(self).ecs.gen_of(i),
            forall|i: int|
                0 <= i < old(self).ecs.num_slots() ==> final(self).ecs.comps_at(i) == if old(self).ecs.live(i) && needs_death(#[trigger] old(self).ecs.comps_at(i)) {
                    death_transform(old(self).ecs.comps_at(i))
                } else {
                    old(self).ecs.comps_at(i)
                },
            final(self).map_state == old(self).map_state,
            State::frame_fields_same(*old(self), *final(self)),
            all_deaths_settled(*final(self)),
    {
        let ghost pre = *self;
        let n = self.ecs.slot_count();
        let mut i: usize = 0;
        while i < n
            invariant
                self.wf(),
                n as int == pre.ecs.num_slots(),
                i <= n,
                self.ecs.num_slots() == pre.ecs.num_slots(),
                self.player_id_spec() == pre.player_id_spec(),
                self.player_ok(),
                forall|j: int|
                    0 <= j < pre.ecs.num_slots() ==> self.ecs.live(j) == pre.ecs.live(j)
                        && self.ecs.gen_of(j) == pre.ecs.gen_of(j),
                forall|j: int|
                    0 <= j < i ==> self.ecs.comps_at(j) == if pre.ecs.live(j) && needs_death(
                        #[trigger] pre.ecs.comps_at(j),
                    ) {
                        death_transform(pre.ecs.comps_at(j))
                    } else {
                        pre.ecs.comps_at(j)
                    },
                forall|j: int|
                    i <= j < pre.ecs.num_slots() ==> self.ecs.comps_at(j) == pre.ecs.comps_at(j),
                self.map_state == pre.map_state,
                State::frame_fields_same(pre, *self),
            decreases n - i,
        {
            let maybe_id = self.ecs.id_at_index(i);
            match maybe_id {
                Some(id) => {
                    match self.get_stats(id) {
                        Ok(st) => {
                            if st.hp.get_total() <= 0 && !st.dead {
                                let mut st2 = st;
                                st2.dead = true;
                                self.set_stats(id, st2);
                                self.set_self_destruct(id, SelfDestructAI { turns_left: 10 });
                                match self.get_basic(id) {
                                    Ok(b) => {
                                        self.set_display_of(
                                            id,
                                            Display {
                                                glyph: 37,
                                                fg: (255, 0, 0),
                                                bg: (0, 0, 0),
                                            },
                                        );
                                    },
                                    Err(_) => {},
                                }
                                proof {
                                    assert(self.ecs.comps_at(i as int) == death_transform(
                                        pre.ecs.comps_at(i as int),
                                    ));
                                }
                            }
                        },
                        Err(_) => {},
                    }
                },
                None => {},
            }
            i = i + 1;
        }
        proof {
            assert(dead_monotone(pre, *self));
            assert forall|j: int|
                0 <= j < self.ecs.num_slots() && self.ecs.live(j) implies !needs_death(
                #[trigger] self.ecs.comps_at(j)) by {
                if pre.ecs.live(j) && needs_death(pre.ecs.comps_at(j)) {
                    assert(self.ecs.comps_at(j) == death_transform(pre.ecs.comps_at(j)));
                } else {
                    assert(self.ecs.comps_at(j) == pre.ecs.comps_at(j));
                }
            }
        }
    }

}

/// Entities that were never queued survive the destruction sweep untouched.
pub open spec fn queue_survivors_ok(
    pre_reg: crate::registry::Registry,
    pre_q: Seq<EntityId>,
    reg: crate::registry::Registry,
) -> bool {
    forall|id: EntityId|
        pre_reg.valid(id) && !pre_q.contains(id) ==> #[trigger] reg.valid(id) && reg.comps(id)
            == pre_reg.comps(id)
}

/// The queued entities from position `from` on are gone: each one that
/// resolved at the start of the sweep and was not the player no longer
/// resolves.
pub open spec fn queue_tail_discarded(
    pre_reg: crate::registry::Registry,
    pre_pid: EntityId,
    pre_q: Seq<EntityId>,
    from: int,
    reg: crate::registry::Registry,
) -> bool {
    forall|k: int|
        from <= k < pre_q.len() ==> {
            let id = #[trigger] pre_q[k];
            pre_reg.valid(id) && id != pre_pid ==> !reg.valid(id)
        }
}

impl State {
    /// Despawns one queued entity if it still resolves and is not the
    /// player; every other entity is untouched.
    fn discard_queued(&mut self, id: EntityId)
        requires
            old(self).wf(),
        ensures
            final(self).wf(),
            final(self).player_id_spec() == old(self).player_id_spec(),
            dead_monotone(*old(self), *final(self)),
            no_spawn(*old(self), *final(self)),
            old(self).ecs.valid(id) && id != old(self).player_id_spec() ==> !final(self).ecs.valid(id),
            forall|id2: EntityId|
                old(self).ecs.valid(id2) && id2 != id ==> #[trigger] final(self).ecs.valid(id2)
                    && final(self).ecs.comps(id2) == old(self).ecs.comps(id2),
            forall|i: int|
                0 <= i < old(self).ecs.num_slots() && #[trigger] final(self).ecs.live(i) ==> final(self).ecs.comps_at(i) == old(self).ecs.comps_at(i),
            final(self).queued_destruction@ == old(self).queued_destruction@,
            State::map_same_but_occupants(*old(self), *final(self)),
            final(self).camera == old(self).camera,
            final(self).waiting_for_directional_input == old(self).waiting_for_directional_input,
            final(self).directional_callback == old(self).directional_callback,
            final(self).destination_next_tick == old(self).destination_next_tick,
    {
        let ghost pre = *self;
        let pid = self.get_player_id();
        if id.idx == pid.idx && id.gen == pid.gen {
            return ;
        }
        proof {
            if self.is_player(id) {
                assert(reg_player_at(self.ecs, id.idx as int));
                assert(reg_player_at(self.ecs, self.player_slot()));
                vstd::std_specs::vec::axiom_spec_len(&self.ecs.slots);
                assert(false);
            }
        }
        let removed = self.remove_entity(id);
        proof {
            if removed {
                assert forall|i: int|
                    reg_player_at(pre.ecs, i) <==> #[trigger] reg_player_at(self.ecs, i) by {}
                lemma_player_id_stable(pre, *self);
            }
            assert forall|id2: EntityId|
                pre.ecs.valid(id2) && id2 != id implies #[trigger] self.ecs.valid(id2)
                && self.ecs.comps(id2) == pre.ecs.comps(id2) by {
                if removed && id2.idx == id.idx {
                    assert(pre.ecs.valid(id));
                    assert(id2.gen == pre.ecs.gen_of(id2.idx as int));
                    assert(id.gen == pre.ecs.gen_of(id.idx as int));
                    assert(false);
                }
            }
            assert forall|i: int|
                0 <= i < pre.ecs.num_slots() && #[trigger] self.ecs.live(i) implies
                self.ecs.comps_at(i) == pre.ecs.comps_at(i) by {
                if removed && i == id.idx as int {
                    assert(!self.ecs.live(i));
                }
            }
        }
    }

    /// The deferred-destruction sweep: despawns every queued entity that
    /// still resolves, skipping the player (which is never destroyed), and
    /// empties the queue. Entities never queued are untouched.
    pub fn process_destruction_queue(&mut self)
        requires
            old(self).wf(),
        ensures
            final(self).wf(),
            final(self).player_id_spec() == old(self).player_id_spec(),
            dead_monotone(*old(self), *final(self)),
            no_spawn(*old(self), *final(self)),
            final(self).queued_destruction@.len() == 0,
            queue_tail_discarded(
                old(self).ecs,
                old(self).player_id_spec(),
                old(self).queued_destruction@,
                0,
                final(self).ecs,
            ),
            queue_survivors_ok(old(self).ecs, old(self).queued_destruction@, final(self).ecs),
            forall|i: int|
                0 <= i < old(self).ecs.num_slots() && #[trigger] final(self).ecs.live(i) ==> final(self).ecs.comps_at(i) == old(self).ecs.comps_at(i),
            State::map_same_but_occupants(*old(self), *final(self)),
            final(self).camera == old(self).camera,
            final(self).waiting_for_directional_input == old(self).waiting_for_directional_input,
            final(self).directional_callback == old(self).directional_callback,
            final(self).destination_next_tick == old(self).destination_next_tick,
    {
        let ghost pre = *self;
        let ghost pre_q = pre.queued_destruction@;
        loop
            invariant
                self.wf(),
                self.player_id_spec() == pre.player_id_spec(),
                dead_monotone(pre, *self),
                no_spawn(pre, *self),
                self.queued_destruction@ == pre_q.subrange(0, self.queued_destruction@.len() as int),
                self.queued_destruction@.len() <= pre_q.len(),
                queue_tail_discarded(
                    pre.ecs,
                    pre.player_id_spec(),
                    pre_q,
                    self.queued_destruction@.len() as int,
                    self.ecs,
                ),
                queue_survivors_ok(pre.ecs, pre_q, self.ecs),
                forall|i: int|
                    0 <= i < pre.ecs.num_slots() && #[trigger] self.ecs.live(i)
                        ==> self.ecs.comps_at(i) == pre.ecs.comps_at(i),
                State::map_same_but_occupants(pre, *self),
                self.camera == pre.camera,
                self.waiting_for_directional_input == pre.waiting_for_directional_input,
                self.directional_callback == pre.directional_callback,
                self.destination_next_tick == pre.destination_next_tick,
            ensures
                self.queued_destruction@.len() == 0,
            decreases self.queued_destruction@.len(),
        {
            let ghost cur = *self;
            let ghost n = cur.queued_destruction@.len() as int;
            let popped = self.queued_destruction.pop();
            match popped {
                Some(id) => {
                    proof {
                        assert(cur.queued_destruction@ == pre_q.subrange(0, n));
                        assert(id == pre_q.subrange(0, n)[n - 1]);
                        assert(id == pre_q[n - 1]);
                        assert(pre_q.contains(id));
                        assert(self.queued_destruction@ =~= pre_q.subrange(0, n - 1));
                    }
                    let ghost mid = *self;
                    self.discard_queued(id);
                    proof {
                        lemma_turn_frame_trans(pre, mid, *self);
                        assert forall|i: int|
                            0 <= i < pre.ecs.num_slots() && #[trigger] self.ecs.live(i) implies
                            self.ecs.comps_at(i) == pre.ecs.comps_at(i) by {
                            assert(mid.ecs.live(i));
                        }
                        assert(queue_survivors_ok(pre.ecs, pre_q, mid.ecs));
                        assert(queue_tail_discarded(
                            pre.ecs,
                            pre.player_id_spec(),
                            pre_q,
                            n,
                            mid.ecs,
                        ));
                        assert forall|id2: EntityId|
                            pre.ecs.valid(id2) && !pre_q.contains(id2) implies
                            #[trigger] self.ecs.valid(id2) && self.ecs.comps(id2)
                            == pre.ecs.comps(id2) by {
                            assert(mid.ecs.valid(id2) && mid.ecs.comps(id2) == pre.ecs.comps(id2));
                            assert(id2 != id);
                        }
                        assert(queue_survivors_ok(pre.ecs, pre_q, self.ecs));
                        assert forall|k: int|
                            n - 1 <= k < pre_q.len() implies {
                            let qid = #[trigger] pre_q[k];
                            pre.ecs.valid(qid) && qid != pre.player_id_spec() ==> !self.ecs.valid(
                                qid,
                            )
                        } by {
                            let qid = pre_q[k];
                            if pre.ecs.valid(qid) && qid != pre.player_id_spec() {
                                if k >= n {
                                    assert(!mid.ecs.valid(qid));
                                    if self.ecs.valid(qid) {
                                        assert(mid.ecs.live(qid.idx as int));
                                        assert(false);
                                    }
                                } else {
                                    assert(qid == id);
                                    if mid.ecs.valid(id) {
                                        assert(!self.ecs.valid(id));
                                    } else {
                                        if self.ecs.valid(id) {
                                            assert(mid.ecs.live(id.idx as int));
                                            assert(false);
                                        }
                                    }
                                }
                            }
                        }
                        assert(queue_tail_discarded(
                            pre.ecs,
                            pre.player_id_spec(),
                            pre_q,
                            n - 1,
                            self.ecs,
                        ));
                    }
                },
                None => {
                    break ;
                },
            }
        }
    }

    /// One discrete game step: snapshot the hostile and self-destruct lists,
    /// run every snapshotted hostile, then every snapshotted countdown, then
    /// the player's turn, then the death sweep, and finally the deferred
    /// destruction of queued entities. Entities despawned mid-phase are
    /// skipped softly by the later phases. Across the whole step no dead
    /// entity returns to life, no identity is allocated, the player
    /// survives under the same handle, no live entity leaves the step still
    /// due for the death transition, and every countdown held at entry was
    /// resolved: decremented once, unless its entity died this step and had
    /// it re-armed, or was destroyed outright.
    pub fn on_turn(&mut self)
        requires
            old(self).wf(),
        ensures
            final(self).wf(),
            final(self).player_id_spec() == old(self).player_id_spec(),
            dead_monotone(*old(self), *final(self)),
            no_spawn(*old(self), *final(self)),
            final(self).queued_destruction@.len() == 0,
            all_deaths_settled(*final(self)),
            countdowns_resolved(*old(self), *final(self)),
    {
        let ghost pre = *self;
        let zombie_ticks = self.ecs.query_zombies();
        let self_destructs = self.ecs.query_self_destructs();

        let nz = zombie_ticks.len();
        let mut i: usize = 0;
        while i < nz
            invariant
                self.wf(),
                i <= nz,
                nz == zombie_ticks@.len(),
                self.player_id_spec() == pre.player_id_spec(),
                dead_monotone(pre, *self),
                no_spawn(pre, *self),
                lives_same(pre, *self),
                countdowns_same(pre, *self),
            decreases nz - i,
        {
            let ghost mid = *self;
            ZombieAI::on_turn(self, zombie_ticks[i]);
            proof {
                lemma_turn_frame_trans(pre, mid, *self);
                lemma_phase_same_trans(pre, mid, *self);
            }
            i = i + 1;
        }

        let ns = self_destructs.len();
        let mut j: usize = 0;
        while j < ns
            invariant
                self.wf(),
                j <= ns,
                ns == self_destructs@.len(),
                self.player_id_spec() == pre.player_id_spec(),
                dead_monotone(pre, *self),
                no_spawn(pre, *self),
                lives_same(pre, *self),
                forall|k: int|
                    0 <= k < ns ==> pre.ecs.valid(#[trigger] self_destructs@[k]) && pre.ecs.comps(
                        self_destructs@[k],
                    ).self_destruct is Some,
                forall|i2: int|
                    0 <= i2 < pre.ecs.num_slots() && pre.ecs.live(i2) && (
                    #[trigger] pre.ecs.comps_at(i2)).self_destruct is Some
                        ==> self_destructs@.contains(pre.ecs.id_at(i2)),
                forall|k1: int, k2: int|
                    0 <= k1 < k2 < ns ==> self_destructs@[k1].idx < self_destructs@[k2].idx,
                forall|k: int|
                    0 <= k < j ==> {
                        let sid = #[trigger] self_destructs@[k];
                        self.ecs.comps_at(sid.idx as int).self_destruct == Some(
                            SelfDestructAI {
                                turns_left: ticked(
                                    pre.ecs.comps_at(
                                        sid.idx as int,
                                    ).self_destruct->Some_0.turns_left,
                                ) as i32,
                            },
                        )
                    },
                forall|i2: int|
                    #![trigger self.ecs.comps_at(i2)]
                    0 <= i2 < pre.ecs.num_slots() && !(exists|k: int|
                        0 <= k < j && (#[trigger] self_destructs@[k]).idx as int == i2)
                        ==> self.ecs.comps_at(i2).self_destruct == pre.ecs.comps_at(
                        i2,
                    ).self_destruct,
            decreases ns - j,
        {
            let ghost mid = *self;
            let me = self_destructs[j];
            proof {
                assert(pre.ecs.valid(me));
                assert(mid.ecs.live(me.idx as int) == pre.ecs.live(me.idx as int));
                assert(mid.ecs.valid(me));
                assert(!(exists|k: int|
                    0 <= k < j && (#[trigger] self_destructs@[k]).idx as int
                        == me.idx as int)) by {
                    if exists|k: int|
                        0 <= k < j && (#[trigger] self_destructs@[k]).idx as int
                            == me.idx as int {
                        let k = choose|k: int|
                            0 <= k < j && (#[trigger] self_destructs@[k]).idx as int
                                == me.idx as int;
                        assert(self_destructs@[k].idx < self_destructs@[j as int].idx);
                        assert(false);
                    }
                }
                assert(mid.ecs.comps_at(me.idx as int).self_destruct == pre.ecs.comps_at(
                    me.idx as int,
                ).self_destruct);
                assert(mid.ecs.comps(me).self_destruct is Some);
            }
            SelfDestructAI::on_turn(self, me);
            proof {
                lemma_turn_frame_trans(pre, mid, *self);
                assert forall|i2: int|
                    0 <= i2 < pre.ecs.num_slots() implies self.ecs.live(i2) == pre.ecs.live(i2)
                    && self.ecs.gen_of(i2) == pre.ecs.gen_of(i2) by {
                    assert(mid.ecs.live(i2) == pre.ecs.live(i2));
                }
                assert forall|k: int| 0 <= k < j + 1 implies {
                    let sid = #[trigger] self_destructs@[k];
                    self.ecs.comps_at(sid.idx as int).self_destruct == Some(
                        SelfDestructAI {
                            turns_left: ticked(
                                pre.ecs.comps_at(
                                    sid.idx as int,
                                ).self_destruct->Some_0.turns_left,
                            ) as i32,
                        },
                    )
                } by {
                    let sid = self_destructs@[k];
                    if k < j {
                        assert(sid.idx < self_destructs@[j as int].idx);
                        assert(self.ecs.comps_at(sid.idx as int) == mid.ecs.comps_at(
                            sid.idx as int,
                        ));
                    }
                }
                assert forall|i2: int|
                    #![trigger self.ecs.comps_at(i2)]
                    0 <= i2 < pre.ecs.num_slots() && !(exists|k: int|
                        0 <= k < j + 1 && (#[trigger] self_destructs@[k]).idx as int == i2)
                        implies self.ecs.comps_at(i2).self_destruct == pre.ecs.comps_at(
                    i2,
                ).self_destruct by {
                    assert(!(self_destructs@[j as int].idx as int == i2));
                    assert(self.ecs.comps_at(i2) == mid.ecs.comps_at(i2));
                }
            }
            j = j + 1;
        }

        let ghost after_countdowns = *self;
        proof {
            vstd::std_specs::vec::axiom_spec_len(&pre.ecs.slots);
            assert forall|i2: int|
                0 <= i2 < pre.ecs.num_slots() && pre.ecs.live(i2) && (#[trigger] pre.ecs.comps_at(
                    i2,
                )).self_destruct is Some implies after_countdowns.ecs.comps_at(
                i2,
            ).self_destruct == Some(
                SelfDestructAI {
                    turns_left: ticked(
                        pre.ecs.comps_at(i2).self_destruct->Some_0.turns_left,
                    ) as i32,
                },
            ) by {
                assert(self_destructs@.contains(pre.ecs.id_at(i2)));
                let k = choose|k: int|
                    0 <= k < self_destructs@.len() && self_destructs@[k] == pre.ecs.id_at(i2);
                assert(self_destructs@[k].idx as int == i2);
            }
        }

        let ghost mid1 = *self;
        let pid = self.get_player_id();
        PlayerAI::on_turn(self, pid);
        proof {
            lemma_turn_frame_trans(pre, mid1, *self);
        }

        let ghost mid2 = *self;
        self.death_sweep();
        proof {
            lemma_turn_frame_trans(pre, mid2, *self);
        }

        let ghost mid3 = *self;
        self.process_destruction_queue();
        proof {
            lemma_turn_frame_trans(pre, mid3, *self);
            assert forall|i2: int|
                0 <= i2 < self.ecs.num_slots() && self.ecs.live(i2) implies !needs_death(
                #[trigger] self.ecs.comps_at(i2)) by {
                assert(mid3.ecs.live(i2));
                assert(self.ecs.comps_at(i2) == mid3.ecs.comps_at(i2));
            }
            assert forall|i2: int|
                #![trigger self.ecs.comps_at(i2)]
                0 <= i2 < pre.ecs.num_slots() && pre.ecs.live(i2) && pre.ecs.comps_at(
                    i2,
                ).self_destruct is Some && self.ecs.live(i2) implies {
                let ntl = ticked(pre.ecs.comps_at(i2).self_destruct->Some_0.turns_left);
                ||| self.ecs.comps_at(i2).self_destruct == Some(
                    SelfDestructAI { turns_left: ntl as i32 },
                )
                ||| (self.ecs.comps_at(i2).stats is Some && self.ecs.comps_at(
                    i2,
                ).stats->Some_0.dead && self.ecs.comps_at(i2).self_destruct == Some(
                    SelfDestructAI { turns_left: 10 },
                ))
            } by {
                assert(mid3.ecs.live(i2));
                assert(self.ecs.comps_at(i2) == mid3.ecs.comps_at(i2));
                assert(mid2.ecs.comps_at(i2).self_destruct == mid1.ecs.comps_at(
                    i2,
                ).self_destruct);
                assert(mid1.ecs.comps_at(i2).self_destruct == after_countdowns.ecs.comps_at(
                    i2,
                ).self_destruct);
                if mid2.ecs.live(i2) && needs_death(mid2.ecs.comps_at(i2)) {
                    assert(mid3.ecs.comps_at(i2) == death_transform(mid2.ecs.comps_at(i2)));
                } else {
                    assert(mid3.ecs.comps_at(i2) == mid2.ecs.comps_at(i2));
                }
            }
        }
    }
}

} // verus!
