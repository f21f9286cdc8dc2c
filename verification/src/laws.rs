//! The library's general laws, stated and proved once over the spec
//! functions the executable contracts use: the damage formula, the
//! irreversibility of death, spatial/registry consistency, and stat
//! clamping under arbitrary operation sequences.

use vstd::prelude::*;

use crate::registry::EntityId;
use crate::stats::{
    effective_damage, spec_damaged, spec_regen, stat_dec_result, stat_inc_result, StatBlock,
};
use crate::turn::death_transform;
use crate::world::State;

verus! {

/// The damage formula: for any attack value and any well-formed defender,
/// `take_damage` lowers the hit-point base by exactly
/// `max(0, atk - total defense)`, floored at `-bonus`, and the base never
/// ends below `-bonus`.
pub proof fn lemma_damage_formula(sb: StatBlock, atk: int)
    requires
        sb.inv(),
    ensures
        spec_damaged(sb, atk).hp.spec_base() == stat_dec_result(
            sb.hp.spec_base(),
            sb.hp.spec_bonus(),
            effective_damage(atk, sb.def.spec_total()),
        ),
        atk >= 0 ==> spec_damaged(sb, atk).hp.spec_base() >= -sb.hp.spec_bonus(),
        atk >= 0 && atk - sb.def.spec_total() >= 0 && sb.hp.spec_base() - (atk
            - sb.def.spec_total()) >= -sb.hp.spec_bonus() ==> spec_damaged(sb, atk).hp.spec_base()
            == sb.hp.spec_base() - (atk - sb.def.spec_total()),
        atk - sb.def.spec_total() <= 0 ==> spec_damaged(sb, atk).hp.spec_base()
            == sb.hp.spec_base(),
{
    let eff = effective_damage(atk, sb.def.spec_total());
    let nb = stat_dec_result(sb.hp.spec_base(), sb.hp.spec_bonus(), eff);
    assert(-sb.hp.spec_bonus() <= nb <= sb.hp.spec_max());
    assert(nb as i32 as int == nb);
}

/// Death is irreversible through every stat transition the library
/// performs: taking damage and regenerating preserve a set `dead` flag, and
/// the death transition only ever sets it. (At the whole-step level,
/// `State::on_turn` separately ensures `dead_monotone`.)
pub proof fn lemma_death_monotonic(sb: StatBlock, atk: int)
    requires
        sb.dead,
    ensures
        spec_damaged(sb, atk).dead,
        spec_regen(sb).dead,
        death_transform(
            crate::registry::ComponentSet { stats: Some(sb), ..crate::registry::ComponentSet::spec_empty() },
        ).stats->Some_0.dead,
{
}

/// The death transition fires only on a record that is not yet dead, and
/// afterwards the record is dead: together with `dead_monotone`, the
/// transition's side effects happen at most once per entity.
pub proof fn lemma_death_transition_once(cs: crate::registry::ComponentSet)
    requires
        crate::turn::needs_death(cs),
    ensures
        !cs.stats->Some_0.dead,
        death_transform(cs).stats->Some_0.dead,
        !crate::turn::needs_death(death_transform(cs)),
{
}

/// Spatial/registry round trip: in a consistent state, looking up the
/// position of any live positioned entity yields exactly that entity.
pub proof fn lemma_spatial_round_trip(s: State, id: EntityId)
    requires
        s.wf(),
        s.positioned(id),
    ensures
        s.map_state.sp_in_bounds(s.basic_of(id).x as int, s.basic_of(id).y as int),
        s.map_state.sp_occupant(s.basic_of(id).x as int, s.basic_of(id).y as int) == Some(id),
{
    assert(s.ecs.live(id.idx as int) && s.ecs.comps_at(id.idx as int).basic is Some);
    vstd::std_specs::vec::axiom_spec_len(&s.ecs.slots);
    assert(s.ecs.id_at(id.idx as int) == id);
}

/// At most one entity occupies a cell: two live positioned entities that
/// share a position are the same entity.
pub proof fn lemma_unique_occupancy(s: State, id1: EntityId, id2: EntityId)
    requires
        s.wf(),
        s.positioned(id1),
        s.positioned(id2),
        s.basic_of(id1).x == s.basic_of(id2).x,
        s.basic_of(id1).y == s.basic_of(id2).y,
    ensures
        id1 == id2,
{
    lemma_spatial_round_trip(s, id1);
    lemma_spatial_round_trip(s, id2);
}

/// One abstract stat operation: a raise (clamped into `[-bonus, max]`) or a
/// lowering by a non-negative amount (floored at `-bonus`). The pair is
/// `(raise, amount)`.
pub open spec fn apply_stat_op(base: int, bonus: int, max: int, op: (bool, int)) -> int {
    if op.0 {
        stat_inc_result(base, bonus, max, op.1)
    } else {
        stat_dec_result(base, bonus, op.1)
    }
}

/// The stat base after a whole sequence of operations.
pub open spec fn apply_stat_ops(base: int, bonus: int, max: int, ops: Seq<(bool, int)>) -> int
    decreases ops.len(),
{
    if ops.len() == 0 {
        base
    } else {
        apply_stat_op(
            apply_stat_ops(base, bonus, max, ops.drop_last()),
            bonus,
            max,
            ops.last(),
        )
    }
}

/// Stat clamping under arbitrary sequences: starting from a base inside
/// `[-bonus, max]`, any sequence of raises (by arbitrary amounts) and
/// lowerings (by non-negative amounts) keeps the base inside
/// `[-bonus, max]` — it never exceeds `max` nor drops below `-bonus`.
/// (A lowering by a negative amount can push the base above `max`, so such
/// inputs are excluded.)
pub proof fn lemma_stat_ops_clamped(base: int, bonus: int, max: int, ops: Seq<(bool, int)>)
    requires
        -bonus <= base <= max,
        forall|k: int| 0 <= k < ops.len() && !(#[trigger] ops[k]).0 ==> ops[k].1 >= 0,
    ensures
        -bonus <= apply_stat_ops(base, bonus, max, ops) <= max,
    decreases ops.len(),
{
    if ops.len() > 0 {
        lemma_stat_ops_clamped(base, bonus, max, ops.drop_last());
        let prev = apply_stat_ops(base, bonus, max, ops.drop_last());
        let op = ops.last();
        assert(op == ops[ops.len() - 1]);
        if op.0 {
            assert(-bonus <= stat_inc_result(prev, bonus, max, op.1) <= max);
        } else {
            assert(op.1 >= 0);
            assert(-bonus <= stat_dec_result(prev, bonus, op.1) <= max);
        }
    }
}

} // verus!
