//! The entity factory: fixed monster archetypes spawned into a session, and
//! the resolver that turns a descriptor's name string into the matching
//! archetype. Unknown names are rejected explicitly.

use vstd::prelude::*;

use crate::components::{BasicEntity, EntityView, ZombieAI};
use crate::display::Display;
use crate::registry::{ComponentSet, EntityId};
use crate::stats::StatBlock;
use crate::str_eq;
use crate::world::{reg_player_at, State};

verus! {

/// The resolver's rejection: the name matches no known archetype.
#[derive(Clone, Copy, PartialEq, Eq, Structural, Debug)]
pub enum FactoryError {
    UnknownName,
}

/// A stat block fresh from the factory: `base == max` for each stat, no
/// bonuses, not dead.
pub open spec fn monster_stats_match(sb: StatBlock, hp: int, atk: int, def: int) -> bool {
    &&& sb.hp.spec_base() == hp && sb.hp.spec_max() == hp && sb.hp.spec_bonus() == 0
    &&& sb.atk.spec_base() == atk && sb.atk.spec_max() == atk && sb.atk.spec_bonus() == 0
    &&& sb.def.spec_base() == def && sb.def.spec_max() == def && sb.def.spec_bonus() == 0
    &&& !sb.dead
}

/// The component record of one hostile archetype: the glyph, a zombie
/// behavior tag, the archetype's stats and display identity, and nothing
/// else.
pub open spec fn zombie_archetype(
    cs: ComponentSet,
    d: Display,
    hp: int,
    atk: int,
    def: int,
    name: Seq<char>,
    art: int,
) -> bool {
    &&& cs.basic is Some && cs.basic->Some_0.d == d
    &&& cs.zombie is Some
    &&& cs.player is None
    &&& cs.self_destruct is None
    &&& cs.container is None
    &&& cs.equipment is None
    &&& cs.stats is Some && monster_stats_match(cs.stats->Some_0, hp, atk, def)
    &&& cs.view is Some && cs.view->Some_0.name@ == name && cs.view->Some_0.art == art
}

/// Which archetype a descriptor name resolves to: the component record a
/// spawn under that name must carry.
pub open spec fn archetype_matches(cs: ComponentSet, name: Seq<char>) -> bool {
    ||| (name == "Goblin"@ && zombie_archetype(
        cs,
        Display { glyph: 103, fg: (255, 0, 0), bg: (0, 0, 0) },
        10,
        1,
        0,
        "Goblina"@,
        0,
    ))
    ||| (name == "SFElemental"@ && zombie_archetype(
        cs,
        Display { glyph: 42, fg: (255, 0, 0), bg: (238, 59, 59) },
        15,
        7,
        0,
        "S Fire Elemental"@,
        1,
    ))
    ||| (name == "Spider"@ && zombie_archetype(
        cs,
        Display { glyph: 115, fg: (222, 184, 135), bg: (238, 59, 59) },
        12,
        2,
        0,
        "Spider"@,
        4,
    ))
    ||| (name == "KSpider"@ && zombie_archetype(
        cs,
        Display { glyph: 83, fg: (222, 184, 135), bg: (238, 59, 59) },
        24,
        7,
        0,
        "King Spider"@,
        5,
    ))
    ||| (name == "Crazy Eyes"@ && zombie_archetype(
        cs,
        Display { glyph: 37, fg: (85, 26, 139), bg: (255, 0, 0) },
        22,
        10,
        5,
        "Crazyyyy Eyes"@,
        8,
    ))
    ||| (name == "Tall Dude"@ && zombie_archetype(
        cs,
        Display { glyph: 124, fg: (85, 26, 139), bg: (169, 169, 169) },
        13,
        20,
        1,
        "Tall Dude!"@,
        7,
    ))
    ||| (name == "Rock"@ && zombie_archetype(
        cs,
        Display { glyph: 48, fg: (143, 143, 143), bg: (169, 169, 169) },
        47,
        1,
        1,
        "Dah Rock"@,
        6,
    ))
}

/// What every hostile factory produces: a fresh entity at `pos` with the
/// archetype's glyph, a zombie behavior tag, the archetype's stats and
/// display identity, and nothing else; no other entity or tile is touched.
pub open spec fn spawned_zombie(
    pre: State,
    post: State,
    id: EntityId,
    pos: (i32, i32),
    d: Display,
    hp: int,
    atk: int,
    def: int,
    name: Seq<char>,
    art: int,
) -> bool {
    &&& post.ecs.valid(id)
    &&& !pre.ecs.valid(id)
    &&& !pre.ecs.live(id.idx as int)
    &&& ({
        let cs = post.ecs.comps(id);
        &&& cs.basic == Some(BasicEntity { x: pos.0, y: pos.1, d })
        &&& cs.zombie is Some
        &&& cs.player is None
        &&& cs.self_destruct is None
        &&& cs.container is None
        &&& cs.equipment is None
        &&& cs.stats is Some && monster_stats_match(cs.stats->Some_0, hp, atk, def)
        &&& cs.view is Some && cs.view->Some_0.name@ == name && cs.view->Some_0.art == art
    })
    &&& pre.ecs.num_slots() <= post.ecs.num_slots() <= pre.ecs.num_slots() + 1
    &&& post.ecs.gen_of(id.idx as int) == id.gen
    &&& ((id.idx as int) < pre.ecs.num_slots() ==> id.gen == pre.ecs.gen_of(id.idx as int))
    &&& forall|i: int|
        0 <= i < pre.ecs.num_slots() && i != id.idx as int ==> {
            &&& post.ecs.live(i) == pre.ecs.live(i)
            &&& post.ecs.gen_of(i) == pre.ecs.gen_of(i)
            &&& post.ecs.comps_at(i) == pre.ecs.comps_at(i)
        }
    &&& State::map_same_but_occupants(pre, post)
    &&& post.map_state.occupants@ == pre.map_state.occupants@.update(
        pre.map_state.idx_of(pos.0 as int, pos.1 as int),
        Some(id),
    )
    &&& State::frame_fields_same(pre, post)
}

/// A position-and-glyph component for a factory archetype.
pub fn basic_en(pos: (i32, i32), glyph: u16, fg: (u8, u8, u8), bg: (u8, u8, u8)) -> (r:
    BasicEntity)
    ensures
        r == (BasicEntity { x: pos.0, y: pos.1, d: Display { glyph, fg, bg } }),
{
    BasicEntity { x: pos.0, y: pos.1, d: Display { glyph, fg, bg } }
}

/// Builds and spawns one hostile archetype. Factories share this body; each
/// public factory fixes the archetype's data.
fn create_monster(
    state: &mut State,
    pos: (i32, i32),
    glyph: u16,
    fg: (u8, u8, u8),
    bg: (u8, u8, u8),
    hp: i32,
    atk: i32,
    def: i32,
    name: String,
    art: usize,
) -> (id: EntityId)
    requires
        old(state).wf(),
        old(state).map_state.sp_in_bounds(pos.0 as int, pos.1 as int),
        old(state).map_state.sp_occupant(pos.0 as int, pos.1 as int) is None,
        hp >= 0,
        atk >= 0,
        def >= 0,
    ensures
        final(state).wf(),
        spawned_zombie(
            *old(state),
            *final(state),
            id,
            pos,
            Display { glyph, fg, bg },
            hp as int,
            atk as int,
            def as int,
            name@,
            art as int,
        ),
        final(state).player_id_spec() == old(state).player_id_spec(),
    {
        let ghost pre = *state;
        let entity_component = basic_en(pos, glyph, fg, bg);
        let mut stat_component = StatBlock::default();
        stat_component.hp.set(hp);
        stat_component.atk.set(atk);
        stat_component.def.set(def);
        let mut comps = ComponentSet::empty();
        comps.basic = Some(entity_component);
        comps.zombie = Some(ZombieAI);
        comps.stats = Some(stat_component);
        comps.view = Some(EntityView { name, art });
        let id = state.spawn_bundle(comps);
        proof {
            assert forall|i: int|
                reg_player_at(pre.ecs, i) <==> #[trigger] reg_player_at(state.ecs, i) by {
                if i == id.idx as int {
                    assert(state.ecs.comps_at(i).player is None);
                    assert(!pre.ecs.live(i));
                } else if 0 <= i < pre.ecs.num_slots() {
                    assert(state.ecs.live(i) == pre.ecs.live(i));
                    assert(state.ecs.comps_at(i) == pre.ecs.comps_at(i));
                } else {
                    assert(!pre.ecs.live(i));
                    if state.ecs.num_slots() == pre.ecs.num_slots() + 1 {
                        assert(id.idx as int == pre.ecs.num_slots());
                        assert(i < 0 || i >= state.ecs.num_slots());
                    } else {
                        assert(state.ecs.num_slots() == pre.ecs.num_slots());
                    }
                    assert(!state.ecs.live(i));
                }
            }
            crate::world::lemma_player_id_stable(pre, *state);
        }
        id
    }

/// A "Crazy Eyes" hostile: hp 22, atk 10, def 5.
pub fn create_crazy_eyes(state: &mut State, pos: (i32, i32)) -> (id: EntityId)
    requires
        old(state).wf(),
        old(state).map_state.sp_in_bounds(pos.0 as int, pos.1 as int),
        old(state).map_state.sp_occupant(pos.0 as int, pos.1 as int) is None,
    ensures
        final(state).wf(),
        final(state).player_id_spec() == old(state).player_id_spec(),
        spawned_zombie(
            *old(state),
            *final(state),
            id,
            pos,
            Display { glyph: 37, fg: (85, 26, 139), bg: (255, 0, 0) },
            22,
            10,
            5,
            "Crazyyyy Eyes"@,
            8,
        ),
{
    create_monster(state, pos, 37, (85, 26, 139), (255, 0, 0), 22, 10, 5, "Crazyyyy Eyes".to_owned(), 8)
}

/// A "Tall Dude" hostile: hp 13, atk 20, def 1.
pub fn create_tall_dude(state: &mut State, pos: (i32, i32)) -> (id: EntityId)
    requires
        old(state).wf(),
        old(state).map_state.sp_in_bounds(pos.0 as int, pos.1 as int),
        old(state).map_state.sp_occupant(pos.0 as int, pos.1 as int) is None,
    ensures
        final(state).wf(),
        final(state).player_id_spec() == old(state).player_id_spec(),
        spawned_zombie(
            *old(state),
            *final(state),
            id,
            pos,
            Display { glyph: 124, fg: (85, 26, 139), bg: (169, 169, 169) },
            13,
            20,
            1,
            "Tall Dude!"@,
            7,
        ),
{
    create_monster(
        state,
        pos,
        124,
        (85, 26, 139),
        (169, 169, 169),
        13,
        20,
        1,
        "Tall Dude!".to_owned(),
        7,
    )
}

/// A "Rock" hostile: hp 47, atk 1, def 1.
pub fn create_rock(state: &mut State, pos: (i32, i32)) -> (id: EntityId)
    requires
        old(state).wf(),
        old(state).map_state.sp_in_bounds(pos.0 as int, pos.1 as int),
        old(state).map_state.sp_occupant(pos.0 as int, pos.1 as int) is None,
    ensures
        final(state).wf(),
        final(state).player_id_spec() == old(state).player_id_spec(),
        spawned_zombie(
            *old(state),
            *final(state),
            id,
            pos,
            Display { glyph: 48, fg: (143, 143, 143), bg: (169, 169, 169) },
            47,
            1,
            1,
            "Dah Rock"@,
            6,
        ),
{
    create_monster(
        state,
        pos,
        48,
        (143, 143, 143),
        (169, 169, 169),
        47,
        1,
        1,
        "Dah Rock".to_owned(),
        6,
    )
}

/// A fire-elemental hostile: hp 15, atk 7, no defense.
pub fn create_fire_elemental(state: &mut State, pos: (i32, i32)) -> (id: EntityId)
    requires
        old(state).wf(),
        old(state).map_state.sp_in_bounds(pos.0 as int, pos.1 as int),
        old(state).map_state.sp_occupant(pos.0 as int, pos.1 as int) is None,
    ensures
        final(state).wf(),
        final(state).player_id_spec() == old(state).player_id_spec(),
        spawned_zombie(
            *old(state),
            *final(state),
            id,
            pos,
            Display { glyph: 42, fg: (255, 0, 0), bg: (238, 59, 59) },
            15,
            7,
            0,
            "S Fire Elemental"@,
            1,
        ),
{
    create_monster(
        state,
        pos,
        42,
        (255, 0, 0),
        (238, 59, 59),
        15,
        7,
        0,
        "S Fire Elemental".to_owned(),
        1,
    )
}

/// A king-spider hostile: hp 24, atk 7, no defense.
pub fn create_king_spider(state: &mut State, pos: (i32, i32)) -> (id: EntityId)
    requires
        old(state).wf(),
        old(state).map_state.sp_in_bounds(pos.0 as int, pos.1 as int),
        old(state).map_state.sp_occupant(pos.0 as int, pos.1 as int) is None,
    ensures
        final(state).wf(),
        final(state).player_id_spec() == old(state).player_id_spec(),
        spawned_zombie(
            *old(state),
            *final(state),
            id,
            pos,
            Display { glyph: 83, fg: (222, 184, 135), bg: (238, 59, 59) },
            24,
            7,
            0,
            "King Spider"@,
            5,
        ),
{
    create_monster(
        state,
        pos,
        83,
        (222, 184, 135),
        (238, 59, 59),
        24,
        7,
        0,
        "King Spider".to_owned(),
        5,
    )
}

/// A spider hostile: hp 12, atk 2, no defense.
pub fn create_spider(state: &mut State, pos: (i32, i32)) -> (id: EntityId)
    requires
        old(state).wf(),
        old(state).map_state.sp_in_bounds(pos.0 as int, pos.1 as int),
        old(state).map_state.sp_occupant(pos.0 as int, pos.1 as int) is None,
    ensures
        final(state).wf(),
        final(state).player_id_spec() == old(state).player_id_spec(),
        spawned_zombie(
            *old(state),
            *final(state),
            id,
            pos,
            Display { glyph: 115, fg: (222, 184, 135), bg: (238, 59, 59) },
            12,
            2,
            0,
            "Spider"@,
            4,
        ),
{
    create_monster(
        state,
        pos,
        115,
        (222, 184, 135),
        (238, 59, 59),
        12,
        2,
        0,
        "Spider".to_owned(),
        4,
    )
}

/// A goblin hostile: hp 10, atk 1, no defense.
pub fn create_goblin(state: &mut State, pos: (i32, i32)) -> (id: EntityId)
    requires
        old(state).wf(),
        old(state).map_state.sp_in_bounds(pos.0 as int, pos.1 as int),
        old(state).map_state.sp_occupant(pos.0 as int, pos.1 as int) is None,
    ensures
        final(state).wf(),
        final(state).player_id_spec() == old(state).player_id_spec(),
        spawned_zombie(
            *old(state),
            *final(state),
            id,
            pos,
            Display { glyph: 103, fg: (255, 0, 0), bg: (0, 0, 0) },
            10,
            1,
            0,
            "Goblina"@,
            0,
        ),
{
    create_monster(state, pos, 103, (255, 0, 0), (0, 0, 0), 10, 1, 0, "Goblina".to_owned(), 0)
}

/// Whether `name` names a known archetype.
pub open spec fn known_entity_name(name: Seq<char>) -> bool {
    ||| name == "Goblin"@
    ||| name == "SFElemental"@
    ||| name == "Spider"@
    ||| name == "KSpider"@
    ||| name == "Crazy Eyes"@
    ||| name == "Tall Dude"@
    ||| name == "Rock"@
}

/// Runtime check of `known_entity_name`.
pub fn is_known_entity_name(name: &str) -> (r: bool)
    ensures
        r == known_entity_name(name@),
{
    str_eq(name, "Goblin") || str_eq(name, "SFElemental") || str_eq(name, "Spider") || str_eq(
        name,
        "KSpider",
    ) || str_eq(name, "Crazy Eyes") || str_eq(name, "Tall Dude") || str_eq(name, "Rock")
}

/// Resolves an entity-descriptor name to its factory and spawns the
/// archetype at `pos`. An unresolvable name is a configuration error,
/// rejected explicitly with the state untouched.
pub fn resolve_entity_string(state: &mut State, pos: (i32, i32), str_e: &str) -> (r: Result<
    EntityId,
    FactoryError,
>)
    requires
        old(state).wf(),
        old(state).map_state.sp_in_bounds(pos.0 as int, pos.1 as int),
        old(state).map_state.sp_occupant(pos.0 as int, pos.1 as int) is None,
    ensures
        final(state).wf(),
        final(state).player_id_spec() == old(state).player_id_spec(),
        r is Ok <==> known_entity_name(str_e@),
        r matches Ok(id) ==> final(state).ecs.valid(id) && archetype_matches(
            final(state).ecs.comps(id),
            str_e@,
        ),
        r is Err ==> *final(state) == *old(state) && r == Err::<EntityId, FactoryError>(
            FactoryError::UnknownName,
        ),
        r matches Ok(id) ==> {
            ||| (str_e@ == "Goblin"@ && spawned_zombie(
                *old(state),
                *final(state),
                id,
                pos,
                Display { glyph: 103, fg: (255, 0, 0), bg: (0, 0, 0) },
                10,
                1,
                0,
                "Goblina"@,
                0,
            ))
            ||| (str_e@ == "SFElemental"@ && spawned_zombie(
                *old(state),
                *final(state),
                id,
                pos,
                Display { glyph: 42, fg: (255, 0, 0), bg: (238, 59, 59) },
                15,
                7,
                0,
                "S Fire Elemental"@,
                1,
            ))
            ||| (str_e@ == "Spider"@ && spawned_zombie(
                *old(state),
                *final(state),
                id,
                pos,
                Display { glyph: 115, fg: (222, 184, 135), bg: (238, 59, 59) },
                12,
                2,
                0,
                "Spider"@,
                4,
            ))
            ||| (str_e@ == "KSpider"@ && spawned_zombie(
                *old(state),
                *final(state),
                id,
                pos,
                Display { glyph: 83, fg: (222, 184, 135), bg: (238, 59, 59) },
                24,
                7,
                0,
                "King Spider"@,
                5,
            ))
            ||| (str_e@ == "Crazy Eyes"@ && spawned_zombie(
                *old(state),
                *final(state),
                id,
                pos,
                Display { glyph: 37, fg: (85, 26, 139), bg: (255, 0, 0) },
                22,
                10,
                5,
                "Crazyyyy Eyes"@,
                8,
            ))
            ||| (str_e@ == "Tall Dude"@ && spawned_zombie(
                *old(state),
                *final(state),
                id,
                pos,
                Display { glyph: 124, fg: (85, 26, 139), bg: (169, 169, 169) },
                13,
                20,
                1,
                "Tall Dude!"@,
                7,
            ))
            ||| (str_e@ == "Rock"@ && spawned_zombie(
                *old(state),
                *final(state),
                id,
                pos,
                Display { glyph: 48, fg: (143, 143, 143), bg: (169, 169, 169) },
                47,
                1,
                1,
                "Dah Rock"@,
                6,
            ))
        },
{
    if str_eq(str_e, "Goblin") {
        Ok(create_goblin(state, pos))
    } else if str_eq(str_e, "SFElemental") {
        Ok(create_fire_elemental(state, pos))
    } else if str_eq(str_e, "Spider") {
        Ok(create_spider(state, pos))
    } else if str_eq(str_e, "KSpider") {
        Ok(create_king_spider(state, pos))
    } else if str_eq(str_e, "Crazy Eyes") {
        Ok(create_crazy_eyes(state, pos))
    } else if str_eq(str_e, "Tall Dude") {
        Ok(create_tall_dude(state, pos))
    } else if str_eq(str_e, "Rock") {
        Ok(create_rock(state, pos))
    } else {
        Err(FactoryError::UnknownName)
    }
}

} // verus!
