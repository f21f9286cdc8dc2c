//! Session assembly, movement, the spatial index, the turn behaviors, the
//! death sweep, deferred destruction and the portal transition, exercised
//! on concrete scenarios.

use rogue_core::components::SelfDestructAI;
use rogue_core::components::ZombieAI;
use rogue_core::display::{Display, MEEntity, MapDescriptor, TileType};
use rogue_core::entities::{create_fire_elemental, create_goblin, resolve_entity_string};
use rogue_core::input::GameKey;
use rogue_core::items::{EffectChain, InventoryUI};
use rogue_core::registry::{ComponentSet, EcsError};
use rogue_core::stats::{EntityStat, StatBlock};
use rogue_core::world::{State, WorldError};

fn floor_tile() -> TileType {
    TileType::Floor(Display { glyph: 46, fg: (255, 255, 255), bg: (0, 0, 0) })
}

fn wall_tile() -> TileType {
    TileType::Wall(Display { glyph: 94, fg: (0, 255, 0), bg: (0, 0, 0) })
}

fn flat_map(width: i32, height: i32) -> MapDescriptor {
    let n = (width * height) as usize;
    let mut tiles = Vec::new();
    let mut entities = Vec::new();
    for _ in 0..n {
        tiles.push(floor_tile());
        entities.push(None);
    }
    MapDescriptor { width, height, tiles, entities }
}

fn default_player_stats() -> StatBlock {
    StatBlock {
        hp: EntityStat::new("Hit Points", 10),
        def: EntityStat::new("Defense", 3),
        atk: EntityStat::new("Attack", 5),
        dead: false,
    }
}

fn fresh_session() -> State {
    State::new(flat_map(8, 8), default_player_stats()).unwrap()
}

#[test]
fn session_starts_with_player_at_origin_tile() {
    let st = fresh_session();
    let pid = st.get_player_id();
    let plr = st.get_player();
    assert_eq!((plr.get_x(), plr.get_y()), (1, 1));
    assert_eq!(st.map_state.lookup((1, 1)), Some(pid));
    let sb = st.get_player_stat_block();
    assert_eq!(sb.hp.get_total(), 10);
    assert_eq!(sb.def.get_total(), 3);
    assert_eq!(sb.atk.get_total(), 5);
}

#[test]
fn session_rejects_malformed_descriptor() {
    let mut md = flat_map(4, 4);
    md.tiles.pop();
    match State::new(md, default_player_stats()) {
        Err(WorldError::BadDescriptor) => {},
        _ => panic!("malformed descriptor accepted"),
    }
}

#[test]
fn session_rejects_blocked_start() {
    let mut md = flat_map(4, 4);
    let idx = (1 * 4 + 1) as usize;
    md.entities[idx] = Some(MEEntity {
        d: Display { glyph: 103, fg: (255, 0, 0), bg: (0, 0, 0) },
        name: "Goblin".to_owned(),
    });
    match State::new(md, default_player_stats()) {
        Err(WorldError::DestinationBlocked) => {},
        _ => panic!("blocked start accepted"),
    }
}

#[test]
fn session_rejects_unknown_descriptor_name() {
    let mut md = flat_map(4, 4);
    md.entities[(2 * 4 + 2) as usize] = Some(MEEntity {
        d: Display { glyph: 63, fg: (0, 0, 0), bg: (255, 0, 0) },
        name: "Gremlin".to_owned(),
    });
    match State::new(md, default_player_stats()) {
        Err(WorldError::UnknownEntityName) => {},
        _ => panic!("unknown name accepted"),
    }
}

#[test]
fn session_rejects_ill_formed_stats() {
    let mut sb = default_player_stats();
    sb.hp.set_max(-5);
    match State::new(flat_map(4, 4), sb) {
        Err(WorldError::BadStats) => {},
        _ => panic!("ill-formed stats accepted"),
    }
}

#[test]
fn descriptor_entities_are_instantiated() {
    let mut md = flat_map(6, 6);
    md.entities[(3 * 6 + 4) as usize] = Some(MEEntity {
        d: Display { glyph: 103, fg: (255, 0, 0), bg: (0, 0, 0) },
        name: "Goblin".to_owned(),
    });
    let st = State::new(md, default_player_stats()).unwrap();
    let gid = st.map_state.lookup((4, 3)).expect("descriptor cell left empty");
    let gb = st.get_basic(gid).unwrap();
    assert_eq!((gb.get_x(), gb.get_y()), (4, 3));
    let gs = st.get_stats(gid).unwrap();
    assert_eq!(gs.hp.get_total(), 10);
    assert_eq!(gs.atk.get_total(), 1);
}

#[test]
fn movement_keeps_the_spatial_index_in_sync() {
    let mut st = fresh_session();
    let pid = st.get_player_id();
    let deltas = st.move_entity_by(pid, 1, 0);
    assert_eq!(deltas, (1, 0));
    assert_eq!(st.map_state.lookup((1, 1)), None);
    assert_eq!(st.map_state.lookup((2, 1)), Some(pid));
    let plr = st.get_player();
    assert_eq!(st.map_state.lookup((plr.get_x(), plr.get_y())), Some(pid));
}

#[test]
fn movement_is_blocked_by_walls() {
    let mut st = fresh_session();
    st.set_tile(2, 1, wall_tile());
    let pid = st.get_player_id();
    let deltas = st.move_entity_by(pid, 1, 0);
    assert_eq!(deltas, (0, 0));
    assert_eq!(st.map_state.lookup((1, 1)), Some(pid));
}

#[test]
fn movement_is_blocked_by_an_occupant() {
    let mut st = fresh_session();
    let gid = create_goblin(&mut st, (2, 1));
    let pid = st.get_player_id();
    let deltas = st.move_entity_by(pid, 1, 0);
    assert_eq!(deltas, (0, 0));
    assert_eq!(st.map_state.lookup((2, 1)), Some(gid));
    assert_eq!(st.map_state.lookup((1, 1)), Some(pid));
}

#[test]
fn movement_is_blocked_at_the_map_edge() {
    let mut st = fresh_session();
    let pid = st.get_player_id();
    let deltas = st.move_entity_by(pid, -5, 0);
    assert_eq!(deltas, (0, 0));
    assert_eq!(st.map_state.lookup((1, 1)), Some(pid));
}

#[test]
fn stale_handles_never_resolve_after_despawn() {
    let mut st = fresh_session();
    let gid = create_goblin(&mut st, (3, 3));
    assert!(st.ecs.is_valid(gid));
    st.dispose_slot(gid);
    assert!(!st.ecs.is_valid(gid));
    assert_eq!(st.map_state.lookup((3, 3)), None);
    // The freed slot is reused, but under a new generation: the old handle
    // stays dead.
    let sid = create_fire_elemental(&mut st, (3, 3));
    assert_eq!(sid.idx, gid.idx);
    assert_ne!(sid.gen, gid.gen);
    assert!(st.ecs.is_valid(sid));
    assert!(!st.ecs.is_valid(gid));
    assert_eq!(st.get_stats(gid).unwrap_err(), EcsError::UnknownEntity);
}

#[test]
fn double_despawn_is_an_error() {
    let mut st = fresh_session();
    let gid = create_goblin(&mut st, (3, 3));
    st.remove_entity(gid);
    assert_eq!(st.ecs.despawn(gid), Err(EcsError::UnknownEntity));
}

#[test]
fn adjacent_hostile_hits_the_player_for_four() {
    // A hostile with atk 7 adjacent to a player with def 3 and hp 10 leaves
    // the player at exactly 6 hit points after one turn.
    let mut st = fresh_session();
    let zid = create_fire_elemental(&mut st, (2, 1));
    ZombieAI::act(&mut st, zid, 0);
    assert_eq!(st.get_player_stat_block().hp.get_total(), 6);
    // Whatever the staggering roll, adjacency always means an attack.
    ZombieAI::act(&mut st, zid, 99);
    assert_eq!(st.get_player_stat_block().hp.get_total(), 2);
}

#[test]
fn distant_hostile_stays_put() {
    let mut st = fresh_session();
    let zid = create_goblin(&mut st, (7, 7));
    ZombieAI::act(&mut st, zid, 0);
    let gb = st.get_basic(zid).unwrap();
    assert_eq!((gb.get_x(), gb.get_y()), (7, 7));
    assert_eq!(st.get_player_stat_block().hp.get_total(), 10);
}

#[test]
fn pursuing_hostile_steps_toward_the_player() {
    let mut st = fresh_session();
    let zid = create_goblin(&mut st, (4, 4));
    ZombieAI::act(&mut st, zid, 0);
    let gb = st.get_basic(zid).unwrap();
    assert_eq!((gb.get_x(), gb.get_y()), (3, 3));
    assert_eq!(st.map_state.lookup((3, 3)), Some(zid));
    assert_eq!(st.map_state.lookup((4, 4)), None);
    // A roll at or above the move chance skips the step.
    ZombieAI::act(&mut st, zid, 95);
    let gb2 = st.get_basic(zid).unwrap();
    assert_eq!((gb2.get_x(), gb2.get_y()), (3, 3));
}

#[test]
fn dead_hostile_skips_its_turn() {
    let mut st = fresh_session();
    let zid = create_fire_elemental(&mut st, (2, 1));
    EffectChain::DamageTarget(None, 100).handle_chain_target(None, Some(zid), &mut st);
    st.death_sweep();
    assert!(st.get_stats(zid).unwrap().dead);
    ZombieAI::act(&mut st, zid, 0);
    assert_eq!(st.get_player_stat_block().hp.get_total(), 10);
}

#[test]
fn death_sweep_marks_corpse_and_attaches_countdown() {
    let mut st = fresh_session();
    let gid = create_goblin(&mut st, (5, 5));
    EffectChain::DamageTarget(None, 100).handle_chain_target(None, Some(gid), &mut st);
    assert!(!st.get_stats(gid).unwrap().dead);
    st.death_sweep();
    let gs = st.get_stats(gid).unwrap();
    assert!(gs.dead);
    assert!(gs.hp.get_total() <= 0);
    let gb = st.get_basic(gid).unwrap();
    assert_eq!(gb.get_display(), Display { glyph: 37, fg: (255, 0, 0), bg: (0, 0, 0) });
    assert_eq!(st.ecs.get_self_destruct(gid).unwrap().turns_left, 10);
    // The transition fires at most once: a second sweep changes nothing.
    st.death_sweep();
    assert_eq!(st.ecs.get_self_destruct(gid).unwrap().turns_left, 10);
    assert!(st.get_stats(gid).unwrap().dead);
}

#[test]
fn expired_countdown_queues_and_deferred_sweep_despawns() {
    // A countdown starting at zero goes negative on its first turn,
    // requesting deletion; the deferred sweep then makes the handle
    // unresolvable.
    let mut st = fresh_session();
    let mut comps = ComponentSet::empty();
    comps.basic = Some(rogue_core::components::BasicEntity {
        x: 5,
        y: 5,
        d: Display { glyph: 37, fg: (255, 0, 0), bg: (0, 0, 0) },
    });
    comps.self_destruct = Some(SelfDestructAI { turns_left: 0 });
    let cid = st.spawn_bundle(comps);
    SelfDestructAI::on_turn(&mut st, cid);
    assert_eq!(st.ecs.get_self_destruct(cid).unwrap().turns_left, -1);
    assert!(st.ecs.is_valid(cid));
    st.process_destruction_queue();
    assert!(!st.ecs.is_valid(cid));
    assert_eq!(st.map_state.lookup((5, 5)), None);
}

#[test]
fn countdown_above_zero_only_ticks() {
    let mut st = fresh_session();
    let mut comps = ComponentSet::empty();
    comps.self_destruct = Some(SelfDestructAI { turns_left: 2 });
    let cid = st.spawn_bundle(comps);
    SelfDestructAI::on_turn(&mut st, cid);
    assert_eq!(st.ecs.get_self_destruct(cid).unwrap().turns_left, 1);
    st.process_destruction_queue();
    assert!(st.ecs.is_valid(cid));
}

#[test]
fn full_turn_keeps_the_player_alive_and_flushes_the_queue() {
    let mut st = fresh_session();
    create_goblin(&mut st, (4, 4));
    create_fire_elemental(&mut st, (2, 1));
    for _ in 0..5 {
        st.on_turn();
    }
    let pid = st.get_player_id();
    assert!(st.ecs.is_valid(pid));
}

#[test]
fn despawn_during_a_turn_is_skipped_softly() {
    // Despawning a snapshotted hostile mid-turn must not disturb the rest
    // of the iteration: the stale handle fails soft.
    let mut st = fresh_session();
    let zid = create_goblin(&mut st, (4, 4));
    st.dispose_slot(zid);
    ZombieAI::act(&mut st, zid, 0);
    assert_eq!(st.get_player_stat_block().hp.get_total(), 10);
    st.on_turn();
    assert!(st.ecs.is_valid(st.get_player_id()));
}

#[test]
fn portal_round_trip_lands_on_the_destination_map() {
    let mut md = flat_map(8, 8);
    md.tiles[(1 * 8 + 2) as usize] =
        TileType::Portal(Display { glyph: 79, fg: (255, 255, 255), bg: (0, 0, 0) }, 1, 3, 2);
    let mut st = State::new(md, default_player_stats()).unwrap();
    let goblin = create_goblin(&mut st, (6, 6));
    assert!(st.take_pending_destination().is_none());

    st.move_player_by(1, 0);
    let pending = st.take_pending_destination();
    assert_eq!(pending, Some((1, 3, 2)));

    let dest = flat_map(9, 7);
    st.load_map_by_destination(1, dest, 3, 2).unwrap();
    assert_eq!(st.map_width(), 9);
    assert_eq!(st.map_height(), 7);
    assert_eq!(st.map_state.current_map, 1);
    let plr = st.get_player();
    assert_eq!((plr.get_x(), plr.get_y()), (3, 2));
    assert_eq!(st.map_state.lookup((3, 2)), Some(st.get_player_id()));
    // Every pre-transition non-player entity is gone.
    assert!(!st.ecs.is_valid(goblin));
    assert_eq!(st.camera.get_x(), 3);
    assert_eq!(st.camera.get_y(), 2);
}

#[test]
fn transition_rejects_a_bad_destination_index() {
    let mut st = fresh_session();
    match st.load_map_by_destination(9, flat_map(4, 4), 1, 1) {
        Err(WorldError::UnknownDestination) => {},
        _ => panic!("out-of-table destination accepted"),
    }
    match st.load_map_by_destination(1, flat_map(4, 4), 9, 9) {
        Err(WorldError::DestinationOutOfBounds) => {},
        _ => panic!("out-of-bounds landing accepted"),
    }
}

#[test]
fn resolver_spawns_known_names_and_rejects_others() {
    let mut st = fresh_session();
    let spider = resolve_entity_string(&mut st, (5, 2), "Spider").unwrap();
    let ss = st.get_stats(spider).unwrap();
    assert_eq!(ss.hp.get_total(), 12);
    assert_eq!(ss.atk.get_total(), 2);
    let view = st.ecs.get_view(spider).unwrap();
    assert_eq!(view.name, "Spider");
    assert_eq!(view.art, 4);
    assert!(resolve_entity_string(&mut st, (5, 3), "Ghoul").is_err());
    assert_eq!(st.map_state.lookup((5, 3)), None);
}

#[test]
fn item_slot_key_opens_the_directional_prompt() {
    let mut st = fresh_session();
    let mut do_tick = true;
    st.handle_movement_input(GameKey::ItemSlot(0), &mut do_tick);
    assert!(!do_tick);
    assert!(st.waiting_for_directional_input);
    assert_eq!(st.directional_callback, Some(0));
    let mut do_tick2 = true;
    st.handle_movement_input(GameKey::Other, &mut do_tick2);
    assert!(!do_tick2);
}

#[test]
fn directional_prompt_dispatches_the_equipped_effect() {
    let mut st = fresh_session();
    let gid = create_goblin(&mut st, (2, 1));
    let pid = st.get_player_id();
    // Bind the starter sword (item 0 of the container) to prompt slot 0.
    let mut ui = InventoryUI { container_id: pid, pending_item: None };
    ui.equip_item(&mut st, 0, 0);
    let mut do_tick = true;
    st.handle_movement_input(GameKey::ItemSlot(0), &mut do_tick);
    let consumed = st.handle_directional_input(GameKey::Direction(1, 0));
    assert!(consumed);
    assert!(st.directional_callback.is_none());
    // The sword deals 5 straight to hit points: goblin hp 10 -> 5.
    assert_eq!(st.get_stats(gid).unwrap().hp.get_total(), 5);
}

#[test]
fn directional_prompt_ignores_input_when_idle() {
    let mut st = fresh_session();
    let consumed = st.handle_directional_input(GameKey::Direction(1, 0));
    assert!(!consumed);
    assert_eq!(st.get_player_stat_block().hp.get_total(), 10);
}

#[test]
fn inventory_selection_remembers_and_toggles_bindings() {
    let mut st = fresh_session();
    let pid = st.get_player_id();
    let mut ui = InventoryUI { container_id: pid, pending_item: None };
    ui.select_item(&mut st, 0);
    assert_eq!(ui.pending_item, Some(0));
    // Binding then unbinding the same pair.
    ui.equip_item(&mut st, 0, 1);
    let eq = st.ecs.get_equipment(pid).unwrap();
    assert_eq!(eq.equips[1], Some(0));
    ui.equip_item(&mut st, 0, 1);
    let eq2 = st.ecs.get_equipment(pid).unwrap();
    assert_eq!(eq2.equips[1], None);
    // An index beyond the table is ignored.
    ui.equip_item(&mut st, 0, 7);
    let eq3 = st.ecs.get_equipment(pid).unwrap();
    assert_eq!(eq3.equips.len(), 3);
}

#[test]
fn player_turn_regenerates_on_a_low_roll_only() {
    let mut st = fresh_session();
    let pid = st.get_player_id();
    let mut hurt = st.get_player_stat_block();
    hurt.take_damage(7);
    st.set_stats(pid, hurt);
    assert_eq!(st.get_player_stat_block().hp.get_total(), 6);
    rogue_core::components::PlayerAI::act(&mut st, pid, 29);
    assert_eq!(st.get_player_stat_block().hp.get_total(), 7);
    rogue_core::components::PlayerAI::act(&mut st, pid, 30);
    assert_eq!(st.get_player_stat_block().hp.get_total(), 7);
    // Regeneration never exceeds the maximum.
    for _ in 0..20 {
        rogue_core::components::PlayerAI::act(&mut st, pid, 0);
    }
    assert_eq!(st.get_player_stat_block().hp.get_total(), 10);
}

#[test]
fn component_lookups_distinguish_their_failures() {
    let mut st = fresh_session();
    // A marker-only entity: live, but without stats or equipment.
    let bare = st.spawn_bundle(ComponentSet::empty());
    assert_eq!(st.get_stats(bare).unwrap_err(), EcsError::MissingComponent);
    assert_eq!(st.ecs.get_equipment(bare).unwrap_err(), EcsError::MissingComponent);
    st.remove_entity(bare);
    assert_eq!(st.get_stats(bare).unwrap_err(), EcsError::UnknownEntity);
}

#[test]
fn full_turn_settles_deaths_and_ticks_countdowns() {
    let mut st = fresh_session();
    let gid = create_goblin(&mut st, (5, 5));
    EffectChain::DamageTarget(None, 100).handle_chain_target(None, Some(gid), &mut st);
    let mut comps = ComponentSet::empty();
    comps.self_destruct = Some(SelfDestructAI { turns_left: 3 });
    let cid = st.spawn_bundle(comps);
    st.on_turn();
    // The felled goblin left the step through the death transition...
    assert!(st.get_stats(gid).unwrap().dead);
    assert_eq!(st.ecs.get_self_destruct(gid).unwrap().turns_left, 10);
    // ...the countdown ticked exactly once, and the queue is flushed.
    assert_eq!(st.ecs.get_self_destruct(cid).unwrap().turns_left, 2);
    assert_eq!(st.queued_destruction.len(), 0);
}
