//! Stat model, item and utility behavior, checked on concrete values.

use rogue_core::clamp;
use rogue_core::display::Display;
use rogue_core::items::{enumerate_key_displays, Container, EffectChain, Equipment, Item};
use rogue_core::stats::{EntityStat, StatBlock};
use rogue_core::str_eq;

fn fresh_block(hp: i32, atk: i32, def: i32) -> StatBlock {
    StatBlock {
        hp: EntityStat::new("Hit Points", hp),
        atk: EntityStat::new("Attack", atk),
        def: EntityStat::new("Defense", def),
        dead: false,
    }
}

#[test]
fn clamp_picks_the_nearest_bound() {
    assert_eq!(clamp(5, 0, 10), 5);
    assert_eq!(clamp(-3, 0, 10), 0);
    assert_eq!(clamp(42, 0, 10), 10);
    assert_eq!(clamp(0, 0, 0), 0);
}

#[test]
fn str_eq_compares_text() {
    assert!(str_eq("Goblin", "Goblin"));
    assert!(!str_eq("Goblin", "goblin"));
    assert!(!str_eq("Goblin", "Gobli"));
    assert!(str_eq("", ""));
}

#[test]
fn stat_increment_caps_at_max() {
    let mut s = EntityStat::new("Hit Points", 10);
    s.decrement(3);
    assert_eq!(s.get_base(), 7);
    s.increment(1);
    assert_eq!(s.get_base(), 8);
    s.increment(100);
    assert_eq!(s.get_base(), 10);
    assert_eq!(s.get_max(), 10);
}

#[test]
fn stat_decrement_floors_at_minus_bonus() {
    let mut s = EntityStat::new("Hit Points", 10);
    s.decrement(100);
    assert_eq!(s.get_base(), 0);
    assert_eq!(s.get_total(), 0);
}

#[test]
fn stat_random_walk_stays_clamped() {
    // An arbitrary mix of raises and non-negative lowerings never leaves
    // [-bonus, max] = [0, 12].
    let mut s = EntityStat::new("Hit Points", 12);
    let deltas: [(bool, i32); 10] = [
        (true, 5),
        (false, 3),
        (true, 100),
        (false, 0),
        (false, 7),
        (true, 2),
        (false, 50),
        (true, 1),
        (true, 30),
        (false, 12),
    ];
    for (raise, amount) in deltas.iter() {
        if *raise {
            s.increment(*amount);
        } else {
            s.decrement(*amount);
        }
        assert!(s.get_base() >= 0);
        assert!(s.get_base() <= 12);
    }
}

#[test]
fn stat_set_resets_base_and_max() {
    let mut s = EntityStat::new("Attack", 1);
    s.set(7);
    assert_eq!(s.get_base(), 7);
    assert_eq!(s.get_max(), 7);
    s.set_max(9);
    assert_eq!(s.get_max(), 9);
    assert_eq!(s.get_base(), 7);
}

#[test]
fn take_damage_subtracts_through_defense() {
    let mut sb = fresh_block(10, 5, 3);
    let died = sb.take_damage(7);
    assert!(!died);
    assert_eq!(sb.hp.get_total(), 6);
}

#[test]
fn take_damage_is_blocked_by_high_defense() {
    let mut sb = fresh_block(10, 5, 3);
    let died = sb.take_damage(2);
    assert!(!died);
    assert_eq!(sb.hp.get_total(), 10);
}

#[test]
fn death_transition_fires_exactly_once() {
    let mut sb = fresh_block(4, 5, 0);
    let died = sb.take_damage(10);
    assert!(died);
    assert!(sb.dead);
    // Re-damaging a corpse applies numerically but never re-fires the
    // transition, and never clears the flag.
    let died_again = sb.take_damage(10);
    assert!(!died_again);
    assert!(sb.dead);
}

#[test]
fn default_stat_block_is_zeroed() {
    let sb = StatBlock::default();
    assert_eq!(sb.hp.get_total(), 0);
    assert_eq!(sb.atk.get_total(), 0);
    assert_eq!(sb.def.get_total(), 0);
    assert!(!sb.dead);
}

#[test]
fn stat_block_well_formed_check() {
    assert!(fresh_block(10, 5, 3).is_well_formed());
    let mut bad = fresh_block(10, 5, 3);
    bad.hp.set_max(-1);
    assert!(!bad.is_well_formed());
}

#[test]
fn container_rejects_items_beyond_capacity() {
    let mut c = Container { items: Vec::new(), max_items: 1 };
    let sword = Item { name: "Rusty Sword".to_owned(), art: 0, effect_chain: None };
    let dagger = Item { name: "Dagger".to_owned(), art: 1, effect_chain: None };
    assert!(c.try_add_item(sword).is_none());
    let rejected = c.try_add_item(dagger);
    assert!(rejected.is_some());
    assert_eq!(rejected.unwrap().name, "Dagger");
    assert_eq!(c.items.len(), 1);
}

#[test]
fn equipment_starts_with_three_empty_slots() {
    let eq = Equipment::new();
    assert_eq!(eq.equips.len(), 3);
    assert_eq!(eq.max_equips, 3);
    assert!(eq.equips.iter().all(|s| s.is_none()));
}

#[test]
fn effect_chain_clone_preserves_structure() {
    let chain = EffectChain::DamageTarget(
        Some(Box::new(EffectChain::HealUser(None, 2))),
        5,
    );
    let copy = chain.clone();
    match copy {
        EffectChain::DamageTarget(inner, amt) => {
            assert_eq!(amt, 5);
            match *inner.unwrap() {
                EffectChain::HealUser(None, 2) => {},
                _ => panic!("inner effect not preserved"),
            }
        },
        _ => panic!("variant not preserved"),
    }
}

#[test]
fn key_display_table_lists_the_32_labels() {
    let keys = enumerate_key_displays();
    assert_eq!(keys.len(), 32);
    assert_eq!(keys[0], '1');
    assert_eq!(keys[9], '0');
    assert_eq!(keys[10], 'a');
    assert_eq!(keys[31], 'v');
}

#[test]
fn displays_compare_by_fields() {
    let a = Display { glyph: 64, fg: (255, 255, 0), bg: (0, 0, 0) };
    let b = Display { glyph: 64, fg: (255, 255, 0), bg: (0, 0, 0) };
    let c = Display { glyph: 64, fg: (255, 255, 0), bg: (1, 0, 0) };
    assert_eq!(a, b);
    assert_ne!(a, c);
}
