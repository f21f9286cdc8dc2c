//! Stat/combat model: named numeric attributes with `base + bonus + max`
//! semantics, grouped into a `StatBlock` with an irreversible `dead` flag.

use vstd::prelude::*;

verus! {

/// Result of raising `base` by `amount`: clamped below at `-bonus`, then
/// capped above at `max` (in that order, so a degenerate range where
/// `-bonus > max` resolves to `max`).
pub open spec fn stat_inc_result(base: int, bonus: int, max: int, amount: int) -> int {
    let raised = if base + amount < -bonus {
        -bonus
    } else {
        base + amount
    };
    if raised > max {
        max
    } else {
        raised
    }
}

/// Result of lowering `base` by `amount`: floored at `-bonus`, with no upper
/// cap.
pub open spec fn stat_dec_result(base: int, bonus: int, amount: int) -> int {
    if base - amount < -bonus {
        -bonus
    } else {
        base - amount
    }
}

/// Damage that gets through a defense total: `max(0, atk - def_total)`.
pub open spec fn effective_damage(atk: int, def_total: int) -> int {
    if atk - def_total < 0 {
        0
    } else {
        atk - def_total
    }
}

/// A single named numeric attribute. The effective value is `base + bonus`;
/// `increment` clamps `base` into `[-bonus, max]` and `decrement` floors it
/// at `-bonus`.
#[derive(Clone, Copy, Debug)]
pub struct EntityStat {
    pub name: &'static str,
    pub base: i32,
    pub bonus: i32,
    pub max: i32,
}

impl EntityStat {
    pub open spec fn spec_base(self) -> int {
        self.base as int
    }

    pub open spec fn spec_bonus(self) -> int {
        self.bonus as int
    }

    pub open spec fn spec_max(self) -> int {
        self.max as int
    }

    /// The effective value of the stat.
    pub open spec fn spec_total(self) -> int {
        self.base + self.bonus
    }

    pub open spec fn spec_name(self) -> Seq<char> {
        self.name@
    }

    /// Well-formedness: `base` sits in the clamping range `[-bonus, max]`,
    /// the floor `-bonus` is representable, and the largest reachable total
    /// fits in an `i32`.
    pub open spec fn inv(self) -> bool {
        &&& self.bonus > i32::MIN
        &&& -self.spec_bonus() <= self.spec_base() <= self.spec_max()
        &&& self.spec_max() + self.spec_bonus() <= i32::MAX
    }

    /// A fresh stat starts with `base` and `max` both at `start` and no
    /// bonus.
    pub fn new(name: &'static str, start: i32) -> (r: Self)
        ensures
            r.spec_name() == name@,
            r.spec_base() == start as int,
            r.spec_bonus() == 0,
            r.spec_max() == start as int,
            start >= 0 ==> r.inv(),
    {
        EntityStat { name, base: start, bonus: 0, max: start }
    }

    /// Raises `base` by `amount`, clamped into `[-bonus, max]`.
    pub fn increment(&mut self, amount: i32)
        ensures
            final(self).spec_base() == stat_inc_result(
                old(self).spec_base(),
                old(self).spec_bonus(),
                old(self).spec_max(),
                amount as int,
            ),
            final(self).spec_bonus() == old(self).spec_bonus(),
            final(self).spec_max() == old(self).spec_max(),
            final(self).name == old(self).name,
            old(self).inv() ==> final(self).inv(),
    {
        let raised: i64 = self.base as i64 + amount as i64;
        let floor: i64 = -(self.bonus as i64);
        let mut v: i64 = if raised < floor { floor } else { raised };
        if v > self.max as i64 {
            v = self.max as i64;
        }
        self.base = v as i32;
    }

    /// Lowers `base` by `amount`, floored at `-bonus`. The preconditions are
    /// machine limits only: the floor and the un-floored result must be
    /// representable.
    pub fn decrement(&mut self, amount: i32)
        requires
            -old(self).spec_bonus() <= i32::MAX,
            old(self).spec_base() - amount <= i32::MAX,
        ensures
            final(self).spec_base() == stat_dec_result(
                old(self).spec_base(),
                old(self).spec_bonus(),
                amount as int,
            ),
            final(self).spec_bonus() == old(self).spec_bonus(),
            final(self).spec_max() == old(self).spec_max(),
            final(self).name == old(self).name,
            old(self).inv() && amount >= 0 ==> final(self).inv(),
    {
        let lowered: i64 = self.base as i64 - amount as i64;
        let floor: i64 = -(self.bonus as i64);
        let v: i64 = if lowered < floor { floor } else { lowered };
        self.base = v as i32;
    }

    /// The effective value `base + bonus`. The precondition is a machine
    /// limit: the sum must fit in an `i32` (always true for a well-formed
    /// stat).
    pub fn get_total(&self) -> (r: i32)
        requires
            i32::MIN <= self.spec_total() <= i32::MAX,
        ensures
            r as int == self.spec_total(),
    {
        self.base + self.bonus
    }

    pub fn get_base(&self) -> (r: i32)
        ensures
            r as int == self.spec_base(),
    {
        self.base
    }

    pub fn get_max(&self) -> (r: i32)
        ensures
            r as int == self.spec_max(),
    {
        self.max
    }

    pub fn set_max(&mut self, max: i32)
        ensures
            final(self).spec_max() == max as int,
            final(self).spec_base() == old(self).spec_base(),
            final(self).spec_bonus() == old(self).spec_bonus(),
            final(self).name == old(self).name,
    {
        self.max = max;
    }

    /// Runtime check of the well-formedness invariant, for values arriving
    /// from outside (a loaded save).
    pub fn is_well_formed(&self) -> (r: bool)
        ensures
            r == self.inv(),
    {
        self.bonus > i32::MIN && -(self.bonus as i64) <= self.base as i64 && self.base <= self.max
            && self.max as i64 + self.bonus as i64 <= i32::MAX as i64
    }

    /// Resets both `base` and `max` to `arg`.
    pub fn set(&mut self, arg: i32)
        ensures
            final(self).spec_base() == arg as int,
            final(self).spec_max() == arg as int,
            final(self).spec_bonus() == old(self).spec_bonus(),
            final(self).name == old(self).name,
            old(self).spec_bonus() == 0 && arg >= 0 ==> final(self).inv(),
    {
        self.base = arg;
        self.max = arg;
    }
}

/// The stat block after `take_damage(damage)`: hit points lowered by the
/// effective damage, the `dead` flag latched once the hit-point total is
/// zero or below.
pub open spec fn spec_damaged(sb: StatBlock, damage: int) -> StatBlock {
    let eff = effective_damage(damage, sb.def.spec_total());
    let nb = stat_dec_result(sb.hp.spec_base(), sb.hp.spec_bonus(), eff);
    StatBlock {
        hp: EntityStat { base: nb as i32, ..sb.hp },
        dead: sb.dead || nb + sb.hp.spec_bonus() <= 0,
        ..sb
    }
}

/// The stat block after one point of hit-point regeneration.
pub open spec fn spec_regen(sb: StatBlock) -> StatBlock {
    let nb = stat_inc_result(sb.hp.spec_base(), sb.hp.spec_bonus(), sb.hp.spec_max(), 1);
    StatBlock { hp: EntityStat { base: nb as i32, ..sb.hp }, ..sb }
}

/// The stats carried by an entity that takes part in combat, plus the
/// irreversible `dead` flag.
#[derive(Clone, Copy, Debug)]
pub struct StatBlock {
    pub def: EntityStat,
    pub atk: EntityStat,
    pub hp: EntityStat,
    pub dead: bool,
}

impl StatBlock {
    /// Well-formedness: all three stats are well-formed.
    pub open spec fn inv(self) -> bool {
        self.def.inv() && self.atk.inv() && self.hp.inv()
    }

    /// Runtime check of the well-formedness invariant, for values arriving
    /// from outside (a loaded save).
    pub fn is_well_formed(&self) -> (r: bool)
        ensures
            r == self.inv(),
    {
        self.def.is_well_formed() && self.atk.is_well_formed() && self.hp.is_well_formed()
    }

    /// Applies incoming damage: hit points drop by exactly
    /// `max(0, damage - total defense)` (floored at `-bonus`), and the block
    /// transitions to `dead` the first time the hit-point total reaches zero
    /// or below. Returns whether that transition happened in this call.
    /// Damage is still applied to an already-dead block, but the transition
    /// fires at most once.
    pub fn take_damage(&mut self, damage: i32) -> (died: bool)
        requires
            old(self).inv(),
        ensures
            final(self).inv(),
            final(self).hp.spec_base() == stat_dec_result(
                old(self).hp.spec_base(),
                old(self).hp.spec_bonus(),
                effective_damage(damage as int, old(self).def.spec_total()),
            ),
            final(self).hp.spec_bonus() == old(self).hp.spec_bonus(),
            final(self).hp.spec_max() == old(self).hp.spec_max(),
            final(self).hp.name == old(self).hp.name,
            final(self).atk == old(self).atk,
            final(self).def == old(self).def,
            final(self).dead == (old(self).dead || final(self).hp.spec_total() <= 0),
            died == (!old(self).dead && final(self).hp.spec_total() <= 0),
            *final(self) == spec_damaged(*old(self), damage as int),
    {
        let def_total = self.def.get_total();
        let eff64: i64 = damage as i64 - def_total as i64;
        let eff: i32 = if eff64 < 0 { 0 } else { eff64 as i32 };
        self.hp.decrement(eff);

        if self.hp.get_total() <= 0 && !self.dead {
            self.dead = true;
            return true;
        }
        false
    }
}

impl Default for StatBlock {
    /// All three stats at zero, not dead.
    fn default() -> (r: Self)
        ensures
            r.atk.spec_name() == "Attack"@,
            r.def.spec_name() == "Defense"@,
            r.hp.spec_name() == "Hit Points"@,
            r.atk.spec_base() == 0 && r.atk.spec_bonus() == 0 && r.atk.spec_max() == 0,
            r.def.spec_base() == 0 && r.def.spec_bonus() == 0 && r.def.spec_max() == 0,
            r.hp.spec_base() == 0 && r.hp.spec_bonus() == 0 && r.hp.spec_max() == 0,
            !r.dead,
            r.inv(),
    {
        StatBlock {
            atk: EntityStat::new("Attack", 0),
            def: EntityStat::new("Defense", 0),
            hp: EntityStat::new("Hit Points", 0),
            dead: false,
        }
    }
}

} // verus!
