//! The component types an entity can carry: position and glyph, AI behavior
//! tags, and the display identity shown in the side panel.

use vstd::prelude::*;

use crate::display::Display;

verus! {

/// Marker component: the unique player-controlled entity.
#[derive(Clone, Copy, Debug)]
pub struct Player;

/// Position on the tile grid plus the glyph drawn there.
#[derive(Clone, Copy, Debug)]
pub struct BasicEntity {
    pub x: i32,
    pub y: i32,
    pub d: Display,
}

impl BasicEntity {
    pub fn get_x(&self) -> (r: i32)
        ensures
            r == self.x,
    {
        self.x
    }

    pub fn get_y(&self) -> (r: i32)
        ensures
            r == self.y,
    {
        self.y
    }

    pub fn get_display(&self) -> (r: Display)
        ensures
            r == self.d,
    {
        self.d
    }

    pub fn set_x(&mut self, x: i32)
        ensures
            *final(self) == (BasicEntity { x, ..*old(self) }),
    {
        self.x = x;
    }

    pub fn set_y(&mut self, y: i32)
        ensures
            *final(self) == (BasicEntity { y, ..*old(self) }),
    {
        self.y = y;
    }

    pub fn set_display(&mut self, display: Display)
        ensures
            *final(self) == (BasicEntity { d: display, ..*old(self) }),
    {
        self.d = display;
    }

    /// Shifts the position by the given deltas. The preconditions are machine
    /// limits: the new coordinates must be representable.
    pub fn move_by(&mut self, dx: i32, dy: i32)
        requires
            i32::MIN <= old(self).x + dx <= i32::MAX,
            i32::MIN <= old(self).y + dy <= i32::MAX,
        ensures
            final(self).x == old(self).x + dx,
            final(self).y == old(self).y + dy,
            final(self).d == old(self).d,
    {
        self.x = self.x + dx;
        self.y = self.y + dy;
    }

    /// The position as a pair.
    pub fn pos(&self) -> (r: (i32, i32))
        ensures
            r == (self.x, self.y),
    {
        (self.x, self.y)
    }
}

/// Behavior tag: pursues the player and attacks when adjacent.
#[derive(Clone, Copy, Debug)]
pub struct ZombieAI;

/// Behavior tag: the player's own scheduled turn logic (regeneration).
#[derive(Clone, Copy, Debug)]
pub struct PlayerAI;

/// Behavior tag: counts down each turn and requests deletion of its entity
/// when the counter goes negative.
#[derive(Clone, Copy, Debug)]
pub struct SelfDestructAI {
    pub turns_left: i32,
}

/// Display identity: a name and a reference into the shared art table held
/// by the render layer.
#[derive(Debug)]
pub struct EntityView {
    pub name: String,
    pub art: usize,
}

/// A hook invoked when an entity dies, for drop-table behavior the game
/// attaches per archetype.
pub trait EntityLootHandler {
    fn handle_loot(&mut self, state: &crate::world::State);
}

/// The spider archetypes' loot hook; its drop table is currently inert.
#[derive(Clone, Copy, Debug)]
pub struct SpiderLoot {
    pub id: crate::registry::EntityId,
    pub max_atk: i32,
}

impl EntityLootHandler for SpiderLoot {
    fn handle_loot(&mut self, state: &crate::world::State) {
    }
}

} // verus!
