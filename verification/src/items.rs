//! Items, containers and equipment: a bounded item list per entity, an
//! equip-slot table, and the effect chains items carry.

use vstd::prelude::*;

use crate::registry::EntityId;

verus! {

/// Which pending directional action the prompt state machine remembers.
#[derive(Clone, Copy, Debug)]
pub enum DirectionalInputTypes {
    Attack,
}

/// An item effect, optionally chained to a follow-up effect. Only
/// `DamageTarget` acts when dispatched; the other variants are inert
/// placeholders carried through unchanged.
#[derive(Debug)]
pub enum EffectChain {
    DamageTarget(Option<Box<EffectChain>>, i32),
    HealTarget(Option<Box<EffectChain>>, i32),
    HealUser(Option<Box<EffectChain>>, i32),
}

impl Clone for EffectChain {
    fn clone(&self) -> (r: Self)
        ensures
            r == *self,
        decreases *self,
    {
        match self {
            EffectChain::DamageTarget(chain, amt) => EffectChain::DamageTarget(
                match chain {
                    Some(b) => Some(Box::new((**b).clone())),
                    None => None,
                },
                *amt,
            ),
            EffectChain::HealTarget(chain, amt) => EffectChain::HealTarget(
                match chain {
                    Some(b) => Some(Box::new((**b).clone())),
                    None => None,
                },
                *amt,
            ),
            EffectChain::HealUser(chain, amt) => EffectChain::HealUser(
                match chain {
                    Some(b) => Some(Box::new((**b).clone())),
                    None => None,
                },
                *amt,
            ),
        }
    }
}

/// An item: a name, a reference into the shared art table, and an optional
/// effect dispatched through the directional prompt.
#[derive(Debug)]
pub struct Item {
    pub name: String,
    pub art: usize,
    pub effect_chain: Option<EffectChain>,
}

/// A bounded list of items owned by one entity.
#[derive(Debug)]
pub struct Container {
    pub items: Vec<Item>,
    pub max_items: usize,
}

impl Container {
    /// Adds `item` unless the container is full; a rejected item is handed
    /// back to the caller.
    pub fn try_add_item(&mut self, item: Item) -> (r: Option<Item>)
        ensures
            old(self).items@.len() >= old(self).max_items ==> {
                &&& r == Some(item)
                &&& *final(self) == *old(self)
            },
            old(self).items@.len() < old(self).max_items ==> {
                &&& r is None
                &&& final(self).items@ == old(self).items@.push(item)
                &&& final(self).max_items == old(self).max_items
            },
    {
        let max_items = self.max_items;
        let items = &mut self.items;
        if items.len() >= max_items {
            return Some(item);
        }
        items.push(item);
        None
    }
}

/// The equip-slot table of one entity: `equips[item]` holds the action slot
/// an item is bound to, if any.
#[derive(Debug)]
pub struct Equipment {
    pub equips: Vec<Option<usize>>,
    pub max_equips: usize,
}

impl Equipment {
    /// Three empty equip slots.
    pub fn new() -> (r: Self)
        ensures
            r.equips@.len() == 3,
            forall|i: int| 0 <= i < 3 ==> r.equips@[i] is None,
            r.max_equips == 3,
    {
        let mut equips: Vec<Option<usize>> = Vec::new();
        equips.push(None);
        equips.push(None);
        equips.push(None);
        Equipment { equips, max_equips: 3 }
    }
}

/// The inventory window's interaction state: which container it shows and
/// which item selection is pending an equip target.
#[derive(Clone, Copy, Debug)]
pub struct InventoryUI {
    pub container_id: EntityId,
    pub pending_item: Option<usize>,
}

/// The characters the inventory window labels its 32 selection keys with.
pub fn enumerate_key_displays() -> (r: [char; 32])
    ensures
        r@ == key_display_seq(),
{
    let r = [
        '1', '2', '3', '4', '5', '6', '7', '8', '9', '0', 'a', 'b', 'c', 'd', 'e', 'f', 'g', 'h',
        'i', 'j', 'k', 'l', 'm', 'n', 'o', 'p', 'q', 'r', 's', 't', 'u', 'v',
    ];
    proof {
        assert(r@ =~= key_display_seq());
    }
    r
}

/// The label characters, in selection-key order.
pub open spec fn key_display_seq() -> Seq<char> {
    seq![
        '1', '2', '3', '4', '5', '6', '7', '8', '9', '0', 'a', 'b', 'c', 'd', 'e', 'f', 'g', 'h',
        'i', 'j', 'k', 'l', 'm', 'n', 'o', 'p', 'q', 'r', 's', 't', 'u', 'v',
    ]
}

} // verus!
