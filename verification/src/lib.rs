//! Simulation core of a turn-based, tile-grid roguelike: an entity-component
//! registry with generation-tagged handles, a spatial index kept in sync with
//! entity positions, a stat/combat model, per-entity turn behaviors, a turn
//! scheduler with snapshot-then-apply semantics, and portal-driven map
//! transitions. Rendering, input decoding and file persistence live outside
//! this crate; the library works on plain values handed in from that edge.

use vstd::prelude::*;
use vstd::string::StrSliceExecFns;

pub mod camera;
pub mod components;
pub mod display;
pub mod editor;
pub mod entities;
pub mod input;
pub mod items;
pub mod laws;
pub mod map;
pub mod registry;
pub mod rng;
pub mod stats;
pub mod turn;
pub mod world;

verus! {

/// Clamps `value` into the inclusive range `[min, max]`.
pub fn clamp(value: i32, min: i32, max: i32) -> (r: i32)
    ensures
        r == spec_clamp(value as int, min as int, max as int),
{
    if value < min {
        min
    } else if value > max {
        max
    } else {
        value
    }
}

/// What `clamp` returns: `min` if `value` sits below the range, `max` if
/// above it, otherwise `value` itself.
pub open spec fn spec_clamp(value: int, min: int, max: int) -> int {
    if value < min {
        min
    } else if value > max {
        max
    } else {
        value
    }
}

/// Whether two strings hold the same text.
pub fn str_eq(a: &str, b: &str) -> (r: bool)
    ensures
        r == (a@ == b@),
{
    let alen = a.unicode_len();
    let blen = b.unicode_len();
    if alen != blen {
        return false;
    }
    let mut i: usize = 0;
    while i < alen
        invariant
            alen == a@.len(),
            blen == b@.len(),
            alen == blen,
            i <= alen,
            forall|j: int| 0 <= j < i ==> a@[j] == b@[j],
        decreases alen - i,
    {
        if a.get_char(i) != b.get_char(i) {
            return false;
        }
        i = i + 1;
    }
    proof {
        assert(a@ =~= b@);
    }
    true
}

} // verus!
