//! Per-tick task-assignment and state-machine core for a scripted strategy-game
//! bot. Each autonomous unit advances one task per tick; idle units pick a new
//! task from a prioritized, weighted policy over a read-only world snapshot,
//! and defensive structures run their own attack/repair loop.

use vstd::prelude::*;

pub mod builder;
pub mod executor;
pub mod geom;
pub mod harvester;
pub mod hauler;
pub mod memory;
pub mod policy;
pub mod registry;
pub mod roles;
pub mod scheduler;
pub mod select;
pub mod task;
pub mod tower;
pub mod world;

verus! {

/// Clamps a signed free-capacity value to an unsigned transfer amount:
/// the amount moved is the carried energy, capped by the room left in the
/// target, and never negative.
pub fn get_value_to_transfer(carried: u32, target_free_capacity: i32) -> (r: u32)
    ensures
        target_free_capacity >= 0 ==> r == if carried <= target_free_capacity {
            carried as int
        } else {
            target_free_capacity as int
        },
        target_free_capacity < 0 ==> r == 0,
        r <= carried,
        target_free_capacity >= 0 ==> r <= target_free_capacity,
{
    if target_free_capacity <= 0 {
        0
    } else if carried <= target_free_capacity as u32 {
        carried
    } else {
        target_free_capacity as u32
    }
}

} // verus!
