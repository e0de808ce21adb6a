//! The data model: movable entities ("worms"), the static obstacle ("tile"),
//! and the fixed world constants.
//!
//! Positions and extents are integer units. Every coordinate the game ever
//! produces is a whole number: the initial positions are whole numbers and
//! each frame adds a whole-number displacement, so nothing is lost by the
//! integer model. An entity handle is the stable identifier the engine
//! assigns at spawn time, carried here as a plain integer.

use vstd::prelude::*;

verus! {

/// Distance a held directional key contributes per alive worm per frame.
pub const WORM_SPEED: i64 = 5;

/// Side length of the square extent shared by every worm.
pub const WORM_SIZE: i64 = 50;

/// Width of the static tile's rectangular extent.
pub const TILE_WIDTH: i64 = 120;

/// Height of the static tile's rectangular extent.
pub const TILE_HEIGHT: i64 = 20;

/// Density the physics collaborator uses for the tile's mass computation.
pub const TILE_DENSITY: i64 = 2;

/// A 2D point in world units.
#[derive(Clone, Copy, Debug, PartialEq, Eq, Structural)]
pub struct Pos {
    pub x: i64,
    pub y: i64,
}

/// Gameplay state attached to a worm: set once at creation, never
/// transitioned afterwards by any reachable logic.
#[derive(Clone, Copy, Debug, PartialEq, Eq, Structural)]
pub struct WormState {
    pub is_alive: bool,
    pub id: u16,
}

/// A movable entity: its gameplay state, the engine-assigned handle, and its
/// current position. All worms share the same square extent (`WORM_SIZE`),
/// are exempt from gravity, and have translation locked away from the
/// physics integrator, so this library's mapper is their sole mover.
#[derive(Clone, Copy, Debug, PartialEq, Eq, Structural)]
pub struct Worm {
    pub state: WormState,
    pub handle: u64,
    pub pos: Pos,
}

/// Whether two worm sequences agree on everything but position: same
/// length, and pointwise the same gameplay state and engine handle. The
/// mapper moves positions only, so it preserves this relation — and both
/// the direction accumulator and the collision notifier read nothing else.
pub open spec fn same_identities(a: Seq<Worm>, b: Seq<Worm>) -> bool {
    &&& a.len() == b.len()
    &&& forall|i: int|
        0 <= i < a.len() ==> (#[trigger] a[i]).state == b[i].state && a[i].handle == b[i].handle
}

/// The static obstacle: fixed position, fixed rectangular extent, and the
/// density handed to the physics collaborator. Created once; immutable.
#[derive(Clone, Copy, Debug, PartialEq, Eq, Structural)]
pub struct Obstacle {
    pub pos: Pos,
    pub width: i64,
    pub height: i64,
    pub density: i64,
}

} // verus!
