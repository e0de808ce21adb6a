//! A minimal 2D "worm" game world, modelled and verified.
//!
//! Two player-controlled movable entities ("worms") move on keyboard input
//! inside a physics-simulated world; collisions against a static tile are
//! detected and reported. The engine and physics runtimes are external
//! collaborators; this library holds the game's own logic — the world
//! bootstrap data, the per-frame input-to-motion mapper, and the collision
//! notifier — over a plain integer model of positions and entity handles.

pub mod events;
pub mod motion;
pub mod world;
pub mod worm;
