//! The game world and its frame loop.
//!
//! The world is bootstrapped once: two worms with fixed initial positions
//! and identifiers, and one static tile. Each simulation frame then runs the
//! input-to-motion mapper, the external physics step, and the collision
//! notifier, in that order. The engine runtime performs the physics step and
//! hands back the frame's event queue; everything the game itself decides is
//! here.

use vstd::prelude::*;

use crate::events::{collision_notifications, frame_notifications, CollisionEvent};
use crate::motion::{dir_x, dir_y, lemma_dir_same_identities, modify_body_translation, KeySet};
use crate::events::lemma_frame_notifications_same_identities;
use crate::worm::{same_identities, Obstacle, Pos, Worm, WormState};
use crate::worm::{TILE_DENSITY, TILE_HEIGHT, TILE_WIDTH, WORM_SPEED};

verus! {

/// The game world: the movable worms and the static tile.
pub struct World {
    pub worms: Vec<Worm>,
    pub obstacle: Obstacle,
}

/// The horizontal displacement a frame sequence accumulates: the sum of
/// each frame's direction, with the worms' alive flags as given (the flags
/// are set once at creation and never transition).
pub open spec fn sum_dir_x(frames: Seq<KeySet>, worms: Seq<Worm>) -> int
    decreases frames.len(),
{
    if frames.len() == 0 {
        0
    } else {
        sum_dir_x(frames.drop_last(), worms) + dir_x(frames.last(), worms)
    }
}

/// The vertical displacement a frame sequence accumulates.
pub open spec fn sum_dir_y(frames: Seq<KeySet>, worms: Seq<Worm>) -> int
    decreases frames.len(),
{
    if frames.len() == 0 {
        0
    } else {
        sum_dir_y(frames.drop_last(), worms) + dir_y(frames.last(), worms)
    }
}

impl World {
    /// World bootstrap: worm #1 at (2, 0) and worm #2 at (2, 100), both
    /// alive, under the handles the engine assigned at spawn time, and the
    /// static tile at (20, 200) with its fixed extent and density.
    pub fn initial(handle1: u64, handle2: u64) -> (w: World)
        ensures
            w.worms@.len() == 2,
            w.worms@[0] == (Worm {
                state: WormState { is_alive: true, id: 1 },
                handle: handle1,
                pos: Pos { x: 2, y: 0 },
            }),
            w.worms@[1] == (Worm {
                state: WormState { is_alive: true, id: 2 },
                handle: handle2,
                pos: Pos { x: 2, y: 100 },
            }),
            w.obstacle == (Obstacle {
                pos: Pos { x: 20, y: 200 },
                width: TILE_WIDTH,
                height: TILE_HEIGHT,
                density: TILE_DENSITY,
            }),
    {
        let mut worms: Vec<Worm> = Vec::new();
        worms.push(
            Worm {
                state: WormState { is_alive: true, id: 1 },
                handle: handle1,
                pos: Pos { x: 2, y: 0 },
            },
        );
        worms.push(
            Worm {
                state: WormState { is_alive: true, id: 2 },
                handle: handle2,
                pos: Pos { x: 2, y: 100 },
            },
        );
        World {
            worms,
            obstacle: Obstacle {
                pos: Pos { x: 20, y: 200 },
                width: TILE_WIDTH,
                height: TILE_HEIGHT,
                density: TILE_DENSITY,
            },
        }
    }

    /// One simulation frame: run the input-to-motion mapper on the held
    /// keys, then — after the external physics step produced the frame's
    /// event queue — the collision notifier. Every worm moves by the
    /// frame's direction vector; states, handles and the tile are
    /// untouched; the returned notifications are exactly the queue's
    /// collision starts matched against the worms' handles, unaffected by
    /// the movement.
    pub fn step_frame(&mut self, keys: &KeySet, events: &Vec<CollisionEvent>) -> (notes: Vec<u16>)
        requires
            WORM_SPEED as int * (old(self).worms@.len() as int) <= i64::MAX as int,
            forall|i: int| 0 <= i < old(self).worms@.len() ==> i64::MIN as int
                <= #[trigger] old(self).worms@[i].pos.x + dir_x(*keys, old(self).worms@)
                <= i64::MAX as int,
            forall|i: int| 0 <= i < old(self).worms@.len() ==> i64::MIN as int
                <= #[trigger] old(self).worms@[i].pos.y + dir_y(*keys, old(self).worms@)
                <= i64::MAX as int,
        ensures
            final(self).obstacle == old(self).obstacle,
            final(self).worms@.len() == old(self).worms@.len(),
            forall|i: int| 0 <= i < old(self).worms@.len() ==> {
                let w = #[trigger] final(self).worms@[i];
                &&& w.pos.x == old(self).worms@[i].pos.x + dir_x(*keys, old(self).worms@)
                &&& w.pos.y == old(self).worms@[i].pos.y + dir_y(*keys, old(self).worms@)
                &&& w.state == old(self).worms@[i].state
                &&& w.handle == old(self).worms@[i].handle
            },
            notes@ == frame_notifications(events@, old(self).worms@),
    {
        modify_body_translation(&mut self.worms, keys);
        let notes = collision_notifications(events, &self.worms);
        proof {
            assert(same_identities(self.worms@, old(self).worms@));
            lemma_frame_notifications_same_identities(events@, self.worms@, old(self).worms@);
        }
        notes
    }

    /// Drive the world through a sequence of frames with no collisions:
    /// each worm's final position is its initial position plus the
    /// frame-by-frame sum of the per-frame direction vectors — including
    /// the scaling of each frame's vector by the count of alive worms.
    pub fn run_frames(&mut self, frames: &Vec<KeySet>)
        requires
            WORM_SPEED as int * (old(self).worms@.len() as int) <= i64::MAX as int,
            forall|t: int, i: int|
                #![trigger old(self).worms@[i].pos.x + sum_dir_x(frames@.take(t), old(self).worms@)]
                0 <= t <= frames@.len() && 0 <= i < old(self).worms@.len() ==> i64::MIN as int
                <= old(self).worms@[i].pos.x + sum_dir_x(frames@.take(t), old(self).worms@)
                <= i64::MAX as int,
            forall|t: int, i: int|
                #![trigger old(self).worms@[i].pos.y + sum_dir_y(frames@.take(t), old(self).worms@)]
                0 <= t <= frames@.len() && 0 <= i < old(self).worms@.len() ==> i64::MIN as int
                <= old(self).worms@[i].pos.y + sum_dir_y(frames@.take(t), old(self).worms@)
                <= i64::MAX as int,
        ensures
            final(self).obstacle == old(self).obstacle,
            final(self).worms@.len() == old(self).worms@.len(),
            forall|i: int| 0 <= i < old(self).worms@.len() ==> {
                let w = #[trigger] final(self).worms@[i];
                &&& w.pos.x == old(self).worms@[i].pos.x + sum_dir_x(frames@, old(self).worms@)
                &&& w.pos.y == old(self).worms@[i].pos.y + sum_dir_y(frames@, old(self).worms@)
                &&& w.state == old(self).worms@[i].state
                &&& w.handle == old(self).worms@[i].handle
            },
    {
        let ghost orig = self.worms@;
        let mut t: usize = 0;
        while t < frames.len()
            invariant
                0 <= t <= frames@.len(),
                self.worms@.len() == orig.len(),
                self.obstacle == old(self).obstacle,
                WORM_SPEED as int * (orig.len() as int) <= i64::MAX as int,
                forall|u: int, i: int|
                    #![trigger orig[i].pos.x + sum_dir_x(frames@.take(u), orig)]
                    0 <= u <= frames@.len() && 0 <= i < orig.len() ==> i64::MIN as int
                    <= orig[i].pos.x + sum_dir_x(frames@.take(u), orig) <= i64::MAX as int,
                forall|u: int, i: int|
                    #![trigger orig[i].pos.y + sum_dir_y(frames@.take(u), orig)]
                    0 <= u <= frames@.len() && 0 <= i < orig.len() ==> i64::MIN as int
                    <= orig[i].pos.y + sum_dir_y(frames@.take(u), orig) <= i64::MAX as int,
                forall|i: int| 0 <= i < orig.len() ==> {
                    let w = #[trigger] self.worms@[i];
                    &&& w.pos.x == orig[i].pos.x + sum_dir_x(frames@.take(t as int), orig)
                    &&& w.pos.y == orig[i].pos.y + sum_dir_y(frames@.take(t as int), orig)
                    &&& w.state == orig[i].state
                    &&& w.handle == orig[i].handle
                },
            decreases frames@.len() - t,
        {
            let keys = frames[t];
            proof {
                assert(same_identities(self.worms@, orig));
                lemma_dir_same_identities(keys, self.worms@, orig);
                let next = frames@.take(t as int + 1);
                assert(next.drop_last() =~= frames@.take(t as int));
                assert(next.last() == frames@[t as int]);
                assert forall|i: int| 0 <= i < orig.len() implies i64::MIN as int <= #[trigger] self.worms@[i].pos.x
                    + dir_x(keys, self.worms@) <= i64::MAX as int by {
                    let bound = orig[i].pos.x + sum_dir_x(next, orig);
                    assert(sum_dir_x(next, orig) == sum_dir_x(frames@.take(t as int), orig)
                        + dir_x(keys, orig));
                };
                assert forall|i: int| 0 <= i < orig.len() implies i64::MIN as int <= #[trigger] self.worms@[i].pos.y
                    + dir_y(keys, self.worms@) <= i64::MAX as int by {
                    let bound = orig[i].pos.y + sum_dir_y(next, orig);
                    assert(sum_dir_y(next, orig) == sum_dir_y(frames@.take(t as int), orig)
                        + dir_y(keys, orig));
                };
            }
            modify_body_translation(&mut self.worms, &keys);
            t = t + 1;
        }
        proof {
            assert(frames@.take(frames@.len() as int) =~= frames@);
        }
    }
}

} // verus!
