//! The per-frame input-to-motion mapper.
//!
//! Once per frame the mapper reads the held directional keys, accumulates a
//! direction vector — each worm whose alive flag is set contributes the key
//! vector once, so the magnitude scales with the number of alive worms — and
//! then adds that vector to every worm's position, alive or not. There is no
//! diagonal normalization and no bounds checking against the obstacle or the
//! world edges.

use vstd::prelude::*;

use crate::worm::{same_identities, Pos, Worm, WORM_SPEED};

verus! {

/// The set of directional keys held during one frame.
#[derive(Clone, Copy, Debug, PartialEq, Eq, Structural)]
pub struct KeySet {
    pub up: bool,
    pub down: bool,
    pub left: bool,
    pub right: bool,
}

/// Horizontal contribution of the held keys, per alive worm: "right" adds
/// the speed, "left" subtracts it, together they cancel.
pub open spec fn key_dx(keys: KeySet) -> int {
    (if keys.right { WORM_SPEED as int } else { 0 }) - (if keys.left { WORM_SPEED as int } else { 0 })
}

/// Vertical contribution of the held keys, per alive worm: "up" adds the
/// speed, "down" subtracts it, together they cancel.
pub open spec fn key_dy(keys: KeySet) -> int {
    (if keys.up { WORM_SPEED as int } else { 0 }) - (if keys.down { WORM_SPEED as int } else { 0 })
}

/// How many of the worms have their alive flag set.
pub open spec fn alive_count(worms: Seq<Worm>) -> nat
    decreases worms.len(),
{
    if worms.len() == 0 {
        0
    } else {
        alive_count(worms.drop_last()) + if worms.last().state.is_alive { 1nat } else { 0nat }
    }
}

/// The accumulator the mapper builds: one `contribution` per alive worm.
pub open spec fn dir_sum(contribution: int, worms: Seq<Worm>) -> int
    decreases worms.len(),
{
    if worms.len() == 0 {
        0
    } else {
        dir_sum(contribution, worms.drop_last())
            + if worms.last().state.is_alive { contribution } else { 0 }
    }
}

/// The frame's horizontal displacement, applied to every worm.
pub open spec fn dir_x(keys: KeySet, worms: Seq<Worm>) -> int {
    dir_sum(key_dx(keys), worms)
}

/// The frame's vertical displacement, applied to every worm.
pub open spec fn dir_y(keys: KeySet, worms: Seq<Worm>) -> int {
    dir_sum(key_dy(keys), worms)
}

/// Accumulating one contribution per alive worm is the same as multiplying
/// the contribution by the number of alive worms.
pub proof fn lemma_dir_sum_is_count_times(contribution: int, worms: Seq<Worm>)
    ensures
        dir_sum(contribution, worms) == alive_count(worms) * contribution,
    decreases worms.len(),
{
    let k = alive_count(worms) as int;
    let s = dir_sum(contribution, worms);
    if worms.len() == 0 {
        assert(s == k * contribution) by (nonlinear_arith)
            requires
                k == 0,
                s == 0,
        ;
    } else {
        lemma_dir_sum_is_count_times(contribution, worms.drop_last());
        let n = alive_count(worms.drop_last()) as int;
        if worms.last().state.is_alive {
            assert(s == k * contribution) by (nonlinear_arith)
                requires
                    k == n + 1,
                    s == n * contribution + contribution,
            ;
        } else {
            assert(s == k * contribution) by (nonlinear_arith)
                requires
                    k == n,
                    s == n * contribution,
            ;
        }
    }
}

/// The displacement scales with the count of alive worms: each alive worm
/// contributes the held-key vector once, so two alive worms move everything
/// at twice the speed of one.
pub proof fn lemma_direction_scales_with_alive_count(keys: KeySet, worms: Seq<Worm>)
    ensures
        dir_x(keys, worms) == alive_count(worms) * key_dx(keys),
        dir_y(keys, worms) == alive_count(worms) * key_dy(keys),
{
    lemma_dir_sum_is_count_times(key_dx(keys), worms);
    lemma_dir_sum_is_count_times(key_dy(keys), worms);
}

/// The direction accumulator reads only the alive flags, so it is the same
/// for any two worm sequences that agree on states and handles — in
/// particular, moving the worms never changes the next frame's direction.
pub proof fn lemma_dir_same_identities(keys: KeySet, a: Seq<Worm>, b: Seq<Worm>)
    requires
        same_identities(a, b),
    ensures
        dir_x(keys, a) == dir_x(keys, b),
        dir_y(keys, a) == dir_y(keys, b),
        alive_count(a) == alive_count(b),
    decreases a.len(),
{
    if a.len() > 0 {
        assert(same_identities(a.drop_last(), b.drop_last()));
        lemma_dir_same_identities(keys, a.drop_last(), b.drop_last());
        assert(a.last().state == b.last().state);
    }
}

/// Opposite held keys cancel for the frame: with "up" and "down" both held
/// (or both released) the vertical displacement is zero, and likewise for
/// "left" and "right" horizontally, whatever the worms' states.
pub proof fn lemma_opposite_keys_cancel(keys: KeySet, worms: Seq<Worm>)
    ensures
        keys.up == keys.down ==> dir_y(keys, worms) == 0,
        keys.left == keys.right ==> dir_x(keys, worms) == 0,
{
    lemma_direction_scales_with_alive_count(keys, worms);
    let n = alive_count(worms) as int;
    if keys.up == keys.down {
        assert(n * key_dy(keys) == 0) by (nonlinear_arith)
            requires
                key_dy(keys) == 0,
        ;
    }
    if keys.left == keys.right {
        assert(n * key_dx(keys) == 0) by (nonlinear_arith)
            requires
                key_dx(keys) == 0,
        ;
    }
}

/// Diagonal input is not normalized: with only "up" and "right" held and a
/// single alive worm, the frame displacement is the full speed on each axis.
pub proof fn lemma_diagonal_full_speed(keys: KeySet, worms: Seq<Worm>)
    requires
        keys == (KeySet { up: true, down: false, left: false, right: true }),
        alive_count(worms) == 1,
    ensures
        dir_x(keys, worms) == WORM_SPEED as int,
        dir_y(keys, worms) == WORM_SPEED as int,
{
    lemma_direction_scales_with_alive_count(keys, worms);
    let n = alive_count(worms) as int;
    assert(n * key_dx(keys) == key_dx(keys) && n * key_dy(keys) == key_dy(keys))
        by (nonlinear_arith)
        requires
            n == 1,
    ;
}

/// Accumulate the frame's direction vector: each worm whose alive flag is
/// set contributes the key vector once.
pub fn compute_direction(keys: &KeySet, worms: &Vec<Worm>) -> (dir: (i64, i64))
    requires
        WORM_SPEED as int * (worms@.len() as int) <= i64::MAX as int,
    ensures
        dir.0 as int == dir_x(*keys, worms@),
        dir.1 as int == dir_y(*keys, worms@),
{
    proof {
        assert(5 * (worms@.len() as int) <= i64::MAX as int) by (nonlinear_arith)
            requires
                WORM_SPEED == 5,
                WORM_SPEED as int * (worms@.len() as int) <= i64::MAX as int,
        ;
    }
    let mut dx: i64 = 0;
    let mut dy: i64 = 0;
    let mut i: usize = 0;
    while i < worms.len()
        invariant
            0 <= i <= worms@.len(),
            5 * (worms@.len() as int) <= i64::MAX as int,
            dx as int == dir_x(*keys, worms@.take(i as int)),
            dy as int == dir_y(*keys, worms@.take(i as int)),
            -5 * (i as int) <= dx as int <= 5 * (i as int),
            -5 * (i as int) <= dy as int <= 5 * (i as int),
        decreases worms@.len() - i,
    {
        if worms[i].state.is_alive {
            if keys.up {
                dy = dy + WORM_SPEED;
            }
            if keys.down {
                dy = dy - WORM_SPEED;
            }
            if keys.right {
                dx = dx + WORM_SPEED;
            }
            if keys.left {
                dx = dx - WORM_SPEED;
            }
        }
        i = i + 1;
        proof {
            assert(worms@.take(i as int).drop_last() =~= worms@.take(i as int - 1));
            assert(worms@.take(i as int).last() == worms@[i as int - 1]);
        }
    }
    proof {
        assert(worms@.take(worms@.len() as int) =~= worms@);
    }
    (dx, dy)
}

/// The per-frame input-to-motion mapper: compute the direction vector from
/// the held keys and the worms' alive flags, then add it to every worm's
/// position, alive or not. Positions are the only thing that changes.
pub fn modify_body_translation(worms: &mut Vec<Worm>, keys: &KeySet)
    requires
        WORM_SPEED as int * (old(worms)@.len() as int) <= i64::MAX as int,
        forall|i: int| 0 <= i < old(worms)@.len() ==> i64::MIN as int
            <= #[trigger] old(worms)@[i].pos.x + dir_x(*keys, old(worms)@) <= i64::MAX as int,
        forall|i: int| 0 <= i < old(worms)@.len() ==> i64::MIN as int
            <= #[trigger] old(worms)@[i].pos.y + dir_y(*keys, old(worms)@) <= i64::MAX as int,
    ensures
        final(worms)@.len() == old(worms)@.len(),
        forall|i: int| 0 <= i < old(worms)@.len() ==> {
            let w = #[trigger] final(worms)@[i];
            &&& w.pos.x == old(worms)@[i].pos.x + dir_x(*keys, old(worms)@)
            &&& w.pos.y == old(worms)@[i].pos.y + dir_y(*keys, old(worms)@)
            &&& w.state == old(worms)@[i].state
            &&& w.handle == old(worms)@[i].handle
        },
{
    let (dx, dy): (i64, i64) = compute_direction(keys, worms);
    let ghost orig = worms@;
    let mut i: usize = 0;
    while i < worms.len()
        invariant
            0 <= i <= orig.len(),
            worms@.len() == orig.len(),
            dx as int == dir_x(*keys, orig),
            dy as int == dir_y(*keys, orig),
            forall|j: int| 0 <= j < orig.len() ==> i64::MIN as int
                <= #[trigger] orig[j].pos.x + dx as int <= i64::MAX as int,
            forall|j: int| 0 <= j < orig.len() ==> i64::MIN as int
                <= #[trigger] orig[j].pos.y + dy as int <= i64::MAX as int,
            forall|j: int| i <= j < orig.len() ==> #[trigger] worms@[j] == orig[j],
            forall|j: int| 0 <= j < i ==> {
                let w = #[trigger] worms@[j];
                &&& w.pos.x == orig[j].pos.x + dx as int
                &&& w.pos.y == orig[j].pos.y + dy as int
                &&& w.state == orig[j].state
                &&& w.handle == orig[j].handle
            },
        decreases orig.len() - i,
    {
        let w = worms[i];
        worms.set(i, Worm { pos: Pos { x: w.pos.x + dx, y: w.pos.y + dy }, ..w });
        i = i + 1;
    }
}

} // verus!
