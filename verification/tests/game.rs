use worms::events::{collision_notifications, CollisionEvent};
use worms::motion::{compute_direction, modify_body_translation, KeySet};
use worms::world::World;
use worms::worm::{Pos, Worm, WormState};

fn keys(up: bool, down: bool, left: bool, right: bool) -> KeySet {
    KeySet { up, down, left, right }
}

fn worm(id: u16, alive: bool, handle: u64, x: i64, y: i64) -> Worm {
    Worm { state: WormState { is_alive: alive, id }, handle, pos: Pos { x, y } }
}

#[test]
fn world_bootstrap() {
    let w = World::initial(7, 8);
    assert_eq!(w.worms.len(), 2);
    assert_eq!(w.worms[0], worm(1, true, 7, 2, 0));
    assert_eq!(w.worms[1], worm(2, true, 8, 2, 100));
    assert_eq!(w.obstacle.pos, Pos { x: 20, y: 200 });
    assert_eq!(w.obstacle.width, 120);
    assert_eq!(w.obstacle.height, 20);
    assert_eq!(w.obstacle.density, 2);
}

#[test]
fn opposite_keys_cancel() {
    let worms = vec![worm(1, true, 7, 0, 0), worm(2, true, 8, 0, 0)];
    assert_eq!(compute_direction(&keys(true, true, false, false), &worms), (0, 0));
    assert_eq!(compute_direction(&keys(false, false, true, true), &worms), (0, 0));
    assert_eq!(compute_direction(&keys(true, true, true, true), &worms), (0, 0));
}

#[test]
fn diagonal_is_not_normalized() {
    let worms = vec![worm(1, true, 7, 0, 0)];
    assert_eq!(compute_direction(&keys(true, false, false, true), &worms), (5, 5));
}

#[test]
fn direction_scales_with_alive_count() {
    let both = vec![worm(1, true, 7, 0, 0), worm(2, true, 8, 0, 0)];
    let one = vec![worm(1, true, 7, 0, 0), worm(2, false, 8, 0, 0)];
    let none = vec![worm(1, false, 7, 0, 0), worm(2, false, 8, 0, 0)];
    let up = keys(true, false, false, false);
    assert_eq!(compute_direction(&up, &both), (0, 10));
    assert_eq!(compute_direction(&up, &one), (0, 5));
    assert_eq!(compute_direction(&up, &none), (0, 0));
}

#[test]
fn mapper_moves_every_worm_alive_or_not() {
    let mut worms = vec![worm(1, true, 7, 2, 0), worm(2, false, 8, 2, 100)];
    modify_body_translation(&mut worms, &keys(false, false, false, true));
    // one alive worm: dx = 5; the dead worm moves too
    assert_eq!(worms[0].pos, Pos { x: 7, y: 0 });
    assert_eq!(worms[1].pos, Pos { x: 7, y: 100 });
    assert_eq!(worms[0].state, WormState { is_alive: true, id: 1 });
    assert_eq!(worms[1].state, WormState { is_alive: false, id: 2 });
}

#[test]
fn run_frames_accumulates_displacements() {
    let mut w = World::initial(7, 8);
    let frames = vec![
        keys(true, false, false, false),
        keys(true, false, false, true),
        keys(false, false, false, false),
        keys(false, true, false, false),
        keys(false, false, true, false),
    ];
    // both worms alive: each frame's vector doubles.
    // (0,10) + (10,10) + (0,0) + (0,-10) + (-10,0) = (0,10)
    w.run_frames(&frames);
    assert_eq!(w.worms[0].pos, Pos { x: 2, y: 10 });
    assert_eq!(w.worms[1].pos, Pos { x: 2, y: 110 });
}

#[test]
fn start_event_notifies_participant() {
    let w = World::initial(7, 8);
    let events = vec![CollisionEvent::Started(7, 99)];
    assert_eq!(collision_notifications(&events, &w.worms), vec![1]);
    let events = vec![CollisionEvent::Started(99, 8)];
    assert_eq!(collision_notifications(&events, &w.worms), vec![2]);
    let events = vec![CollisionEvent::Started(7, 8)];
    assert_eq!(collision_notifications(&events, &w.worms), vec![1, 2]);
}

#[test]
fn end_event_is_silent() {
    let w = World::initial(7, 8);
    let events = vec![CollisionEvent::Stopped(7, 8)];
    assert_eq!(collision_notifications(&events, &w.worms), Vec::<u16>::new());
}

#[test]
fn uninvolved_event_is_silent() {
    let w = World::initial(7, 8);
    let events = vec![CollisionEvent::Started(98, 99)];
    assert_eq!(collision_notifications(&events, &w.worms), Vec::<u16>::new());
}

#[test]
fn simultaneous_start_events_duplicate() {
    let w = World::initial(7, 8);
    let events = vec![CollisionEvent::Started(7, 99), CollisionEvent::Started(100, 7)];
    assert_eq!(collision_notifications(&events, &w.worms), vec![1, 1]);
}

#[test]
fn coincident_worms_without_events_stay_silent() {
    // two worms at the same position, clear of the obstacle: frames with no
    // input and no collision events yield no notification and no movement.
    let mut w = World::initial(7, 8);
    w.worms[1].pos = w.worms[0].pos;
    let still = keys(false, false, false, false);
    for _ in 0..10 {
        let notes = w.step_frame(&still, &Vec::new());
        assert_eq!(notes, Vec::<u16>::new());
    }
    assert_eq!(w.worms[0].pos, Pos { x: 2, y: 0 });
    assert_eq!(w.worms[1].pos, Pos { x: 2, y: 0 });
}

#[test]
fn idle_world_stays_put() {
    // start state: worm #1 at (2,0), worm #2 at (2,100), tile at (20,200);
    // five frames with no keys held and no events.
    let mut w = World::initial(7, 8);
    let still = keys(false, false, false, false);
    for _ in 0..5 {
        let notes = w.step_frame(&still, &Vec::new());
        assert_eq!(notes, Vec::<u16>::new());
    }
    assert_eq!(w.worms[0].pos, Pos { x: 2, y: 0 });
    assert_eq!(w.worms[1].pos, Pos { x: 2, y: 100 });
    assert_eq!(w.obstacle.pos, Pos { x: 20, y: 200 });
}
