//! The collision notifier.
//!
//! Each frame, after the physics step, the notifier inspects the queue of
//! collision events the physics collaborator produced since the last frame.
//! For every event and every worm, a collision-start event whose participant
//! handles include the worm's handle yields one notification carrying that
//! worm's identifier; collision-end events and non-participant worms yield
//! nothing. The notifier is an observer only: it changes no worm's state,
//! and a worm in several simultaneous start events is reported once per
//! event.

use vstd::prelude::*;

use crate::worm::{same_identities, Worm};

verus! {

/// A transient record the physics collaborator emits when two colliders
/// begin or cease overlapping, carrying the two participants' handles.
#[derive(Clone, Copy, Debug, PartialEq, Eq, Structural)]
pub enum CollisionEvent {
    Started(u64, u64),
    Stopped(u64, u64),
}

/// Whether the event is a collision start with `handle` among its
/// participants — the one condition under which a notification is owed.
pub open spec fn event_involves(e: CollisionEvent, handle: u64) -> bool {
    match e {
        CollisionEvent::Started(h1, h2) => h1 == handle || h2 == handle,
        CollisionEvent::Stopped(_, _) => false,
    }
}

/// The notifications one event produces: the identifier of each worm whose
/// handle is among the participants of a start event, in worm order.
pub open spec fn event_notifications(e: CollisionEvent, worms: Seq<Worm>) -> Seq<u16>
    decreases worms.len(),
{
    if worms.len() == 0 {
        Seq::empty()
    } else {
        event_notifications(e, worms.drop_last()) + if event_involves(
            e,
            worms.last().handle,
        ) {
            seq![worms.last().state.id]
        } else {
            Seq::empty()
        }
    }
}

/// The notifications a frame's whole event queue produces: the events in
/// order, each contributing one notification per matching worm.
pub open spec fn frame_notifications(events: Seq<CollisionEvent>, worms: Seq<Worm>) -> Seq<u16>
    decreases events.len(),
{
    if events.len() == 0 {
        Seq::empty()
    } else {
        frame_notifications(events.drop_last(), worms) + event_notifications(
            events.last(),
            worms,
        )
    }
}

/// How many entries of a notification sequence carry the given identifier.
pub open spec fn id_count(notes: Seq<u16>, id: u16) -> nat
    decreases notes.len(),
{
    if notes.len() == 0 {
        0
    } else {
        id_count(notes.drop_last(), id) + if notes.last() == id {
            1nat
        } else {
            0nat
        }
    }
}

/// No two worms share an identifier: established at creation, where the
/// identifiers are assigned once and never reused.
pub open spec fn ids_unique(worms: Seq<Worm>) -> bool {
    forall|a: int, b: int|
        0 <= a < b < worms.len() ==> worms[a].state.id != worms[b].state.id
}

/// A collision-end event produces no notification, whatever the worms.
pub proof fn lemma_stop_event_no_notifications(h1: u64, h2: u64, worms: Seq<Worm>)
    ensures
        event_notifications(CollisionEvent::Stopped(h1, h2), worms) == Seq::<u16>::empty(),
    decreases worms.len(),
{
    if worms.len() > 0 {
        lemma_stop_event_no_notifications(h1, h2, worms.drop_last());
        assert(event_notifications(CollisionEvent::Stopped(h1, h2), worms) =~= Seq::<
            u16,
        >::empty());
    }
}

/// An event notifies no identifier that no worm carries.
pub proof fn lemma_absent_id_no_notifications(e: CollisionEvent, worms: Seq<Worm>, id: u16)
    requires
        forall|a: int| 0 <= a < worms.len() ==> worms[a].state.id != id,
    ensures
        id_count(event_notifications(e, worms), id) == 0,
    decreases worms.len(),
{
    if worms.len() > 0 {
        lemma_absent_id_no_notifications(e, worms.drop_last(), id);
        let x = event_notifications(e, worms.drop_last());
        let full = event_notifications(e, worms);
        if event_involves(e, worms.last().handle) {
            assert(full.drop_last() =~= x);
            assert(full.last() == worms.last().state.id);
        } else {
            assert(full =~= x);
        }
    }
}

/// A collision-start event produces exactly one notification carrying the
/// identifier of each worm whose handle is among its participants — and
/// none carrying the identifier of any other worm.
pub proof fn lemma_event_notification_count(e: CollisionEvent, worms: Seq<Worm>, k: int)
    requires
        ids_unique(worms),
        0 <= k < worms.len(),
    ensures
        id_count(event_notifications(e, worms), worms[k].state.id) == if event_involves(
            e,
            worms[k].handle,
        ) {
            1nat
        } else {
            0nat
        },
    decreases worms.len(),
{
    let id = worms[k].state.id;
    let x = event_notifications(e, worms.drop_last());
    let full = event_notifications(e, worms);
    if k == worms.len() - 1 {
        assert(forall|a: int| 0 <= a < worms.drop_last().len() ==> worms.drop_last()[a].state.id
            != id);
        lemma_absent_id_no_notifications(e, worms.drop_last(), id);
        if event_involves(e, worms.last().handle) {
            assert(full.drop_last() =~= x);
            assert(full.last() == id);
        } else {
            assert(full =~= x);
        }
    } else {
        lemma_event_notification_count(e, worms.drop_last(), k);
        if event_involves(e, worms.last().handle) {
            assert(full.drop_last() =~= x);
            assert(full.last() == worms.last().state.id);
            assert(worms.last().state.id != id);
        } else {
            assert(full =~= x);
        }
    }
}

/// One event's notifications read only handles and identifiers, so they
/// are the same for any two worm sequences that agree on states and
/// handles, wherever the worms stand.
pub proof fn lemma_event_notifications_same_identities(e: CollisionEvent, a: Seq<Worm>, b: Seq<
    Worm,
>)
    requires
        same_identities(a, b),
    ensures
        event_notifications(e, a) == event_notifications(e, b),
    decreases a.len(),
{
    if a.len() > 0 {
        assert(same_identities(a.drop_last(), b.drop_last()));
        lemma_event_notifications_same_identities(e, a.drop_last(), b.drop_last());
        assert(a.last().state == b.last().state);
        assert(a.last().handle == b.last().handle);
        assert(event_notifications(e, a) =~= event_notifications(e, b));
    }
}

/// The notifier is independent of where the worms stand: a whole frame's
/// notifications are the same for any two worm sequences that agree on
/// states and handles. In particular, the mapper's movement never changes
/// which notifications the frame produces.
pub proof fn lemma_frame_notifications_same_identities(
    events: Seq<CollisionEvent>,
    a: Seq<Worm>,
    b: Seq<Worm>,
)
    requires
        same_identities(a, b),
    ensures
        frame_notifications(events, a) == frame_notifications(events, b),
    decreases events.len(),
{
    if events.len() > 0 {
        lemma_frame_notifications_same_identities(events.drop_last(), a, b);
        lemma_event_notifications_same_identities(events.last(), a, b);
    }
}

/// A frame whose queue holds a single event produces exactly that event's
/// notifications.
pub proof fn lemma_single_event_frame(e: CollisionEvent, worms: Seq<Worm>)
    ensures
        frame_notifications(seq![e], worms) == event_notifications(e, worms),
{
    assert(seq![e].drop_last() =~= Seq::<CollisionEvent>::empty());
    assert(seq![e].last() == e);
    assert(frame_notifications(seq![e].drop_last(), worms) == Seq::<u16>::empty());
    assert(frame_notifications(seq![e], worms) =~= event_notifications(e, worms));
}

/// A frame with no collision events produces no notification, whatever the
/// worms and however often such frames repeat.
pub proof fn lemma_no_events_no_notifications(worms: Seq<Worm>)
    ensures
        frame_notifications(Seq::<CollisionEvent>::empty(), worms) == Seq::<u16>::empty(),
{
}

/// In a frame whose queue holds one collision-start event, a worm whose
/// handle is among the event's participants is notified exactly once; a
/// collision-end event for the same pair notifies it not at all.
pub proof fn lemma_start_frame_one_notification(h1: u64, h2: u64, worms: Seq<Worm>, k: int)
    requires
        ids_unique(worms),
        0 <= k < worms.len(),
        worms[k].handle == h1 || worms[k].handle == h2,
    ensures
        id_count(
            frame_notifications(seq![CollisionEvent::Started(h1, h2)], worms),
            worms[k].state.id,
        ) == 1,
        id_count(
            frame_notifications(seq![CollisionEvent::Stopped(h1, h2)], worms),
            worms[k].state.id,
        ) == 0,
{
    lemma_single_event_frame(CollisionEvent::Started(h1, h2), worms);
    lemma_event_notification_count(CollisionEvent::Started(h1, h2), worms, k);
    lemma_single_event_frame(CollisionEvent::Stopped(h1, h2), worms);
    lemma_stop_event_no_notifications(h1, h2, worms);
}

/// The collision notifier's decision: for every event in the frame's queue
/// and every worm, in that nesting order, report the worm's identifier when
/// the event is a collision start and either participant handle equals the
/// worm's handle. Worm state is not touched.
pub fn collision_notifications(events: &Vec<CollisionEvent>, worms: &Vec<Worm>) -> (notes: Vec<
    u16,
>)
    ensures
        notes@ == frame_notifications(events@, worms@),
{
    let mut notes: Vec<u16> = Vec::new();
    let mut i: usize = 0;
    while i < events.len()
        invariant
            0 <= i <= events@.len(),
            notes@ == frame_notifications(events@.take(i as int), worms@),
        decreases events@.len() - i,
    {
        let e = events[i];
        proof {
            assert(notes@ =~= frame_notifications(events@.take(i as int), worms@)
                + event_notifications(e, worms@.take(0)));
        }
        let mut j: usize = 0;
        while j < worms.len()
            invariant
                0 <= j <= worms@.len(),
                0 <= i < events@.len(),
                e == events@[i as int],
                notes@ == frame_notifications(events@.take(i as int), worms@)
                    + event_notifications(e, worms@.take(j as int)),
            decreases worms@.len() - j,
        {
            let w = worms[j];
            match e {
                CollisionEvent::Started(h1, h2) => {
                    if h1 == w.handle || h2 == w.handle {
                        notes.push(w.state.id);
                    }
                },
                CollisionEvent::Stopped(_, _) => {},
            }
            j = j + 1;
            proof {
                let t = worms@.take(j as int);
                assert(t.drop_last() =~= worms@.take(j as int - 1));
                assert(t.last() == worms@[j as int - 1]);
                assert(notes@ =~= frame_notifications(events@.take(i as int), worms@)
                    + event_notifications(e, t));
            }
        }
        i = i + 1;
        proof {
            assert(worms@.take(worms@.len() as int) =~= worms@);
            let t = events@.take(i as int);
            assert(t.drop_last() =~= events@.take(i as int - 1));
            assert(t.last() == events@[i as int - 1]);
            assert(notes@ =~= frame_notifications(t, worms@));
        }
    }
    proof {
        assert(events@.take(events@.len() as int) =~= events@);
    }
    notes
}

} // verus!
