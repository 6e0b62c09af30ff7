//! Contact observation: which finished contacts involve a ball.
use vstd::prelude::*;

verus! {

/// A collider handle of the engine: arena slot and generation.
#[derive(Debug, Clone, Copy, PartialEq, Eq, Structural, Hash)]
pub struct ColliderId {
    pub index: usize,
    pub generation: u64,
}

/// A contact event of the engine between two colliders.
#[derive(Debug, Clone, Copy, PartialEq, Eq, Structural)]
pub enum ContactEvent {
    Started(ColliderId, ColliderId),
    Stopped(ColliderId, ColliderId),
}

/// Whether two handles name the same collider.
pub fn same_collider(x: &ColliderId, y: &ColliderId) -> (r: bool)
    ensures
        r == (*x == *y),
{
    x.index == y.index && x.generation == y.generation
}

/// `balls` holds `id`.
pub open spec fn holds(balls: Seq<ColliderId>, id: ColliderId) -> bool {
    exists|i: int| 0 <= i < balls.len() && balls[i] == id
}

/// The event is the end of a contact in which one of the colliders is a ball's.
pub open spec fn stopped_ball_contact_spec(event: ContactEvent, balls: Seq<ColliderId>) -> bool {
    match event {
        ContactEvent::Stopped(a, b) => holds(balls, a) || holds(balls, b),
        ContactEvent::Started(_, _) => false,
    }
}

/// Whether `event` ends a contact of one of the ball colliders `balls`.
pub fn stopped_ball_contact(event: ContactEvent, balls: &Vec<ColliderId>) -> (r: bool)
    ensures
        r == stopped_ball_contact_spec(event, balls@),
{
    match event {
        ContactEvent::Started(_, _) => false,
        ContactEvent::Stopped(a, b) => {
            let mut i: usize = 0;
            while i < balls.len()
                invariant
                    0 <= i <= balls@.len(),
                    event == ContactEvent::Stopped(a, b),
                    forall|j: int| 0 <= j < i ==> balls@[j] != a && balls@[j] != b,
                decreases balls@.len() - i,
            {
                if same_collider(&balls[i], &a) || same_collider(&balls[i], &b) {
                    proof {
                        if balls@[i as int] == a {
                            assert(holds(balls@, a));
                        } else {
                            assert(holds(balls@, b));
                        }
                    }
                    return true;
                }
                i = i + 1;
            }
            false
        },
    }
}

/// How many of `events` end a contact of a ball collider.
pub open spec fn count_stopped(events: Seq<ContactEvent>, balls: Seq<ColliderId>) -> nat
    decreases events.len(),
{
    if events.len() == 0 {
        0
    } else {
        count_stopped(events.drop_last(), balls) + if stopped_ball_contact_spec(
            events.last(),
            balls,
        ) {
            1nat
        } else {
            0nat
        }
    }
}

/// Looks at each event drained this frame and counts the ends of ball contacts.
pub fn observe_contacts(events: &Vec<ContactEvent>, balls: &Vec<ColliderId>) -> (r: usize)
    ensures
        r == count_stopped(events@, balls@),
{
    let mut count: usize = 0;
    let mut i: usize = 0;
    while i < events.len()
        invariant
            0 <= i <= events@.len(),
            count == count_stopped(events@.subrange(0, i as int), balls@),
            count <= i,
        decreases events@.len() - i,
    {
        assert(events@.subrange(0, i + 1).drop_last() =~= events@.subrange(0, i as int));
        if stopped_ball_contact(events[i], balls) {
            count = count + 1;
        }
        i = i + 1;
    }
    assert(events@.subrange(0, i as int) =~= events@);
    count
}

} // verus!
