//! The world as a transition system: the events that change the registry,
//! and what holds of it after any sequence of them.
//!
//! Every operation that changes a `WorldState` is one of these events, so
//! what is proved here of every sequence of events holds of the world at
//! all times.

use crate::command::{world_after, Command, CommandError};
use crate::ship::TheShip;
use crate::world::{keyed_by_id, registered, with_body};
use vstd::prelude::*;

verus! {

/// One change to the registry.
pub enum WorldEvent<K> {
    /// A connection opens and asks to register the ship.
    Connect(TheShip<K>),
    /// The session of the ship under the identifier closes.
    Disconnect(u128),
    /// A message arrives for the ship under the identifier and decodes to
    /// the command, or is rejected.
    Message(u128, Result<Command, CommandError>),
    /// The integrator replaces the kinematic state of the ship under the
    /// identifier.
    Advance(u128, K),
}

/// The registry after one event.
pub open spec fn step<K>(world: Map<u128, TheShip<K>>, event: WorldEvent<K>) -> Map<
    u128,
    TheShip<K>,
> {
    match event {
        WorldEvent::Connect(ship) => registered(world, ship),
        WorldEvent::Disconnect(id) => world.remove(id),
        WorldEvent::Message(id, decoded) => world_after(world, id, decoded),
        WorldEvent::Advance(id, body) => with_body(world, id, body),
    }
}

/// The registry after a sequence of events, first to last.
pub open spec fn replay<K>(world: Map<u128, TheShip<K>>, events: Seq<WorldEvent<K>>) -> Map<
    u128,
    TheShip<K>,
>
    decreases events.len(),
{
    if events.len() == 0 {
        world
    } else {
        step(replay(world, events.drop_last()), events.last())
    }
}

/// The identifiers of the sessions that are open after a sequence of
/// events that began with none open: a connect opens the session of its
/// ship, a disconnect closes the session it names, and nothing else opens
/// or closes one.
pub open spec fn open_sessions<K>(events: Seq<WorldEvent<K>>) -> Set<u128>
    decreases events.len(),
{
    if events.len() == 0 {
        Set::empty()
    } else {
        match events.last() {
            WorldEvent::Connect(ship) => open_sessions(events.drop_last()).insert(ship.uuid),
            WorldEvent::Disconnect(id) => open_sessions(events.drop_last()).remove(id),
            _ => open_sessions(events.drop_last()),
        }
    }
}

/// Every event is a connect, and each one was admitted: its identifier was
/// not registered when it arrived.
pub open spec fn all_connects_admitted<K>(
    world: Map<u128, TheShip<K>>,
    events: Seq<WorldEvent<K>>,
) -> bool {
    forall|i: int|
        0 <= i < events.len() ==> (#[trigger] events[i]) is Connect && !replay(
            world,
            events.take(i),
        ).contains_key(events[i]->Connect_0.uuid)
}

/// No event closes the session of the ship under `id`.
pub open spec fn never_disconnects<K>(events: Seq<WorldEvent<K>>, id: u128) -> bool {
    forall|i: int| 0 <= i < events.len() ==> #[trigger] events[i] != WorldEvent::<K>::Disconnect(id)
}

/// No event is a message for the ship under `id`.
pub open spec fn never_messages<K>(events: Seq<WorldEvent<K>>, id: u128) -> bool {
    forall|i: int|
        0 <= i < events.len() ==> !((#[trigger] events[i]) is Message && events[i]->Message_0
            == id)
}

/// No event is the integrator's for the ship under `id`.
pub open spec fn never_advances<K>(events: Seq<WorldEvent<K>>, id: u128) -> bool {
    forall|i: int|
        0 <= i < events.len() ==> !((#[trigger] events[i]) is Advance && events[i]->Advance_0
            == id)
}

/// One event keeps every ship filed under its own identifier and the
/// registry finite.
pub proof fn lemma_step_keeps_keys<K>(world: Map<u128, TheShip<K>>, event: WorldEvent<K>)
    requires
        keyed_by_id(world),
        world.dom().finite(),
    ensures
        keyed_by_id(step(world, event)),
        step(world, event).dom().finite(),
{
}

/// Starting from an empty world, the registered ships are at every moment
/// exactly the open sessions: as many ships as sessions, no ship without
/// a session, no session without its ship, and each ship under its own
/// identifier.
pub proof fn lemma_ships_are_open_sessions<K>(events: Seq<WorldEvent<K>>)
    ensures
        replay(Map::<u128, TheShip<K>>::empty(), events).dom() == open_sessions(events),
        open_sessions(events).finite(),
        replay(Map::<u128, TheShip<K>>::empty(), events).len() == open_sessions(events).len(),
        keyed_by_id(replay(Map::<u128, TheShip<K>>::empty(), events)),
    decreases events.len(),
{
    let world = Map::<u128, TheShip<K>>::empty();
    if events.len() > 0 {
        lemma_ships_are_open_sessions(events.drop_last());
        let before = replay(world, events.drop_last());
        match events.last() {
            WorldEvent::Connect(ship) => {
                assert(step(before, events.last()).dom() =~= before.dom().insert(ship.uuid));
            },
            WorldEvent::Disconnect(id) => {},
            WorldEvent::Message(id, decoded) => {
                assert(step(before, events.last()).dom() =~= before.dom());
            },
            WorldEvent::Advance(id, body) => {
                assert(step(before, events.last()).dom() =~= before.dom());
            },
        }
    }
    assert(replay(world, events).dom() =~= open_sessions(events));
}

/// The last of a run of admitted connects adds its ship to what the
/// earlier ones, admitted too, had registered.
proof fn lemma_last_connect_inserts<K>(world: Map<u128, TheShip<K>>, events: Seq<WorldEvent<K>>)
    requires
        all_connects_admitted(world, events),
        events.len() > 0,
    ensures
        all_connects_admitted(world, events.drop_last()),
        events.last() is Connect,
        !replay(world, events.drop_last()).contains_key(events.last()->Connect_0.uuid),
        replay(world, events) == replay(world, events.drop_last()).insert(
            events.last()->Connect_0.uuid,
            events.last()->Connect_0,
        ),
{
    let earlier = events.drop_last();
    let n = events.len() - 1;
    assert(earlier =~= events.take(n));
    assert(events.last() == events[n]);
    assert forall|i: int| 0 <= i < earlier.len() implies (#[trigger] earlier[i]) is Connect
        && !replay(world, earlier.take(i)).contains_key(earlier[i]->Connect_0.uuid) by {
        assert(earlier.take(i) =~= events.take(i));
        assert(earlier[i] == events[i]);
    }
}

/// N connects that were all admitted drew N different identifiers, none of
/// them registered before, and raised the number of ships by exactly N.
pub proof fn lemma_connects_are_distinct_and_counted<K>(
    world: Map<u128, TheShip<K>>,
    events: Seq<WorldEvent<K>>,
)
    requires
        world.dom().finite(),
        all_connects_admitted(world, events),
    ensures
        forall|i: int, j: int|
            0 <= i < j < events.len() ==> (#[trigger] events[i])->Connect_0.uuid
                != (#[trigger] events[j])->Connect_0.uuid,
        forall|i: int|
            0 <= i < events.len() ==> !world.contains_key((#[trigger] events[i])->Connect_0.uuid),
        forall|i: int|
            0 <= i < events.len() ==> replay(world, events).contains_key(
                (#[trigger] events[i])->Connect_0.uuid,
            ),
        forall|id: u128| world.contains_key(id) ==> #[trigger] replay(world, events).contains_key(id),
        replay(world, events).dom().finite(),
        replay(world, events).len() == world.len() + events.len(),
    decreases events.len(),
{
    if events.len() > 0 {
        let earlier = events.drop_last();
        let n = events.len() - 1;
        let before = replay(world, earlier);
        let after = replay(world, events);
        let ship = events.last()->Connect_0;
        lemma_last_connect_inserts(world, events);
        lemma_connects_are_distinct_and_counted(world, earlier);
        assert(events.last() == events[n]);
        assert(after == before.insert(ship.uuid, ship));
        assert forall|i: int| 0 <= i < events.len() implies !world.contains_key(
            (#[trigger] events[i])->Connect_0.uuid,
        ) && after.contains_key(events[i]->Connect_0.uuid) by {
            if i < n {
                assert(events[i] == earlier[i]);
            }
        }
        assert forall|i: int, j: int| 0 <= i < j < events.len() implies (#[trigger] events[i])
            ->Connect_0.uuid != (#[trigger] events[j])->Connect_0.uuid by {
            assert(events[i] == earlier[i]);
            if j < n {
                assert(events[j] == earlier[j]);
            } else {
                assert(before.contains_key(earlier[i]->Connect_0.uuid));
            }
        }
    }
}

/// A disconnect that matches a registered ship lowers the number of ships
/// by exactly one and removes that ship and no other; one that matches
/// none changes nothing, so that closing twice is harmless.
pub proof fn lemma_disconnect_counts_once<K>(world: Map<u128, TheShip<K>>, id: u128)
    requires
        world.dom().finite(),
    ensures
        world.contains_key(id) ==> step(world, WorldEvent::Disconnect(id)).len() == world.len()
            - 1,
        !world.contains_key(id) ==> step(world, WorldEvent::Disconnect(id)) == world,
        !step(world, WorldEvent::Disconnect(id)).contains_key(id),
        forall|other: u128|
            other != id && world.contains_key(other) ==> #[trigger] step(
                world,
                WorldEvent::Disconnect(id),
            ).contains_key(other) && step(world, WorldEvent::Disconnect(id))[other]
                == world[other],
        step(step(world, WorldEvent::Disconnect(id)), WorldEvent::Disconnect(id)) == step(
            world,
            WorldEvent::Disconnect(id),
        ),
{
    let after = step(world, WorldEvent::<K>::Disconnect(id));
    if !world.contains_key(id) {
        assert(after =~= world);
    }
    assert(step(after, WorldEvent::<K>::Disconnect(id)) =~= after);
}

/// Opening a session and closing it again leaves the world as it was: no
/// ship outlives its session.
pub proof fn lemma_connect_then_disconnect<K>(world: Map<u128, TheShip<K>>, ship: TheShip<K>)
    requires
        !world.contains_key(ship.uuid),
    ensures
        step(step(world, WorldEvent::Connect(ship)), WorldEvent::Disconnect(ship.uuid)) == world,
{
    assert(step(step(world, WorldEvent::Connect(ship)), WorldEvent::Disconnect(ship.uuid))
        =~= world);
}

/// A registered ship stays registered, under the same identifier, until
/// its own session closes, whatever else happens: other sessions opening
/// and closing, a second connect that draws its identifier, messages, and
/// ticks.
pub proof fn lemma_ship_stays_until_disconnect<K>(
    world: Map<u128, TheShip<K>>,
    events: Seq<WorldEvent<K>>,
    id: u128,
)
    requires
        world.contains_key(id),
        never_disconnects(events, id),
    ensures
        replay(world, events).contains_key(id),
        replay(world, events)[id].uuid == world[id].uuid,
    decreases events.len(),
{
    if events.len() > 0 {
        let earlier = events.drop_last();
        assert forall|i: int| 0 <= i < earlier.len() implies #[trigger] earlier[i]
            != WorldEvent::<K>::Disconnect(id) by {
            assert(earlier[i] == events[i]);
        }
        lemma_ship_stays_until_disconnect(world, earlier, id);
        assert(events.last() == events[events.len() - 1]);
    }
}

/// Only a message for a ship changes its control surfaces: while its
/// session stays open and no message arrives for it, they stay as they
/// are, whatever happens to other ships and whatever the integrator does.
pub proof fn lemma_only_messages_steer<K>(
    world: Map<u128, TheShip<K>>,
    events: Seq<WorldEvent<K>>,
    id: u128,
)
    requires
        world.contains_key(id),
        never_disconnects(events, id),
        never_messages(events, id),
    ensures
        replay(world, events).contains_key(id),
        replay(world, events)[id].engines == world[id].engines,
        replay(world, events)[id].rotation_engines == world[id].rotation_engines,
    decreases events.len(),
{
    if events.len() > 0 {
        let earlier = events.drop_last();
        assert forall|i: int| 0 <= i < earlier.len() implies #[trigger] earlier[i]
            != WorldEvent::<K>::Disconnect(id) by {
            assert(earlier[i] == events[i]);
        }
        assert forall|i: int| 0 <= i < earlier.len() implies !((#[trigger] earlier[i]) is Message
            && earlier[i]->Message_0 == id) by {
            assert(earlier[i] == events[i]);
        }
        lemma_only_messages_steer(world, earlier, id);
        assert(events.last() == events[events.len() - 1]);
    }
}

/// Only the integrator changes the kinematic state of a ship: while its
/// session stays open and the integrator does not touch it, no message,
/// valid or not, and no other session moves it.
pub proof fn lemma_only_the_integrator_moves<K>(
    world: Map<u128, TheShip<K>>,
    events: Seq<WorldEvent<K>>,
    id: u128,
)
    requires
        world.contains_key(id),
        never_disconnects(events, id),
        never_advances(events, id),
    ensures
        replay(world, events).contains_key(id),
        replay(world, events)[id].body == world[id].body,
    decreases events.len(),
{
    if events.len() > 0 {
        let earlier = events.drop_last();
        assert forall|i: int| 0 <= i < earlier.len() implies #[trigger] earlier[i]
            != WorldEvent::<K>::Disconnect(id) by {
            assert(earlier[i] == events[i]);
        }
        assert forall|i: int| 0 <= i < earlier.len() implies !((#[trigger] earlier[i]) is Advance
            && earlier[i]->Advance_0 == id) by {
            assert(earlier[i] == events[i]);
        }
        lemma_only_the_integrator_moves(world, earlier, id);
        assert(events.last() == events[events.len() - 1]);
    }
}

} // verus!
