//! The lifecycle of a session: a connection that opens registers a ship,
//! its messages steer that ship, its broadcast cycle reads the world, and
//! closing it removes the ship again.

use crate::command::{command_of_text, handle_message, outcome_of, Outcome};
use crate::ident::{fresh_ship_id, is_random_uuid};
use crate::ship::TheShip;
use crate::timeline::{step, WorldEvent};
use crate::world::{lists_each_once, WorldError, WorldState};
use vstd::prelude::*;

verus! {

/// An open session. It is made by opening and consumed by closing, so a
/// closed session can neither steer nor read.
#[derive(Debug)]
pub struct Session {
    ship_id: u128,
}

/// What one broadcast cycle sends to a client, apart from the positions of
/// the celestial bodies: the client's own ship and every ship in the world.
#[derive(Debug)]
pub struct BroadcastFrame<K> {
    pub ship: TheShip<K>,
    pub ships: Vec<TheShip<K>>,
}

impl Session {
    /// The identifier of the session's ship.
    pub closed spec fn spec_ship_id(&self) -> u128 {
        self.ship_id
    }

    /// The identifier of the session's ship.
    #[verifier::when_used_as_spec(spec_ship_id)]
    pub fn ship_id(&self) -> (id: u128)
        ensures
            id == self.ship_id(),
    {
        self.ship_id
    }

    /// Opens a session for a ship with the identifier `id`, the kinematic
    /// state `body` and every thruster off. Fails, and changes nothing, if
    /// `id` is registered already.
    pub fn open_with_id<K>(world: &mut WorldState<K>, id: u128, body: K) -> (r: Result<
        Session,
        WorldError,
    >)
        ensures
            final(world)@ == step(old(world)@, WorldEvent::Connect(TheShip::fresh(id, body))),
            old(world)@.contains_key(id) ==> r is Err && r->Err_0 == WorldError::DuplicateId,
            !old(world)@.contains_key(id) ==> r is Ok && r->Ok_0.ship_id() == id,
    {
        match world.add_ship(TheShip::with_id(id, body)) {
            Ok(ship_id) => Ok(Session { ship_id }),
            Err(reason) => Err(reason),
        }
    }

    /// Opens a session for a ship with a newly drawn identifier. The draw
    /// is random: in the event that it repeats a registered identifier the
    /// session is refused and the world stays as it was. That cannot
    /// happen while no registered identifier is a random UUID, so not in
    /// an empty world.
    pub fn open<K>(world: &mut WorldState<K>, body: K) -> (r: Result<Session, WorldError>)
        ensures
            match r {
                Ok(session) => {
                    &&& !old(world)@.contains_key(session.ship_id())
                    &&& is_random_uuid(session.ship_id())
                    &&& final(world)@ == old(world)@.insert(
                        session.ship_id(),
                        TheShip::fresh(session.ship_id(), body),
                    )
                },
                Err(reason) => {
                    &&& reason == WorldError::DuplicateId
                    &&& final(world)@ == old(world)@
                    &&& exists|id: u128| #[trigger]
                        old(world)@.contains_key(id) && is_random_uuid(id)
                },
            },
    {
        Session::open_with_id(world, fresh_ship_id(), body)
    }

    /// Decodes one inbound message and applies it to the session's ship.
    pub fn on_message<K>(&self, world: &mut WorldState<K>, text: &str) -> (r: Outcome)
        ensures
            r == outcome_of(old(world)@, self.ship_id(), command_of_text(text@)),
            final(world)@ == step(
                old(world)@,
                WorldEvent::Message(self.ship_id(), command_of_text(text@)),
            ),
            r is Rejected ==> final(world)@ == old(world)@,
    {
        handle_message(world, self.ship_id, text)
    }

    /// Closes the session: removes its ship and reports whether it was
    /// still registered.
    pub fn close<K>(self, world: &mut WorldState<K>) -> (removed: bool)
        ensures
            final(world)@ == step(old(world)@, WorldEvent::Disconnect(self.ship_id())),
            removed == old(world)@.contains_key(self.ship_id()),
    {
        world.remove_ship(self.ship_id)
    }
}

/// One broadcast cycle for the session of the ship under `ship_id`: a copy
/// of that ship and of every ship, taken together so that the caller can
/// release the world before it sends. `None`, the signal for the cycle to
/// end, if the ship is no longer registered.
pub fn broadcast_frame<K: Copy>(world: &WorldState<K>, ship_id: u128) -> (r: Option<
    BroadcastFrame<K>,
>)
    ensures
        r is Some <==> world@.contains_key(ship_id),
        r matches Some(frame) ==> frame.ship == world@[ship_id] && frame.ship.uuid == ship_id
            && lists_each_once(frame.ships@, world@),
{
    match world.get_ship(ship_id) {
        Some(ship) => Some(BroadcastFrame { ship, ships: world.snapshot_ships() }),
        None => None,
    }
}

} // verus!
