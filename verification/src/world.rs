//! The shared registry of ships, keyed by ship identifier.

use crate::controls::{Engines, RotationEngines};
use crate::ship::TheShip;
use std::collections::HashMap;
use vstd::prelude::*;
use vstd::std_specs::iter::IteratorSpec;

verus! {

broadcast use vstd::std_specs::hash::group_hash_axioms;

/// Why a ship could not be registered.
#[derive(Clone, Copy, Debug, PartialEq, Eq, Structural)]
pub enum WorldError {
    /// A ship with the same identifier is registered already.
    DuplicateId,
}

/// Every ship is filed under its own identifier.
pub open spec fn keyed_by_id<K>(ships: Map<u128, TheShip<K>>) -> bool {
    forall|id: u128| #[trigger] ships.contains_key(id) ==> ships[id].uuid == id
}

/// The registry after an attempt to register `ship`: unchanged if its
/// identifier is taken, else extended by the ship.
pub open spec fn registered<K>(ships: Map<u128, TheShip<K>>, ship: TheShip<K>) -> Map<
    u128,
    TheShip<K>,
> {
    if ships.contains_key(ship.uuid) {
        ships
    } else {
        ships.insert(ship.uuid, ship)
    }
}

/// The registry after the translational thrusters of the ship under `id`
/// were set to `engines`: unchanged if no such ship is registered.
pub open spec fn with_engines<K>(ships: Map<u128, TheShip<K>>, id: u128, engines: Engines) -> Map<
    u128,
    TheShip<K>,
> {
    if ships.contains_key(id) {
        ships.insert(id, TheShip { engines, ..ships[id] })
    } else {
        ships
    }
}

/// The registry after the rotation thrusters of the ship under `id` were
/// set to `rotation_engines`: unchanged if no such ship is registered.
pub open spec fn with_rotation_engines<K>(
    ships: Map<u128, TheShip<K>>,
    id: u128,
    rotation_engines: RotationEngines,
) -> Map<u128, TheShip<K>> {
    if ships.contains_key(id) {
        ships.insert(id, TheShip { rotation_engines, ..ships[id] })
    } else {
        ships
    }
}

/// The registry after the kinematic state of the ship under `id` was
/// replaced by `body`: unchanged if no such ship is registered.
pub open spec fn with_body<K>(ships: Map<u128, TheShip<K>>, id: u128, body: K) -> Map<
    u128,
    TheShip<K>,
> {
    if ships.contains_key(id) {
        ships.insert(id, TheShip { body, ..ships[id] })
    } else {
        ships
    }
}

/// `ships` lists every ship of `world` exactly once.
pub open spec fn lists_each_once<K>(ships: Seq<TheShip<K>>, world: Map<u128, TheShip<K>>) -> bool {
    &&& ships.len() == world.len()
    &&& forall|i: int|
        #![trigger ships[i]]
        0 <= i < ships.len() ==> world.contains_key(ships[i].uuid) && world[ships[i].uuid]
            == ships[i]
    &&& forall|i: int, j: int|
        #![trigger ships[i], ships[j]]
        0 <= i < j < ships.len() ==> ships[i].uuid != ships[j].uuid
    &&& forall|id: u128| #[trigger] world.contains_key(id) ==> ships.contains(world[id])
}

/// `after` is `before` with every ship advanced once by `integrate`: the
/// same ships are registered, each keeps its identifier and its control
/// surfaces, and the kinematic state of each is one that `integrate`
/// returns for the ship as it was before.
pub open spec fn advanced_by<K, F: Fn(TheShip<K>) -> K>(
    before: Map<u128, TheShip<K>>,
    after: Map<u128, TheShip<K>>,
    integrate: F,
) -> bool {
    &&& after.dom() == before.dom()
    &&& forall|id: u128| #[trigger]
        before.contains_key(id) ==> {
            &&& after[id].uuid == before[id].uuid
            &&& after[id].engines == before[id].engines
            &&& after[id].rotation_engines == before[id].rotation_engines
            &&& call_ensures(integrate, (before[id],), after[id].body)
        }
}

/// What the registry keeps of a ship besides its identifier, which is the
/// key.
struct Berth<K> {
    engines: Engines,
    rotation_engines: RotationEngines,
    body: K,
}

impl<K> Berth<K> {
    spec fn ship(self, id: u128) -> TheShip<K> {
        TheShip {
            uuid: id,
            engines: self.engines,
            rotation_engines: self.rotation_engines,
            body: self.body,
        }
    }
}

/// The ships of all open sessions. Its view is the map from identifier to
/// ship.
pub struct WorldState<K> {
    ships: HashMap<u128, Berth<K>>,
}

impl<K> View for WorldState<K> {
    type V = Map<u128, TheShip<K>>;

    closed spec fn view(&self) -> Map<u128, TheShip<K>> {
        Map::new(|id: u128| self.ships@.contains_key(id), |id: u128| self.ships@[id].ship(id))
    }
}

impl<K> WorldState<K> {
    /// Every ship in the registry is filed under its own identifier, and
    /// the registry is finite.
    pub proof fn lemma_keyed_by_id(&self)
        ensures
            keyed_by_id(self@),
            self@.dom().finite(),
    {
        assert(self@.dom() =~= self.ships@.dom());
    }

    /// A world without ships.
    pub fn new() -> (world: WorldState<K>)
        ensures
            world@ == Map::<u128, TheShip<K>>::empty(),
    {
        let world = WorldState { ships: HashMap::new() };
        assert(world@ =~= Map::<u128, TheShip<K>>::empty());
        world
    }

    /// How many ships are registered.
    pub fn ship_count(&self) -> (n: usize)
        ensures
            n == self@.len(),
    {
        assert(self@.dom() =~= self.ships@.dom());
        self.ships.len()
    }

    /// Whether a ship is registered under `id`.
    pub fn has_ship(&self, id: u128) -> (found: bool)
        ensures
            found == self@.contains_key(id),
    {
        self.ships.contains_key(&id)
    }

    /// Registers `ship` under its own identifier. Fails, and changes
    /// nothing, if that identifier is registered already.
    pub fn add_ship(&mut self, ship: TheShip<K>) -> (r: Result<u128, WorldError>)
        ensures
            final(self)@ == registered(old(self)@, ship),
            old(self)@.contains_key(ship.uuid) ==> r == Err::<u128, WorldError>(
                WorldError::DuplicateId,
            ),
            !old(self)@.contains_key(ship.uuid) ==> r == Ok::<u128, WorldError>(ship.uuid),
    {
        let id = ship.uuid;
        if self.ships.contains_key(&id) {
            Err(WorldError::DuplicateId)
        } else {
            let berth = Berth {
                engines: ship.engines,
                rotation_engines: ship.rotation_engines,
                body: ship.body,
            };
            self.ships.insert(id, berth);
            assert(self@ =~= old(self)@.insert(id, ship));
            Ok(id)
        }
    }

    /// Removes the ship registered under `id` and reports whether there was
    /// one. Removing an identifier that is not registered changes nothing.
    pub fn remove_ship(&mut self, id: u128) -> (removed: bool)
        ensures
            final(self)@ == old(self)@.remove(id),
            removed == old(self)@.contains_key(id),
    {
        let gone = self.ships.remove(&id);
        assert(self@ =~= old(self)@.remove(id));
        gone.is_some()
    }

    /// The ship registered under `id`, if there is one.
    pub fn get_ship(&self, id: u128) -> (r: Option<TheShip<K>>) where K: Copy
        ensures
            self@.contains_key(id) ==> r == Some(self@[id]) && self@[id].uuid == id,
            !self@.contains_key(id) ==> r is None,
    {
        match self.ships.get(&id) {
            Some(berth) => Some(
                TheShip {
                    uuid: id,
                    engines: berth.engines,
                    rotation_engines: berth.rotation_engines,
                    body: berth.body,
                },
            ),
            None => None,
        }
    }

    /// The identifiers of all registered ships, each once, in no particular
    /// order.
    pub fn ship_ids(&self) -> (ids: Vec<u128>)
        ensures
            ids@.no_duplicates(),
            ids@.to_set() == self@.dom(),
    {
        let mut ids: Vec<u128> = Vec::new();
        let ghost keys = self.ships.keys().remaining();
        for k in it: self.ships.keys()
            invariant
                it.seq() == keys,
                ids@.len() == it.index(),
                forall|j: int| 0 <= j < ids@.len() ==> ids@[j] == *keys[j],
        {
            ids.push(*k);
        }
        assert(ids@ =~= keys.unref());
        assert(self@.dom() =~= self.ships@.dom());
        ids
    }

    /// Sets the translational thrusters of the ship under `id` and reports
    /// whether there is such a ship. Nothing else about the ship changes,
    /// and no other ship changes.
    pub fn set_engines(&mut self, id: u128, engines: Engines) -> (found: bool)
        ensures
            found == old(self)@.contains_key(id),
            final(self)@ == with_engines(old(self)@, id, engines),
    {
        match self.ships.remove(&id) {
            Some(berth) => {
                let berth = Berth {
                    engines,
                    rotation_engines: berth.rotation_engines,
                    body: berth.body,
                };
                self.ships.insert(id, berth);
                assert(self@ =~= with_engines(old(self)@, id, engines));
                true
            },
            None => {
                assert(self@ =~= old(self)@);
                false
            },
        }
    }

    /// Sets the rotation thrusters of the ship under `id` and reports
    /// whether there is such a ship. Nothing else about the ship changes,
    /// and no other ship changes.
    pub fn set_rotation_engines(&mut self, id: u128, rotation_engines: RotationEngines) -> (found:
        bool)
        ensures
            found == old(self)@.contains_key(id),
            final(self)@ == with_rotation_engines(old(self)@, id, rotation_engines),
    {
        match self.ships.remove(&id) {
            Some(berth) => {
                let berth = Berth { engines: berth.engines, rotation_engines, body: berth.body };
                self.ships.insert(id, berth);
                assert(self@ =~= with_rotation_engines(old(self)@, id, rotation_engines));
                true
            },
            None => {
                assert(self@ =~= old(self)@);
                false
            },
        }
    }

    /// Replaces the kinematic state of the ship under `id` and reports
    /// whether there is such a ship. The ship's control surfaces stay as
    /// they are, and no other ship changes.
    pub fn set_body(&mut self, id: u128, body: K) -> (found: bool)
        ensures
            found == old(self)@.contains_key(id),
            final(self)@ == with_body(old(self)@, id, body),
    {
        match self.ships.remove(&id) {
            Some(berth) => {
                let berth = Berth {
                    engines: berth.engines,
                    rotation_engines: berth.rotation_engines,
                    body,
                };
                self.ships.insert(id, berth);
                assert(self@ =~= with_body(old(self)@, id, body));
                true
            },
            None => {
                assert(self@ =~= old(self)@);
                false
            },
        }
    }

    /// A copy of every registered ship, each once, in no particular order.
    pub fn snapshot_ships(&self) -> (ships: Vec<TheShip<K>>) where K: Copy
        ensures
            lists_each_once(ships@, self@),
    {
        let mut ships: Vec<TheShip<K>> = Vec::new();
        let ghost pairs = self.ships.iter().remaining();
        for entry in it: self.ships.iter()
            invariant
                it.seq() == pairs,
                pairs.no_duplicates(),
                ships@.len() == it.index(),
                forall|j: int|
                    0 <= j < ships@.len() ==> ships@[j] == (*pairs[j].1).ship(*pairs[j].0),
        {
            let (id, berth) = entry;
            ships.push(
                TheShip {
                    uuid: *id,
                    engines: berth.engines,
                    rotation_engines: berth.rotation_engines,
                    body: berth.body,
                },
            );
        }
        proof {
            assert(self@.dom() =~= self.ships@.dom());
            assert(ships@.len() == self@.len());
            assert forall|i: int| 0 <= i < ships@.len() implies self@.contains_key(
                (#[trigger] ships@[i]).uuid,
            ) && self@[ships@[i].uuid] == ships@[i] by {
                assert(self.ships@.contains_key(*pairs[i].0));
            }
            assert forall|i: int, j: int| 0 <= i < j < ships@.len() implies (#[trigger] ships@[i]).uuid
                != (#[trigger] ships@[j]).uuid by {
                assert(self.ships@.contains_key(*pairs[i].0));
                assert(self.ships@.contains_key(*pairs[j].0));
                assert(pairs[i] != pairs[j]);
            }
            assert forall|id: u128| #[trigger] self@.contains_key(id) implies ships@.contains(
                self@[id],
            ) by {
                let berth = self.ships@[id];
                assert(pairs.contains((&id, &berth)));
                let j = choose|j: int| 0 <= j < pairs.len() && pairs[j] == (&id, &berth);
                assert(ships@[j] == self@[id]);
            }
        }
        ships
    }

    /// One tick: replaces the kinematic state of every ship by what
    /// `integrate` returns for that ship. Each ship is advanced exactly
    /// once, from its state before the tick; no ship is added or removed,
    /// and no control surface changes.
    pub fn update<F: Fn(TheShip<K>) -> K>(&mut self, integrate: F) where K: Copy
        requires
            forall|id: u128| #[trigger]
                old(self)@.contains_key(id) ==> call_requires(integrate, (old(self)@[id],)),
        ensures
            advanced_by(old(self)@, final(self)@, integrate),
    {
        let ids = self.ship_ids();
        let mut i: usize = 0;
        while i < ids.len()
            invariant
                0 <= i <= ids@.len(),
                ids@.no_duplicates(),
                ids@.to_set() == old(self)@.dom(),
                self@.dom() == old(self)@.dom(),
                forall|id: u128| #[trigger]
                    old(self)@.contains_key(id) ==> call_requires(integrate, (old(self)@[id],)),
                forall|j: int|
                    i <= j < ids@.len() ==> self@[#[trigger] ids@[j]] == old(self)@[ids@[j]],
                forall|j: int|
                    #![trigger ids@[j]]
                    0 <= j < i ==> {
                        let id = ids@[j];
                        &&& self@[id].uuid == old(self)@[id].uuid
                        &&& self@[id].engines == old(self)@[id].engines
                        &&& self@[id].rotation_engines == old(self)@[id].rotation_engines
                        &&& call_ensures(integrate, (old(self)@[id],), self@[id].body)
                    },
            decreases ids@.len() - i,
        {
            let id = ids[i];
            let ghost before = self@;
            assert(ids@.to_set().contains(ids@[i as int]));
            assert(old(self)@.contains_key(id));
            match self.get_ship(id) {
                Some(ship) => {
                    let body = integrate(ship);
                    self.set_body(id, body);
                },
                None => {},
            }
            assert(self@.dom() =~= old(self)@.dom());
            assert forall|j: int| i < j < ids@.len() implies self@[#[trigger] ids@[j]] == old(
                self,
            )@[ids@[j]] by {
                assert(ids@[j] != ids@[i as int]);
                assert(before[ids@[j]] == old(self)@[ids@[j]]);
            }
            assert forall|j: int| #![trigger ids@[j]] 0 <= j < i implies {
                let id = ids@[j];
                &&& self@[id].uuid == old(self)@[id].uuid
                &&& self@[id].engines == old(self)@[id].engines
                &&& self@[id].rotation_engines == old(self)@[id].rotation_engines
                &&& call_ensures(integrate, (old(self)@[id],), self@[id].body)
            } by {
                assert(ids@[j] != ids@[i as int]);
                assert(self@[ids@[j]] == before[ids@[j]]);
            }
            i = i + 1;
        }
        assert forall|id: u128| #[trigger] old(self)@.contains_key(id) implies {
            &&& self@[id].uuid == old(self)@[id].uuid
            &&& self@[id].engines == old(self)@[id].engines
            &&& self@[id].rotation_engines == old(self)@[id].rotation_engines
            &&& call_ensures(integrate, (old(self)@[id],), self@[id].body)
        } by {
            assert(ids@.to_set().contains(id));
            let j = choose|j: int| 0 <= j < ids@.len() && ids@[j] == id;
            assert(ids@[j] == id);
        }
    }
}

} // verus!
