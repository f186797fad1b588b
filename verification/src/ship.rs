//! A ship: its identifier, its control surfaces, and the kinematic state
//! that the integrator keeps for it.

use crate::controls::{Engines, RotationEngines};
use crate::ident::{fresh_ship_id, is_random_uuid};
use vstd::prelude::*;

verus! {

/// One ship. `K` is its kinematic state (position, velocity, heading and
/// the like); this crate stores and returns it, and never looks inside.
#[derive(Clone, Copy, Debug, PartialEq)]
pub struct TheShip<K> {
    /// Assigned at creation, never changed afterwards.
    pub uuid: u128,
    pub engines: Engines,
    pub rotation_engines: RotationEngines,
    pub body: K,
}

impl<K> TheShip<K> {
    /// The ship that `with_id` builds: every thruster off.
    pub open spec fn fresh(uuid: u128, body: K) -> TheShip<K> {
        TheShip {
            uuid,
            engines: Engines::spec_idle(),
            rotation_engines: RotationEngines::spec_idle(),
            body,
        }
    }

    /// A ship with the given identifier and kinematic state, and every
    /// thruster off.
    pub fn with_id(uuid: u128, body: K) -> (ship: TheShip<K>)
        ensures
            ship == TheShip::fresh(uuid, body),
    {
        TheShip { uuid, engines: Engines::idle(), rotation_engines: RotationEngines::idle(), body }
    }

    /// A ship with a newly drawn identifier, the given kinematic state, and
    /// every thruster off.
    pub fn new(body: K) -> (ship: TheShip<K>)
        ensures
            ship == TheShip::fresh(ship.uuid, body),
            is_random_uuid(ship.uuid),
    {
        TheShip::with_id(fresh_ship_id(), body)
    }

    /// Whether the two ships differ in nothing but their control surfaces.
    pub open spec fn same_craft(self, other: TheShip<K>) -> bool {
        self.uuid == other.uuid && self.body == other.body
    }
}

} // verus!
