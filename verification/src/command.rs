//! Inbound control commands: reading them out of a JSON document,
//! validating them, and applying them to a ship.
//!
//! A command is a JSON object with a member `data`, which may hold an
//! `engines` object, a `rotation` object, or both. A group that is present
//! must give every one of its flags as a boolean; otherwise the whole
//! command is rejected and nothing changes.

use crate::controls::{Engines, RotationEngines};
use crate::json::{json_bool, json_document, json_member, member, parse_document};
use crate::ship::TheShip;
use crate::world::WorldState;
use serde_json::Value;
use vstd::prelude::*;

verus! {

/// A validated command: for each group of thrusters, the new setting of the
/// whole group, or `None` to leave the group as it is.
#[derive(Clone, Copy, Debug, PartialEq, Eq, Structural)]
pub struct Command {
    pub engines: Option<Engines>,
    pub rotation: Option<RotationEngines>,
}

/// Why a message was not accepted as a command.
#[derive(Clone, Copy, Debug, PartialEq, Eq, Structural)]
pub enum CommandError {
    /// The text is not a JSON document.
    InvalidJson,
    /// `engines` is present, but one of its six flags is missing or is not
    /// a boolean.
    MalformedEngines,
    /// `rotation` is present, `engines` is absent or well-formed, and one
    /// of the four rotation flags is missing or is not a boolean.
    MalformedRotation,
}

/// The flags of an `engines` object as they were found: `Some` for a member
/// that is present and a boolean, `None` for one that is missing or of
/// another type.
#[derive(Clone, Copy, Debug, PartialEq, Eq, Structural)]
pub struct EngineFields {
    pub front: Option<bool>,
    pub back: Option<bool>,
    pub left: Option<bool>,
    pub right: Option<bool>,
    pub up: Option<bool>,
    pub down: Option<bool>,
}

/// The flags of a `rotation` object as they were found.
#[derive(Clone, Copy, Debug, PartialEq, Eq, Structural)]
pub struct RotationFields {
    pub left: Option<bool>,
    pub right: Option<bool>,
    pub up: Option<bool>,
    pub down: Option<bool>,
}

/// The groups of a command as they were found: `None` for a group that the
/// message does not have.
#[derive(Clone, Copy, Debug, PartialEq, Eq, Structural)]
pub struct CommandFields {
    pub engines: Option<EngineFields>,
    pub rotation: Option<RotationFields>,
}

impl EngineFields {
    /// Every flag is present and a boolean.
    pub open spec fn complete(self) -> bool {
        &&& self.front is Some
        &&& self.back is Some
        &&& self.left is Some
        &&& self.right is Some
        &&& self.up is Some
        &&& self.down is Some
    }

    /// The setting that a complete group describes.
    pub open spec fn flags(self) -> Engines
        recommends
            self.complete(),
    {
        Engines {
            front: self.front->0,
            back: self.back->0,
            left: self.left->0,
            right: self.right->0,
            up: self.up->0,
            down: self.down->0,
        }
    }

    /// The setting that the group describes, if the group is complete.
    pub fn validate(&self) -> (r: Option<Engines>)
        ensures
            self.complete() ==> r == Some(self.flags()),
            !self.complete() ==> r is None,
    {
        match (self.front, self.back, self.left, self.right, self.up, self.down) {
            (Some(front), Some(back), Some(left), Some(right), Some(up), Some(down)) => Some(
                Engines { front, back, left, right, up, down },
            ),
            _ => None,
        }
    }
}

impl RotationFields {
    /// Every flag is present and a boolean.
    pub open spec fn complete(self) -> bool {
        &&& self.left is Some
        &&& self.right is Some
        &&& self.up is Some
        &&& self.down is Some
    }

    /// The setting that a complete group describes.
    pub open spec fn flags(self) -> RotationEngines
        recommends
            self.complete(),
    {
        RotationEngines {
            left: self.left->0,
            right: self.right->0,
            up: self.up->0,
            down: self.down->0,
        }
    }

    /// The setting that the group describes, if the group is complete.
    pub fn validate(&self) -> (r: Option<RotationEngines>)
        ensures
            self.complete() ==> r == Some(self.flags()),
            !self.complete() ==> r is None,
    {
        match (self.left, self.right, self.up, self.down) {
            (Some(left), Some(right), Some(up), Some(down)) => Some(
                RotationEngines { left, right, up, down },
            ),
            _ => None,
        }
    }
}

impl CommandFields {
    /// The command that the groups describe. A group that is present and
    /// incomplete makes the whole command malformed; `engines` is judged
    /// first.
    pub open spec fn checked(self) -> Result<Command, CommandError> {
        if self.engines is Some && !self.engines->0.complete() {
            Err(CommandError::MalformedEngines)
        } else if self.rotation is Some && !self.rotation->0.complete() {
            Err(CommandError::MalformedRotation)
        } else {
            Ok(
                Command {
                    engines: match self.engines {
                        Some(group) => Some(group.flags()),
                        None => None,
                    },
                    rotation: match self.rotation {
                        Some(group) => Some(group.flags()),
                        None => None,
                    },
                },
            )
        }
    }

    /// Validates the groups that were found.
    pub fn validate(&self) -> (r: Result<Command, CommandError>)
        ensures
            r == self.checked(),
    {
        let engines = match self.engines {
            Some(group) => match group.validate() {
                Some(flags) => Some(flags),
                None => {
                    return Err(CommandError::MalformedEngines);
                },
            },
            None => None,
        };
        let rotation = match self.rotation {
            Some(group) => match group.validate() {
                Some(flags) => Some(flags),
                None => {
                    return Err(CommandError::MalformedRotation);
                },
            },
            None => None,
        };
        Ok(Command { engines, rotation })
    }
}

/// The boolean found in `object` under `key`: `None` if `object` has no
/// such member or the member is not a boolean.
pub open spec fn flag_of(object: Value, key: Seq<char>) -> Option<bool> {
    match json_member(object, key) {
        Some(found) => json_bool(found),
        None => None,
    }
}

/// The six flags of an `engines` object.
pub open spec fn engine_fields_of(object: Value) -> EngineFields {
    EngineFields {
        front: flag_of(object, "front"@),
        back: flag_of(object, "back"@),
        left: flag_of(object, "left"@),
        right: flag_of(object, "right"@),
        up: flag_of(object, "up"@),
        down: flag_of(object, "down"@),
    }
}

/// The four flags of a `rotation` object.
pub open spec fn rotation_fields_of(object: Value) -> RotationFields {
    RotationFields {
        left: flag_of(object, "left"@),
        right: flag_of(object, "right"@),
        up: flag_of(object, "up"@),
        down: flag_of(object, "down"@),
    }
}

/// The groups of the command in `document`: the members `engines` and
/// `rotation` of its member `data`. A document without `data` has neither.
pub open spec fn command_fields_of(document: Value) -> CommandFields {
    match json_member(document, "data"@) {
        Some(data) => CommandFields {
            engines: match json_member(data, "engines"@) {
                Some(object) => Some(engine_fields_of(object)),
                None => None,
            },
            rotation: match json_member(data, "rotation"@) {
                Some(object) => Some(rotation_fields_of(object)),
                None => None,
            },
        },
        None => CommandFields { engines: None, rotation: None },
    }
}

/// What a message decodes to: the validated command of its document, or
/// the reason for which it is rejected.
pub open spec fn command_of_text(text: Seq<char>) -> Result<Command, CommandError> {
    match json_document(text) {
        Some(document) => command_fields_of(document).checked(),
        None => Err(CommandError::InvalidJson),
    }
}

fn read_flag(object: &Value, key: &str) -> (r: Option<bool>)
    ensures
        r == flag_of(*object, key@),
{
    match member(object, key) {
        Some(found) => found.as_bool(),
        None => None,
    }
}

fn read_engine_fields(object: &Value) -> (r: EngineFields)
    ensures
        r == engine_fields_of(*object),
{
    EngineFields {
        front: read_flag(object, "front"),
        back: read_flag(object, "back"),
        left: read_flag(object, "left"),
        right: read_flag(object, "right"),
        up: read_flag(object, "up"),
        down: read_flag(object, "down"),
    }
}

fn read_rotation_fields(object: &Value) -> (r: RotationFields)
    ensures
        r == rotation_fields_of(*object),
{
    RotationFields {
        left: read_flag(object, "left"),
        right: read_flag(object, "right"),
        up: read_flag(object, "up"),
        down: read_flag(object, "down"),
    }
}

/// Reads the groups of a command out of a parsed document.
pub fn read_command_fields(document: &Value) -> (r: CommandFields)
    ensures
        r == command_fields_of(*document),
{
    match member(document, "data") {
        Some(data) => CommandFields {
            engines: match member(data, "engines") {
                Some(object) => Some(read_engine_fields(object)),
                None => None,
            },
            rotation: match member(data, "rotation") {
                Some(object) => Some(read_rotation_fields(object)),
                None => None,
            },
        },
        None => CommandFields { engines: None, rotation: None },
    }
}

/// Decodes one inbound message.
pub fn decode_command(text: &str) -> (r: Result<Command, CommandError>)
    ensures
        r == command_of_text(text@),
{
    match parse_document(text) {
        Ok(document) => read_command_fields(&document).validate(),
        Err(_) => Err(CommandError::InvalidJson),
    }
}

impl Command {
    /// The command changes nothing: it has neither group.
    pub open spec fn is_empty(self) -> bool {
        self.engines is None && self.rotation is None
    }

    /// `ship` after the command: each group that the command has replaces
    /// the ship's group as a whole; identifier and kinematic state stay.
    pub open spec fn steer<K>(self, ship: TheShip<K>) -> TheShip<K> {
        TheShip {
            engines: match self.engines {
                Some(engines) => engines,
                None => ship.engines,
            },
            rotation_engines: match self.rotation {
                Some(rotation) => rotation,
                None => ship.rotation_engines,
            },
            ..ship
        }
    }
}

/// The registry after `command` was applied to the ship under `id`:
/// unchanged if no such ship is registered.
pub open spec fn steered<K>(world: Map<u128, TheShip<K>>, id: u128, command: Command) -> Map<
    u128,
    TheShip<K>,
> {
    if world.contains_key(id) {
        world.insert(id, command.steer(world[id]))
    } else {
        world
    }
}

/// Applies `command` to the ship under `id` and reports whether there is
/// such a ship. A ship that is gone makes the command a no-op.
pub fn apply_command<K>(world: &mut WorldState<K>, id: u128, command: &Command) -> (found: bool)
    ensures
        found == old(world)@.contains_key(id),
        final(world)@ == steered(old(world)@, id, *command),
{
    if !world.has_ship(id) {
        return false;
    }
    if let Some(engines) = command.engines {
        world.set_engines(id, engines);
    }
    if let Some(rotation) = command.rotation {
        world.set_rotation_engines(id, rotation);
    }
    assert(world@ =~= steered(old(world)@, id, *command));
    true
}

/// What became of an inbound message.
#[derive(Clone, Copy, Debug, PartialEq, Eq, Structural)]
pub enum Outcome {
    /// The command was applied to the ship.
    Applied,
    /// The message is valid JSON without an `engines` or `rotation` group:
    /// there was nothing to apply.
    Ignored,
    /// The command is valid, but the ship is no longer registered.
    NoShip,
    /// The message was rejected.
    Rejected(CommandError),
}

/// The outcome of a message that decoded to `decoded`, sent for the ship
/// under `id`.
pub open spec fn outcome_of<K>(
    world: Map<u128, TheShip<K>>,
    id: u128,
    decoded: Result<Command, CommandError>,
) -> Outcome {
    match decoded {
        Err(reason) => Outcome::Rejected(reason),
        Ok(command) => if command.is_empty() {
            Outcome::Ignored
        } else if world.contains_key(id) {
            Outcome::Applied
        } else {
            Outcome::NoShip
        },
    }
}

/// The registry after a message that decoded to `decoded`, sent for the
/// ship under `id`.
pub open spec fn world_after<K>(
    world: Map<u128, TheShip<K>>,
    id: u128,
    decoded: Result<Command, CommandError>,
) -> Map<u128, TheShip<K>> {
    match decoded {
        Ok(command) => steered(world, id, command),
        Err(_) => world,
    }
}

/// Acts on a decoded message for the ship under `id`. A rejected message
/// changes nothing.
pub fn handle_decoded<K>(
    world: &mut WorldState<K>,
    id: u128,
    decoded: Result<Command, CommandError>,
) -> (r: Outcome)
    ensures
        r == outcome_of(old(world)@, id, decoded),
        final(world)@ == world_after(old(world)@, id, decoded),
        decoded is Err ==> final(world)@ == old(world)@,
{
    match decoded {
        Err(reason) => Outcome::Rejected(reason),
        Ok(command) => {
            let found = apply_command(world, id, &command);
            if command.engines.is_none() && command.rotation.is_none() {
                Outcome::Ignored
            } else if found {
                Outcome::Applied
            } else {
                Outcome::NoShip
            }
        },
    }
}

/// Decodes one inbound message and acts on it for the ship under `id`.
/// A message that is rejected changes nothing.
pub fn handle_message<K>(world: &mut WorldState<K>, id: u128, text: &str) -> (r: Outcome)
    ensures
        r == outcome_of(old(world)@, id, command_of_text(text@)),
        final(world)@ == world_after(old(world)@, id, command_of_text(text@)),
        r is Rejected ==> final(world)@ == old(world)@,
{
    handle_decoded(world, id, decode_command(text))
}

/// A group that is present but lacks a flag, or has one that is not a
/// boolean, gets the command rejected, and a rejected command leaves the
/// registry, and so every control surface in it, as it was.
pub proof fn lemma_incomplete_group_changes_nothing<K>(
    world: Map<u128, TheShip<K>>,
    id: u128,
    fields: CommandFields,
)
    requires
        (fields.engines is Some && !fields.engines->0.complete()) || (fields.rotation is Some
            && !fields.rotation->0.complete()),
    ensures
        fields.checked() is Err,
        outcome_of(world, id, fields.checked()) is Rejected,
        world_after(world, id, fields.checked()) == world,
{
}

/// Whatever a message decodes to, it changes at most the control surfaces
/// of the one ship it is sent for: the same ships stay registered, each
/// with its identifier and kinematic state, and every other ship is
/// untouched.
pub proof fn lemma_message_touches_one_ship<K>(
    world: Map<u128, TheShip<K>>,
    id: u128,
    decoded: Result<Command, CommandError>,
)
    ensures
        world_after(world, id, decoded).dom() == world.dom(),
        forall|other: u128|
            world.contains_key(other) && other != id ==> #[trigger] world_after(
                world,
                id,
                decoded,
            )[other] == world[other],
        world.contains_key(id) ==> world_after(world, id, decoded)[id].same_craft(world[id]),
{
    assert(world_after(world, id, decoded).dom() =~= world.dom());
}

} // verus!
