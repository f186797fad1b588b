use solar_sim::command::{
    apply_command, decode_command, handle_decoded, handle_message, read_command_fields, Command,
    CommandError, CommandFields, EngineFields, Outcome, RotationFields,
};
use solar_sim::controls::{Engines, RotationEngines};
use solar_sim::ship::TheShip;
use solar_sim::world::WorldState;

const ENGINES_BACK_DOWN: &str = "{\"data\": {\"engines\": {\"front\": false, \"back\": true, \
    \"left\": false, \"right\": false, \"up\": false, \"down\": true}}}";
const ROTATION_LEFT_UP: &str =
    "{\"data\": {\"rotation\": {\"left\": true, \"right\": false, \"up\": true, \"down\": false}}}";
const ROTATION_WITHOUT_RIGHT: &str =
    "{\"data\": {\"rotation\": {\"left\": true, \"up\": true, \"down\": false}}}";

fn back_down() -> Engines {
    Engines { front: false, back: true, left: false, right: false, up: false, down: true }
}

fn left_up() -> RotationEngines {
    RotationEngines { left: true, right: false, up: true, down: false }
}

fn world_with_ship(id: u128) -> WorldState<u32> {
    let mut world = WorldState::new();
    assert_eq!(world.add_ship(TheShip::with_id(id, 1u32)), Ok(id));
    world
}

#[test]
fn decodes_an_engines_command() {
    assert_eq!(
        decode_command(ENGINES_BACK_DOWN),
        Ok(Command { engines: Some(back_down()), rotation: None })
    );
}

#[test]
fn decodes_a_rotation_command() {
    assert_eq!(
        decode_command(ROTATION_LEFT_UP),
        Ok(Command { engines: None, rotation: Some(left_up()) })
    );
}

#[test]
fn decodes_both_groups_together() {
    let text = "{\"data\": {\"rotation\": {\"left\": true, \"right\": false, \"up\": true, \
        \"down\": false}, \"engines\": {\"front\": false, \"back\": true, \"left\": false, \
        \"right\": false, \"up\": false, \"down\": true}}}";
    assert_eq!(
        decode_command(text),
        Ok(Command { engines: Some(back_down()), rotation: Some(left_up()) })
    );
}

#[test]
fn members_beyond_the_flags_are_ignored() {
    let text = "{\"kind\": \"steer\", \"data\": {\"seq\": 4, \"rotation\": {\"left\": true, \
        \"right\": false, \"up\": true, \"down\": false, \"roll\": true}}}";
    assert_eq!(decode_command(text), Ok(Command { engines: None, rotation: Some(left_up()) }));
}

#[test]
fn rejects_text_that_is_not_json() {
    assert_eq!(decode_command("steer left"), Err(CommandError::InvalidJson));
    assert_eq!(decode_command(""), Err(CommandError::InvalidJson));
    assert_eq!(decode_command("{\"data\": "), Err(CommandError::InvalidJson));
}

#[test]
fn rejects_rotation_without_right() {
    assert_eq!(decode_command(ROTATION_WITHOUT_RIGHT), Err(CommandError::MalformedRotation));
}

#[test]
fn rejects_engines_with_a_missing_flag() {
    let text = "{\"data\": {\"engines\": {\"front\": false, \"back\": true, \"left\": false, \
        \"right\": false, \"up\": false}}}";
    assert_eq!(decode_command(text), Err(CommandError::MalformedEngines));
}

#[test]
fn rejects_a_flag_of_the_wrong_type() {
    let text = "{\"data\": {\"engines\": {\"front\": \"false\", \"back\": true, \"left\": false, \
        \"right\": false, \"up\": false, \"down\": true}}}";
    assert_eq!(decode_command(text), Err(CommandError::MalformedEngines));
    let text = "{\"data\": {\"rotation\": {\"left\": 1, \"right\": false, \"up\": true, \
        \"down\": false}}}";
    assert_eq!(decode_command(text), Err(CommandError::MalformedRotation));
    let text = "{\"data\": {\"rotation\": {\"left\": null, \"right\": false, \"up\": true, \
        \"down\": false}}}";
    assert_eq!(decode_command(text), Err(CommandError::MalformedRotation));
}

#[test]
fn rejects_a_group_that_is_not_an_object() {
    assert_eq!(
        decode_command("{\"data\": {\"engines\": true}}"),
        Err(CommandError::MalformedEngines)
    );
    assert_eq!(
        decode_command("{\"data\": {\"rotation\": [true, false, true, false]}}"),
        Err(CommandError::MalformedRotation)
    );
    assert_eq!(
        decode_command("{\"data\": {\"engines\": null}}"),
        Err(CommandError::MalformedEngines)
    );
}

#[test]
fn one_malformed_group_rejects_the_whole_command() {
    let text = "{\"data\": {\"engines\": {\"front\": false, \"back\": true, \"left\": false, \
        \"right\": false, \"up\": false, \"down\": true}, \"rotation\": {\"left\": true}}}";
    assert_eq!(decode_command(text), Err(CommandError::MalformedRotation));
    let text = "{\"data\": {\"engines\": {\"front\": false}, \"rotation\": {\"left\": true}}}";
    assert_eq!(decode_command(text), Err(CommandError::MalformedEngines));
}

#[test]
fn unknown_shapes_decode_to_the_empty_command() {
    let empty = Ok(Command { engines: None, rotation: None });
    assert_eq!(decode_command("{}"), empty);
    assert_eq!(decode_command("{\"data\": {}}"), empty);
    assert_eq!(decode_command("{\"data\": 5}"), empty);
    assert_eq!(decode_command("{\"data\": null}"), empty);
    assert_eq!(decode_command("{\"engines\": {\"front\": true}}"), empty);
    assert_eq!(decode_command("[1, 2, 3]"), empty);
    assert_eq!(decode_command("true"), empty);
    assert_eq!(decode_command("\"data\""), empty);
}

#[test]
fn read_command_fields_reports_what_was_found() {
    let document: serde_json::Value = serde_json::from_str(
        "{\"data\": {\"rotation\": {\"left\": true, \"up\": \"yes\", \"down\": false}}}",
    )
    .unwrap();
    assert_eq!(
        read_command_fields(&document),
        CommandFields {
            engines: None,
            rotation: Some(
                RotationFields { left: Some(true), right: None, up: None, down: Some(false) }
            ),
        }
    );
}

#[test]
fn read_command_fields_of_a_built_document() {
    let mut flags = serde_json::Map::new();
    for (key, value) in
        [("front", true), ("back", false), ("left", true), ("right", false), ("up", true)]
    {
        flags.insert(key.to_string(), serde_json::Value::Bool(value));
    }
    flags.insert("down".to_string(), serde_json::Value::from(0));
    let mut data = serde_json::Map::new();
    data.insert("engines".to_string(), serde_json::Value::Object(flags));
    let mut document = serde_json::Map::new();
    document.insert("data".to_string(), serde_json::Value::Object(data));
    assert_eq!(
        read_command_fields(&serde_json::Value::Object(document)),
        CommandFields {
            engines: Some(EngineFields {
                front: Some(true),
                back: Some(false),
                left: Some(true),
                right: Some(false),
                up: Some(true),
                down: None,
            }),
            rotation: None,
        }
    );
}

#[test]
fn validate_accepts_complete_groups_only() {
    let complete = EngineFields {
        front: Some(false),
        back: Some(true),
        left: Some(false),
        right: Some(false),
        up: Some(false),
        down: Some(true),
    };
    assert_eq!(complete.validate(), Some(back_down()));
    let mut missing = complete;
    missing.left = None;
    assert_eq!(missing.validate(), None);

    let rotation =
        RotationFields { left: Some(true), right: Some(false), up: Some(true), down: Some(false) };
    assert_eq!(rotation.validate(), Some(left_up()));
    let mut missing_rotation = rotation;
    missing_rotation.down = None;
    assert_eq!(missing_rotation.validate(), None);

    assert_eq!(
        CommandFields { engines: Some(complete), rotation: Some(rotation) }.validate(),
        Ok(Command { engines: Some(back_down()), rotation: Some(left_up()) })
    );
    assert_eq!(
        CommandFields { engines: Some(missing), rotation: Some(missing_rotation) }.validate(),
        Err(CommandError::MalformedEngines)
    );
    assert_eq!(
        CommandFields { engines: Some(complete), rotation: Some(missing_rotation) }.validate(),
        Err(CommandError::MalformedRotation)
    );
    assert_eq!(
        CommandFields { engines: None, rotation: None }.validate(),
        Ok(Command { engines: None, rotation: None })
    );
}

#[test]
fn apply_command_replaces_whole_groups() {
    let mut world = world_with_ship(3);
    assert!(world.set_engines(
        3,
        Engines { front: true, back: false, left: true, right: false, up: false, down: false }
    ));
    let command = Command { engines: Some(back_down()), rotation: None };
    assert!(apply_command(&mut world, 3, &command));
    let ship = world.get_ship(3).unwrap();
    assert_eq!(ship.engines, back_down());
    assert_eq!(ship.rotation_engines, RotationEngines::idle());
    assert_eq!(ship.body, 1);
    assert_eq!(ship.uuid, 3);
}

#[test]
fn apply_command_to_an_absent_ship_is_a_no_op() {
    let mut world = world_with_ship(3);
    let command = Command { engines: Some(back_down()), rotation: Some(left_up()) };
    assert!(!apply_command(&mut world, 4, &command));
    assert_eq!(world.ship_count(), 1);
    assert_eq!(world.get_ship(3), Some(TheShip::with_id(3, 1u32)));
}

#[test]
fn handle_message_applies_a_valid_command() {
    let mut world = world_with_ship(3);
    assert_eq!(handle_message(&mut world, 3, ENGINES_BACK_DOWN), Outcome::Applied);
    assert_eq!(handle_message(&mut world, 3, ROTATION_LEFT_UP), Outcome::Applied);
    let mut expected = TheShip::with_id(3, 1u32);
    expected.engines = back_down();
    expected.rotation_engines = left_up();
    assert_eq!(world.get_ship(3), Some(expected));
}

#[test]
fn rotation_without_right_leaves_the_ship_unchanged() {
    let mut world = world_with_ship(3);
    assert_eq!(handle_message(&mut world, 3, ROTATION_LEFT_UP), Outcome::Applied);
    let before = world.get_ship(3);
    assert_eq!(
        handle_message(&mut world, 3, ROTATION_WITHOUT_RIGHT),
        Outcome::Rejected(CommandError::MalformedRotation)
    );
    assert_eq!(world.get_ship(3), before);
}

#[test]
fn a_rejected_command_applies_neither_group() {
    let mut world = world_with_ship(3);
    let text = "{\"data\": {\"engines\": {\"front\": false, \"back\": true, \"left\": false, \
        \"right\": false, \"up\": false, \"down\": true}, \"rotation\": {\"left\": true}}}";
    assert_eq!(
        handle_message(&mut world, 3, text),
        Outcome::Rejected(CommandError::MalformedRotation)
    );
    assert_eq!(world.get_ship(3), Some(TheShip::with_id(3, 1u32)));
    assert_eq!(
        handle_message(&mut world, 3, "not json"),
        Outcome::Rejected(CommandError::InvalidJson)
    );
    assert_eq!(world.get_ship(3), Some(TheShip::with_id(3, 1u32)));
}

#[test]
fn handle_message_ignores_unknown_shapes() {
    let mut world = world_with_ship(3);
    assert_eq!(handle_message(&mut world, 3, "{\"ping\": 1}"), Outcome::Ignored);
    assert_eq!(handle_message(&mut world, 9, "{\"ping\": 1}"), Outcome::Ignored);
    assert_eq!(world.get_ship(3), Some(TheShip::with_id(3, 1u32)));
}

#[test]
fn handle_message_for_a_vanished_ship_is_a_no_op() {
    let mut world = world_with_ship(3);
    assert_eq!(handle_message(&mut world, 4, ENGINES_BACK_DOWN), Outcome::NoShip);
    assert_eq!(world.ship_count(), 1);
    assert_eq!(world.get_ship(3), Some(TheShip::with_id(3, 1u32)));
}

#[test]
fn handle_decoded_follows_the_decoded_value() {
    let mut world = world_with_ship(3);
    let command = Command { engines: None, rotation: Some(left_up()) };
    assert_eq!(handle_decoded(&mut world, 3, Ok(command)), Outcome::Applied);
    assert_eq!(world.get_ship(3).unwrap().rotation_engines, left_up());
    assert_eq!(
        handle_decoded(&mut world, 3, Err(CommandError::MalformedEngines)),
        Outcome::Rejected(CommandError::MalformedEngines)
    );
    assert_eq!(world.get_ship(3).unwrap().rotation_engines, left_up());
    assert_eq!(
        handle_decoded(&mut world, 3, Ok(Command { engines: None, rotation: None })),
        Outcome::Ignored
    );
}
