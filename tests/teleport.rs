use world_server::character::{
    Character, MovementInfo, Notification, TeleportError, TeleportationDistance, TeleportationState,
};
use world_server::clients::tick_clients;
use world_server::data::{PositionAndOrientation, Vector3d, WorldZoneLocation};
use world_server::world::World;

fn vec3(x: f32, y: f32, z: f32) -> Vector3d {
    Vector3d { x: x.to_bits(), y: y.to_bits(), z: z.to_bits() }
}

fn moving_at(x: f32, y: f32, z: f32, o: f32) -> MovementInfo {
    MovementInfo {
        flags: 0x1,
        extra_flags: 0x20,
        timestamp: 1234,
        position: vec3(x, y, z),
        orientation: o.to_bits(),
        fall_time: 0.0f32.to_bits(),
    }
}

fn far_target(map: u32) -> WorldZoneLocation {
    WorldZoneLocation { map, area: 5, position: vec3(0.0, 0.0, 0.0), orientation: 1.57f32.to_bits() }
}

fn character_on_map_one(world: &mut World) -> Character {
    assert!(world.add_object(1, 77));
    Character::new(77, 1, moving_at(10.0, 10.0, 0.0, 0.0))
}

#[test]
fn far_teleport_to_other_map() {
    let mut world = World::new();
    let mut c = character_on_map_one(&mut world);
    let target = far_target(2);
    c.teleport_to(TeleportationDistance::Far(target));
    assert_eq!(c.teleportation_state(), TeleportationState::Queued(TeleportationDistance::Far(target)));

    let mut outbox = Vec::new();
    assert_eq!(c.handle_queued_teleport(&mut world, &mut outbox), Ok(()));
    assert_eq!(outbox, vec![Notification::TransferPending(2), Notification::NewWorld(2, target)]);
    assert_eq!(c.movement_info().flags, 0);
    assert_eq!(c.movement_info().extra_flags, 0);
    assert_eq!(c.movement_info().position, vec3(10.0, 10.0, 0.0));
    assert_eq!(world.try_get_map_for_character(77), None);
    assert_eq!(c.teleportation_state(), TeleportationState::Executing(TeleportationDistance::Far(target)));
    assert_eq!(c.map(), 1);
}

#[test]
fn far_teleport_to_same_map_becomes_near() {
    let mut world = World::new();
    let mut c = character_on_map_one(&mut world);
    let target = far_target(1);
    c.teleport_to(TeleportationDistance::Far(target));
    let mut outbox = Vec::new();
    assert_eq!(c.handle_queued_teleport(&mut world, &mut outbox), Ok(()));
    assert!(outbox.is_empty());
    let spot = PositionAndOrientation { position: vec3(0.0, 0.0, 0.0), orientation: 1.57f32.to_bits() };
    assert_eq!(c.teleportation_state(), TeleportationState::Queued(TeleportationDistance::Near(spot)));
    assert_eq!(c.movement_info().flags, 0x1);
    assert_eq!(world.try_get_map_for_character(77), Some(1));
}

#[test]
fn far_teleport_without_source_map_fails() {
    let mut world = World::new();
    let mut c = Character::new(5, 1, moving_at(1.0, 2.0, 3.0, 0.5));
    let target = far_target(2);
    c.teleport_to(TeleportationDistance::Far(target));
    let mut outbox = Vec::new();
    assert_eq!(c.handle_queued_teleport(&mut world, &mut outbox), Err(TeleportError::InvalidSourceMap));
    assert_eq!(outbox, vec![Notification::TransferPending(2)]);
    assert_eq!(c.movement_info().flags, 0);
    assert_eq!(c.movement_info().extra_flags, 0);
    assert_eq!(c.teleportation_state(), TeleportationState::Queued(TeleportationDistance::Far(target)));
}

#[test]
fn near_teleport_sends_ack_and_completes() {
    let mut world = World::new();
    let mut c = character_on_map_one(&mut world);
    let spot = PositionAndOrientation { position: vec3(4.0, 5.0, 6.0), orientation: 3.0f32.to_bits() };
    c.teleport_to(TeleportationDistance::Near(spot));
    let mut outbox = Vec::new();
    assert_eq!(c.handle_queued_teleport(&mut world, &mut outbox), Ok(()));
    assert_eq!(outbox, vec![Notification::MoveTeleportAck(spot)]);
    assert_eq!(c.teleportation_state(), TeleportationState::Executing(TeleportationDistance::Near(spot)));
    assert_eq!(c.movement_info().position, vec3(10.0, 10.0, 0.0));

    assert!(c.complete_teleport(&mut world));
    assert_eq!(c.teleportation_state(), TeleportationState::Idle);
    assert_eq!(c.movement_info().position, vec3(4.0, 5.0, 6.0));
    assert_eq!(c.movement_info().orientation, 3.0f32.to_bits());
    assert_eq!(c.movement_info().flags, 0x1);
}

#[test]
fn far_teleport_completes_on_new_map() {
    let mut world = World::new();
    let mut c = character_on_map_one(&mut world);
    let target = far_target(2);
    c.teleport_to(TeleportationDistance::Far(target));
    let mut outbox = Vec::new();
    assert_eq!(c.handle_queued_teleport(&mut world, &mut outbox), Ok(()));
    assert!(c.complete_teleport(&mut world));
    assert_eq!(c.teleportation_state(), TeleportationState::Idle);
    assert_eq!(c.map(), 2);
    assert_eq!(c.movement_info().position, vec3(0.0, 0.0, 0.0));
    assert_eq!(c.movement_info().orientation, 1.57f32.to_bits());
    assert_eq!(world.try_get_map_for_character(77), Some(2));
}

#[test]
fn complete_without_executing_does_nothing() {
    let mut world = World::new();
    let mut c = character_on_map_one(&mut world);
    assert!(!c.complete_teleport(&mut world));
    assert_eq!(c.teleportation_state(), TeleportationState::Idle);
    assert_eq!(world.try_get_map_for_character(77), Some(1));
}

#[test]
fn idle_character_is_not_advanced() {
    let mut world = World::new();
    let mut c = character_on_map_one(&mut world);
    let mut outbox = Vec::new();
    assert_eq!(c.handle_queued_teleport(&mut world, &mut outbox), Ok(()));
    assert!(outbox.is_empty());
    assert_eq!(c.teleportation_state(), TeleportationState::Idle);
}

#[test]
fn latest_request_overwrites_executing_teleport() {
    let mut world = World::new();
    let mut c = character_on_map_one(&mut world);
    c.teleport_to(TeleportationDistance::Far(far_target(2)));
    let mut outbox = Vec::new();
    assert_eq!(c.handle_queued_teleport(&mut world, &mut outbox), Ok(()));
    let spot = PositionAndOrientation { position: vec3(1.0, 1.0, 1.0), orientation: 0 };
    c.teleport_to(TeleportationDistance::Near(spot));
    assert_eq!(c.teleportation_state(), TeleportationState::Queued(TeleportationDistance::Near(spot)));
    // The notices already sent for the abandoned far teleport stay sent.
    assert_eq!(outbox.len(), 2);
}

#[test]
fn movement_report_replaces_and_position_keeps_flags() {
    let mut c = Character::new(9, 3, moving_at(0.0, 0.0, 0.0, 0.0));
    let report = MovementInfo {
        flags: 0x400,
        extra_flags: 0,
        timestamp: 99,
        position: vec3(7.0, 8.0, 9.0),
        orientation: 2.0f32.to_bits(),
        fall_time: 1.0f32.to_bits(),
    };
    c.process_movement(report);
    assert_eq!(c.movement_info(), report);
    let spot = PositionAndOrientation { position: vec3(-1.0, -2.0, -3.0), orientation: 0.25f32.to_bits() };
    c.set_position(&spot);
    assert_eq!(c.movement_info().position, spot.position);
    assert_eq!(c.movement_info().orientation, spot.orientation);
    assert_eq!(c.movement_info().flags, 0x400);
    assert_eq!(c.movement_info().timestamp, 99);
    assert_eq!(c.guid(), 9);
}

#[test]
fn zone_location_converts_to_spot() {
    let spot = PositionAndOrientation::from(far_target(4));
    assert_eq!(spot, PositionAndOrientation { position: vec3(0.0, 0.0, 0.0), orientation: 1.57f32.to_bits() });
}

#[test]
fn one_failing_client_does_not_stop_the_others() {
    let mut world = World::new();
    assert!(world.add_object(1, 1));
    assert!(world.add_object(1, 3));
    let mut clients = vec![
        Character::new(1, 1, moving_at(0.0, 0.0, 0.0, 0.0)),
        Character::new(2, 1, moving_at(0.0, 0.0, 0.0, 0.0)),
        Character::new(3, 1, moving_at(0.0, 0.0, 0.0, 0.0)),
    ];
    for c in clients.iter_mut() {
        c.teleport_to(TeleportationDistance::Far(far_target(2)));
    }
    let outcomes = tick_clients(&mut clients, &mut world);
    assert_eq!(outcomes.len(), 3);
    assert_eq!(outcomes[0].result, Ok(()));
    assert_eq!(outcomes[1].result, Err(TeleportError::InvalidSourceMap));
    assert_eq!(outcomes[2].result, Ok(()));
    assert_eq!(outcomes[1].sent, vec![Notification::TransferPending(2)]);
    assert_eq!(outcomes[2].sent.len(), 2);
    assert_eq!(clients[0].teleportation_state(), TeleportationState::Executing(TeleportationDistance::Far(far_target(2))));
    assert_eq!(clients[2].teleportation_state(), TeleportationState::Executing(TeleportationDistance::Far(far_target(2))));
    assert_eq!(world.try_get_map_for_character(1), None);
    assert_eq!(world.try_get_map_for_character(3), None);
}
