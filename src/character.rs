//! A connected character: its reported movement and its teleportation state
//! machine.
use vstd::prelude::*;
use crate::data::{PositionAndOrientation, Vector3d, WorldZoneLocation};
use crate::world::World;

verus! {

/// The full reported motion state of a character. Floats are held as their
/// IEEE-754 bit patterns.
#[derive(Clone, Copy, Debug, PartialEq, Eq, Structural)]
pub struct MovementInfo {
    pub flags: u32,
    pub extra_flags: u16,
    pub timestamp: u32,
    pub position: Vector3d,
    pub orientation: u32,
    pub fall_time: u32,
}

/// Where a teleport goes: on the current map, or possibly onto another one.
#[derive(Clone, Copy, Debug, PartialEq, Eq, Structural)]
pub enum TeleportationDistance {
    Near(PositionAndOrientation),
    Far(WorldZoneLocation),
}

/// The per-character teleportation state.
#[derive(Clone, Copy, Debug, PartialEq, Eq, Structural)]
pub enum TeleportationState {
    Idle,
    Queued(TeleportationDistance),
    Executing(TeleportationDistance),
}

/// A message for the character's client, sent in the order produced.
#[derive(Clone, Copy, Debug, PartialEq, Eq, Structural)]
pub enum Notification {
    /// Move acknowledgement carrying the target of a near teleport.
    MoveTeleportAck(PositionAndOrientation),
    /// A map transfer to the given map is pending.
    TransferPending(u32),
    /// The client is now in the given map, at the given location.
    NewWorld(u32, WorldZoneLocation),
}

/// Why advancing a teleport failed.
#[derive(Clone, Copy, Debug, PartialEq, Eq, Structural)]
pub enum TeleportError {
    /// The character is in no live map instance: the registry is inconsistent.
    InvalidSourceMap,
}

/// What a character is, as the contracts see it.
pub struct CharacterView {
    pub guid: u64,
    pub map: u32,
    pub movement_info: MovementInfo,
    pub teleportation_state: TeleportationState,
}

/// A character, owned by its session. Its fields change only through the
/// methods below.
pub struct Character {
    guid: u64,
    map: u32,
    movement_info: MovementInfo,
    teleportation_state: TeleportationState,
}

impl View for Character {
    type V = CharacterView;

    closed spec fn view(&self) -> CharacterView {
        CharacterView {
            guid: self.guid,
            map: self.map,
            movement_info: self.movement_info,
            teleportation_state: self.teleportation_state,
        }
    }
}

/// The queued teleport leaves the current map `map`.
pub open spec fn leaves_map(state: TeleportationState, map: u32) -> bool {
    state matches TeleportationState::Queued(TeleportationDistance::Far(d)) && d.map != map
}

/// The state after one advance from `state` on map `map`; `found` tells
/// whether the registry had the character in some instance.
pub open spec fn state_after(state: TeleportationState, map: u32, found: bool) -> TeleportationState {
    match state {
        TeleportationState::Queued(TeleportationDistance::Near(d)) => TeleportationState::Executing(
            TeleportationDistance::Near(d),
        ),
        TeleportationState::Queued(TeleportationDistance::Far(d)) => {
            if d.map == map {
                TeleportationState::Queued(TeleportationDistance::Near(d.spot()))
            } else if found {
                TeleportationState::Executing(TeleportationDistance::Far(d))
            } else {
                state
            }
        },
        _ => state,
    }
}

/// The notifications that one advance from `state` on map `map` sends, in order.
pub open spec fn notices(state: TeleportationState, map: u32, found: bool) -> Seq<Notification> {
    match state {
        TeleportationState::Queued(TeleportationDistance::Near(d)) => seq![Notification::MoveTeleportAck(d)],
        TeleportationState::Queued(TeleportationDistance::Far(d)) => {
            if d.map == map {
                seq![]
            } else if found {
                seq![Notification::TransferPending(d.map), Notification::NewWorld(d.map, d)]
            } else {
                seq![Notification::TransferPending(d.map)]
            }
        },
        _ => seq![],
    }
}

/// `info` with both movement-flag sets cleared and everything else kept.
pub open spec fn without_flags(info: MovementInfo) -> MovementInfo {
    MovementInfo { flags: 0, extra_flags: 0, ..info }
}

/// One advance of the teleport of `before` into `after`, with the registry
/// going from `w0` to `w1`, the outbox from `out0` to `out1`, and result `r`.
/// `found` is whether the registry had the character in some instance. The
/// call fails exactly on a far teleport to another map without `found`; the
/// state moves as `state_after` says and the notices are appended; a teleport
/// that leaves the map clears the movement flags, and when `found`, takes the
/// character out of the registry and nothing else.
pub open spec fn advanced(
    before: CharacterView,
    after: CharacterView,
    w0: World,
    w1: World,
    out0: Seq<Notification>,
    out1: Seq<Notification>,
    r: Result<(), TeleportError>,
) -> bool {
    let s = before.teleportation_state;
    let map = before.map;
    let guid = before.guid;
    let found = w0.is_registered(guid);
    &&& r is Ok <==> !(leaves_map(s, map) && !found)
    &&& r is Err ==> r == Err::<(), TeleportError>(TeleportError::InvalidSourceMap)
    &&& after.teleportation_state == state_after(s, map, found)
    &&& out1 == out0 + notices(s, map, found)
    &&& after.guid == guid
    &&& after.map == map
    &&& after.movement_info == if leaves_map(s, map) {
        without_flags(before.movement_info)
    } else {
        before.movement_info
    }
    &&& if leaves_map(s, map) && found {
        &&& forall|m: u32| #[trigger] w1.has_instance(m) == w0.has_instance(m)
        &&& forall|m: u32, g: u64| #[trigger] w1.holds(m, g) == (w0.holds(m, g) && g != guid)
    } else {
        w1 == w0
    }
}

impl Character {
    /// A character that has just logged in on `map`, with no teleport pending.
    pub fn new(guid: u64, map: u32, movement_info: MovementInfo) -> (r: Character)
        ensures
            r@ == (CharacterView { guid, map, movement_info, teleportation_state: TeleportationState::Idle }),
    {
        Character { guid, map, movement_info, teleportation_state: TeleportationState::Idle }
    }

    pub fn guid(&self) -> (r: u64)
        ensures
            r == self@.guid,
    {
        self.guid
    }

    pub fn map(&self) -> (r: u32)
        ensures
            r == self@.map,
    {
        self.map
    }

    pub fn movement_info(&self) -> (r: MovementInfo)
        ensures
            r == self@.movement_info,
    {
        self.movement_info
    }

    pub fn teleportation_state(&self) -> (r: TeleportationState)
        ensures
            r == self@.teleportation_state,
    {
        self.teleportation_state
    }

    /// Replaces the movement state wholesale with a fresh report.
    pub fn process_movement(&mut self, movement_info: MovementInfo)
        ensures
            final(self)@ == (CharacterView { movement_info, ..old(self)@ }),
    {
        self.movement_info = movement_info;
    }

    /// Places the character at `position`, keeping its movement flags.
    pub fn set_position(&mut self, position: &PositionAndOrientation)
        ensures
            final(self)@ == (CharacterView {
                movement_info: MovementInfo {
                    position: position.position,
                    orientation: position.orientation,
                    ..old(self)@.movement_info
                },
                ..old(self)@
            }),
    {
        self.movement_info.position = position.position;
        self.movement_info.orientation = position.orientation;
    }

    fn reset_move_flags(&mut self)
        ensures
            final(self)@ == (CharacterView { movement_info: without_flags(old(self)@.movement_info), ..old(self)@ }),
    {
        self.movement_info.flags = 0;
        self.movement_info.extra_flags = 0;
    }

    /// Requests a teleport. The latest request wins: whatever was queued or
    /// executing is overwritten.
    pub fn teleport_to(&mut self, destination: TeleportationDistance)
        ensures
            final(self)@ == (CharacterView {
                teleportation_state: TeleportationState::Queued(destination),
                ..old(self)@
            }),
    {
        self.teleportation_state = TeleportationState::Queued(destination);
    }

    /// Advances a queued teleport by one step, appending what the client is
    /// to be told to `outbox`. A state that is not queued is left alone.
    ///
    /// A far teleport to another map fails with `InvalidSourceMap` exactly
    /// when the registry has the character in no instance; the pending
    /// notice has then been sent and the flags cleared, and the state stays
    /// queued.
    pub fn handle_queued_teleport(&mut self, world: &mut World, outbox: &mut Vec<Notification>) -> (r:
        Result<(), TeleportError>)
        requires
            old(world).wf(),
        ensures
            final(world).wf(),
            advanced(old(self)@, final(self)@, *old(world), *final(world), old(outbox)@, final(outbox)@, r),
    {
        let ghost out0 = outbox@;
        match self.teleportation_state {
            TeleportationState::Queued(TeleportationDistance::Near(dest)) => {
                self.execute_near_teleport(dest, outbox);
                assert(outbox@ == out0 + seq![Notification::MoveTeleportAck(dest)]);
                Ok(())
            },
            TeleportationState::Queued(TeleportationDistance::Far(dest)) => {
                self.execute_far_teleport(dest, world, outbox)
            },
            _ => {
                assert(outbox@ == out0 + seq![]);
                Ok(())
            },
        }
    }

    /// Completes an executing teleport once the client has confirmed it: a
    /// near one places the character at its target; a far one moves it onto
    /// the destination map and registers it in that map's instance. The
    /// state returns to `Idle` and `true` comes back. With nothing executing,
    /// or when the registry already has the character in some instance, all
    /// is left as it was and `false` comes back.
    pub fn complete_teleport(&mut self, world: &mut World) -> (r: bool)
        requires
            old(world).wf(),
        ensures
            final(world).wf(),
            ({
                let s = old(self)@.teleportation_state;
                let guid = old(self)@.guid;
                match s {
                    TeleportationState::Executing(TeleportationDistance::Near(d)) => {
                        &&& r
                        &&& final(self)@ == (CharacterView {
                            movement_info: MovementInfo {
                                position: d.position,
                                orientation: d.orientation,
                                ..old(self)@.movement_info
                            },
                            teleportation_state: TeleportationState::Idle,
                            ..old(self)@
                        })
                        &&& *final(world) == *old(world)
                    },
                    TeleportationState::Executing(TeleportationDistance::Far(d)) => {
                        &&& r == !old(world).is_registered(guid)
                        &&& r ==> final(self)@ == (CharacterView {
                            map: d.map,
                            movement_info: MovementInfo {
                                position: d.position,
                                orientation: d.orientation,
                                ..old(self)@.movement_info
                            },
                            teleportation_state: TeleportationState::Idle,
                            ..old(self)@
                        })
                        &&& r ==> forall|m: u32, g: u64|
                            #[trigger] final(world).holds(m, g) == (old(world).holds(m, g) || (m == d.map && g
                                == guid))
                        &&& r ==> forall|m: u32|
                            #[trigger] final(world).has_instance(m) == (old(world).has_instance(m) || m == d.map)
                        &&& !r ==> final(self)@ == old(self)@ && *final(world) == *old(world)
                    },
                    _ => !r && final(self)@ == old(self)@ && *final(world) == *old(world),
                }
            }),
    {
        match self.teleportation_state {
            TeleportationState::Executing(TeleportationDistance::Near(dest)) => {
                self.set_position(&dest);
                self.teleportation_state = TeleportationState::Idle;
                true
            },
            TeleportationState::Executing(TeleportationDistance::Far(dest)) => {
                if !world.add_object(dest.map, self.guid) {
                    return false;
                }
                self.map = dest.map;
                self.set_position(&PositionAndOrientation::from(dest));
                self.teleportation_state = TeleportationState::Idle;
                true
            },
            _ => false,
        }
    }

    fn execute_near_teleport(&mut self, destination: PositionAndOrientation, outbox: &mut Vec<Notification>)
        ensures
            final(self)@ == (CharacterView {
                teleportation_state: TeleportationState::Executing(TeleportationDistance::Near(destination)),
                ..old(self)@
            }),
            final(outbox)@ == old(outbox)@.push(Notification::MoveTeleportAck(destination)),
    {
        // The client's acknowledgement of this message completes the teleport.
        self.teleportation_state = TeleportationState::Executing(TeleportationDistance::Near(destination));
        outbox.push(Notification::MoveTeleportAck(destination));
    }

    fn execute_far_teleport(&mut self, destination: WorldZoneLocation, world: &mut World, outbox: &mut Vec<
        Notification,
    >) -> (r: Result<(), TeleportError>)
        requires
            old(world).wf(),
            old(self)@.teleportation_state == TeleportationState::Queued(TeleportationDistance::Far(destination)),
        ensures
            final(world).wf(),
            advanced(old(self)@, final(self)@, *old(world), *final(world), old(outbox)@, final(outbox)@, r),
    {
        let ghost out0 = outbox@;
        if self.map == destination.map {
            // Not a far teleport after all: the destination is on this map.
            self.teleport_to(TeleportationDistance::Near(destination.into()));
            assert(outbox@ == out0 + seq![]);
            return Ok(());
        }
        outbox.push(Notification::TransferPending(destination.map));
        self.reset_move_flags();

        let old_map = match world.try_get_map_for_character(self.guid) {
            Some(m) => m,
            None => {
                assert(outbox@ == out0 + seq![Notification::TransferPending(destination.map)]);
                return Err(TeleportError::InvalidSourceMap);
            },
        };
        let ghost w0 = *world;
        world.remove_object_by_guid(old_map, self.guid);
        assert forall|m: u32, g: u64| #[trigger] world.holds(m, g) == (w0.holds(m, g) && g != self.guid) by {
            if w0.holds(m, g) && g == self.guid {
                crate::world::lemma_member_of_one_map(w0, g, m, old_map);
            }
        }

        outbox.push(Notification::NewWorld(destination.map, destination));
        assert(outbox@ == out0 + seq![
            Notification::TransferPending(destination.map),
            Notification::NewWorld(destination.map, destination),
        ]);
        self.teleportation_state = TeleportationState::Executing(TeleportationDistance::Far(destination));
        Ok(())
    }
}

/// A teleportation state is exactly one of idle, queued and executing.
pub proof fn lemma_state_is_one_variant(s: TeleportationState)
    ensures
        (s is Idle) as int + (s is Queued) as int + (s is Executing) as int == 1,
{
}

/// A far request whose destination is on the current map is turned, on its
/// next advance, into a queued near teleport to the same spot: nothing is
/// sent, the flags stay, and nothing executes.
pub proof fn lemma_far_on_same_map_becomes_near(c: CharacterView, target: WorldZoneLocation, found: bool)
    requires
        c.teleportation_state == TeleportationState::Queued(TeleportationDistance::Far(target)),
        target.map == c.map,
    ensures
        state_after(c.teleportation_state, c.map, found) == TeleportationState::Queued(
            TeleportationDistance::Near(target.spot()),
        ),
        notices(c.teleportation_state, c.map, found) == Seq::<Notification>::empty(),
        !leaves_map(c.teleportation_state, c.map),
{
}

/// A far teleport to another map, from a character that the registry has in
/// an instance, sends the pending-transfer notice and then the new-world
/// notice, and ends executing; the flags are cleared and the character left
/// its old instance (see `Character::handle_queued_teleport`).
pub proof fn lemma_far_teleport_sequence(c: CharacterView, target: WorldZoneLocation)
    requires
        c.teleportation_state == TeleportationState::Queued(TeleportationDistance::Far(target)),
        target.map != c.map,
    ensures
        leaves_map(c.teleportation_state, c.map),
        notices(c.teleportation_state, c.map, true) == seq![
            Notification::TransferPending(target.map),
            Notification::NewWorld(target.map, target),
        ],
        state_after(c.teleportation_state, c.map, true) == TeleportationState::Executing(
            TeleportationDistance::Far(target),
        ),
{
}

/// A far teleport to another map, from a character that the registry has in
/// no instance, sends the pending-transfer notice and never the new-world
/// one, and leaves the request queued; the call reports the error.
pub proof fn lemma_far_teleport_without_source(c: CharacterView, target: WorldZoneLocation)
    requires
        c.teleportation_state == TeleportationState::Queued(TeleportationDistance::Far(target)),
        target.map != c.map,
    ensures
        leaves_map(c.teleportation_state, c.map),
        notices(c.teleportation_state, c.map, false) == seq![Notification::TransferPending(target.map)],
        forall|i: int|
            0 <= i < notices(c.teleportation_state, c.map, false).len() ==> !(#[trigger] notices(
                c.teleportation_state,
                c.map,
                false,
            )[i] is NewWorld),
        state_after(c.teleportation_state, c.map, false) == c.teleportation_state,
{
}

} // verus!
