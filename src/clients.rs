//! The per-tick pass over every connected character.
use vstd::prelude::*;
use crate::character::{
    leaves_map, notices, state_after, Character, Notification, TeleportError,
};
use crate::world::World;

verus! {

/// What one character's pass produced: the notifications for its client, in
/// order, and whether its teleport step succeeded.
pub struct ClientOutcome {
    pub sent: Vec<Notification>,
    pub result: Result<(), TeleportError>,
}

/// Advances the queued teleport of every character, in order. A failure of
/// one character is recorded in its outcome and does not stop the others:
/// every character gets its pass.
pub fn tick_clients(characters: &mut Vec<Character>, world: &mut World) -> (r: Vec<ClientOutcome>)
    requires
        old(world).wf(),
    ensures
        final(world).wf(),
        final(characters)@.len() == old(characters)@.len(),
        r@.len() == old(characters)@.len(),
        forall|i: int|
            0 <= i < r@.len() ==> {
                let before = #[trigger] old(characters)@[i]@;
                let after = final(characters)@[i]@;
                let o = r@[i];
                &&& after.guid == before.guid
                &&& after.map == before.map
                &&& o.result is Ok ==> {
                    &&& after.teleportation_state == state_after(before.teleportation_state, before.map, true)
                    &&& o.sent@ == notices(before.teleportation_state, before.map, true)
                }
                &&& o.result is Err ==> {
                    &&& leaves_map(before.teleportation_state, before.map)
                    &&& after.teleportation_state == before.teleportation_state
                    &&& o.sent@ == notices(before.teleportation_state, before.map, false)
                }
            },
{
    let ghost start = characters@;
    let mut outcomes: Vec<ClientOutcome> = Vec::new();
    let mut i: usize = 0;
    while i < characters.len()
        invariant
            world.wf(),
            characters@.len() == start.len(),
            i <= characters@.len(),
            outcomes@.len() == i,
            forall|k: int| i <= k < characters@.len() ==> #[trigger] characters@[k] == start[k],
            forall|k: int|
                0 <= k < i ==> {
                    let before = #[trigger] start[k]@;
                    let after = characters@[k]@;
                    let o = outcomes@[k];
                    &&& after.guid == before.guid
                    &&& after.map == before.map
                    &&& o.result is Ok ==> {
                        &&& after.teleportation_state == state_after(before.teleportation_state, before.map, true)
                        &&& o.sent@ == notices(before.teleportation_state, before.map, true)
                    }
                    &&& o.result is Err ==> {
                        &&& leaves_map(before.teleportation_state, before.map)
                        &&& after.teleportation_state == before.teleportation_state
                        &&& o.sent@ == notices(before.teleportation_state, before.map, false)
                    }
                },
        decreases characters@.len() - i,
    {
        let mut sent: Vec<Notification> = Vec::new();
        let result = characters[i].handle_queued_teleport(world, &mut sent);
        assert(sent@ == Seq::<Notification>::empty() + sent@);
        outcomes.push(ClientOutcome { sent, result });
        i = i + 1;
    }
    outcomes
}

} // verus!
