use vstd::prelude::*;

use crate::clock::{clock_dec, clock_inc, ClockView};
use crate::ids::EntityId;
use crate::player::{no_clocks, PlayerView};
use crate::store::{Bitd, BitdError, LandmarkView};

verus! {

/// A client-to-server request: the closed set of reads and mutations a
/// client may ask for.  The landmark coordinates are carried as 64 bit
/// patterns, as in [`crate::store::Landmark`].
#[derive(Clone, Debug)]
pub enum Instruction {
    FullSync,
    AddClock(EntityId, String, u8),
    DeleteClock(EntityId, EntityId),
    IncrementClock(EntityId, EntityId),
    DecrementClock(EntityId, EntityId),
    AddPlayer(String),
    RenamePlayer(EntityId, String),
    RemovePlayer(EntityId),
    AddLandmark(String, u64, u64),
}

/// A notification on the broadcast bus: coordinates into the store, never a
/// copy of the data.  Every connection's outbound side resolves it against
/// the store as it is at delivery time.
#[derive(Clone, Debug)]
pub enum SyncRequest {
    Full,
    Error(String),
    Clock(EntityId, EntityId),
    DeleteClock(EntityId, EntityId),
    AddPlayer(EntityId),
    RenamePlayer(EntityId),
    RemovePlayer(EntityId),
    AddLandmark(EntityId),
}

/// Which durable record a mutation touched, and so which write (or file
/// removal) must follow it before the change is announced.
#[derive(Clone, Copy, Debug, PartialEq, Eq, Structural)]
pub enum Persist {
    /// Overwrite the file of this player with its full current record.
    PlayerFile(EntityId),
    /// Delete the file of this player; a failure is tolerated and does not
    /// change what is announced.
    RemovePlayerFile(EntityId),
    /// Overwrite the aggregate landmarks file.
    LandmarksFile,
    /// No durable record was touched.
    Nothing,
}

/// What is left to do after a successful mutation: perform the persistence
/// step, then announce `on_success` (or an error, if persisting failed).
#[derive(Clone, Debug)]
pub struct Effect {
    pub persist: Persist,
    pub on_success: SyncRequest,
}

/// Apply one instruction to the store.  This is the decision half of the
/// inbound side of a connection: it performs the in-memory mutation and says
/// which persistence step and which notification must follow.  A lookup
/// failure leaves the store untouched and is reported to the caller alone.
pub fn apply_instruction(bitd: &mut Bitd, inst: Instruction) -> (r: Result<Effect, BitdError>)
    ensures
        inst is FullSync ==> {
            &&& r matches Ok(eff) && eff.persist is Nothing && eff.on_success is Full
            &&& final(bitd)@ == old(bitd)@
        },
        inst matches Instruction::AddClock(player_id, task, slices) ==> {
            &&& old(bitd)@.players.dom().contains(player_id) ==> (r matches Ok(eff)
                && eff.persist == Persist::PlayerFile(player_id) && (
            eff.on_success matches SyncRequest::Clock(p, clock_id) && p == player_id
                && final(bitd)@.players == old(bitd)@.players.insert(
                player_id,
                (PlayerView {
                    name: old(bitd)@.players[player_id].name,
                    clocks: old(bitd)@.players[player_id].clocks.insert(
                        clock_id,
                        (ClockView { task: task@, slices: slices as int, progress: 0 }),
                    ),
                }),
            )))
            &&& !old(bitd)@.players.dom().contains(player_id) ==> (r matches Err(e) && e
                == BitdError::PlayerLookup(player_id) && final(bitd)@ == old(bitd)@)
            &&& final(bitd)@.landmarks == old(bitd)@.landmarks
            &&& final(bitd)@.notes == old(bitd)@.notes
        },
        inst matches Instruction::DeleteClock(player_id, clock_id) ==> {
            &&& old(bitd)@.players.dom().contains(player_id) ==> (r matches Ok(eff)
                && eff.persist == Persist::PlayerFile(player_id) && eff.on_success
                == SyncRequest::DeleteClock(player_id, clock_id) && final(bitd)@.players == old(
                bitd,
            )@.players.insert(
                player_id,
                (PlayerView {
                    name: old(bitd)@.players[player_id].name,
                    clocks: old(bitd)@.players[player_id].clocks.remove(clock_id),
                }),
            ))
            &&& !old(bitd)@.players.dom().contains(player_id) ==> (r matches Err(e) && e
                == BitdError::PlayerLookup(player_id) && final(bitd)@ == old(bitd)@)
            &&& final(bitd)@.landmarks == old(bitd)@.landmarks
            &&& final(bitd)@.notes == old(bitd)@.notes
        },
        inst matches Instruction::IncrementClock(player_id, clock_id) ==> {
            &&& !old(bitd)@.players.dom().contains(player_id) ==> (r matches Err(e) && e
                == BitdError::PlayerLookup(player_id) && final(bitd)@ == old(bitd)@)
            &&& old(bitd)@.players.dom().contains(player_id) && !old(
                bitd,
            )@.players[player_id].clocks.dom().contains(clock_id) ==> (r matches Err(e) && e
                == BitdError::ClockLookup(player_id, clock_id) && final(bitd)@ == old(bitd)@)
            &&& old(bitd)@.players.dom().contains(player_id) && old(
                bitd,
            )@.players[player_id].clocks.dom().contains(clock_id) ==> (r matches Ok(eff)
                && eff.persist == Persist::PlayerFile(player_id) && eff.on_success
                == SyncRequest::Clock(player_id, clock_id) && final(bitd)@.players == old(
                bitd,
            )@.players.insert(
                player_id,
                (PlayerView {
                    name: old(bitd)@.players[player_id].name,
                    clocks: old(bitd)@.players[player_id].clocks.insert(
                        clock_id,
                        clock_inc(old(bitd)@.players[player_id].clocks[clock_id]),
                    ),
                }),
            ))
            &&& final(bitd)@.landmarks == old(bitd)@.landmarks
            &&& final(bitd)@.notes == old(bitd)@.notes
        },
        inst matches Instruction::DecrementClock(player_id, clock_id) ==> {
            &&& !old(bitd)@.players.dom().contains(player_id) ==> (r matches Err(e) && e
                == BitdError::PlayerLookup(player_id) && final(bitd)@ == old(bitd)@)
            &&& old(bitd)@.players.dom().contains(player_id) && !old(
                bitd,
            )@.players[player_id].clocks.dom().contains(clock_id) ==> (r matches Err(e) && e
                == BitdError::ClockLookup(player_id, clock_id) && final(bitd)@ == old(bitd)@)
            &&& old(bitd)@.players.dom().contains(player_id) && old(
                bitd,
            )@.players[player_id].clocks.dom().contains(clock_id) ==> (r matches Ok(eff)
                && eff.persist == Persist::PlayerFile(player_id) && eff.on_success
                == SyncRequest::Clock(player_id, clock_id) && final(bitd)@.players == old(
                bitd,
            )@.players.insert(
                player_id,
                (PlayerView {
                    name: old(bitd)@.players[player_id].name,
                    clocks: old(bitd)@.players[player_id].clocks.insert(
                        clock_id,
                        clock_dec(old(bitd)@.players[player_id].clocks[clock_id]),
                    ),
                }),
            ))
            &&& final(bitd)@.landmarks == old(bitd)@.landmarks
            &&& final(bitd)@.notes == old(bitd)@.notes
        },
        inst matches Instruction::AddPlayer(name) ==> {
            &&& r matches Ok(eff) && (eff.on_success matches SyncRequest::AddPlayer(player_id)
                && eff.persist == Persist::PlayerFile(player_id) && final(bitd)@.players == old(
                bitd,
            )@.players.insert(player_id, (PlayerView { name: name@, clocks: no_clocks() })))
            &&& final(bitd)@.landmarks == old(bitd)@.landmarks
            &&& final(bitd)@.notes == old(bitd)@.notes
        },
        inst matches Instruction::RenamePlayer(player_id, name) ==> {
            &&& r matches Ok(eff) && eff.persist == Persist::PlayerFile(player_id)
                && eff.on_success == SyncRequest::RenamePlayer(player_id)
            &&& old(bitd)@.players.dom().contains(player_id) ==> final(bitd)@.players == old(
                bitd,
            )@.players.insert(
                player_id,
                (PlayerView { name: name@, clocks: old(bitd)@.players[player_id].clocks }),
            )
            &&& !old(bitd)@.players.dom().contains(player_id) ==> final(bitd)@ == old(bitd)@
            &&& final(bitd)@.landmarks == old(bitd)@.landmarks
            &&& final(bitd)@.notes == old(bitd)@.notes
        },
        inst matches Instruction::RemovePlayer(player_id) ==> {
            &&& r matches Ok(eff) && eff.persist == Persist::RemovePlayerFile(player_id)
                && eff.on_success == SyncRequest::RemovePlayer(player_id)
            &&& final(bitd)@.players == old(bitd)@.players.remove(player_id)
            &&& final(bitd)@.landmarks == old(bitd)@.landmarks
            &&& final(bitd)@.notes == old(bitd)@.notes
        },
        inst matches Instruction::AddLandmark(name, x, y) ==> {
            &&& r matches Ok(eff) && eff.persist is LandmarksFile && (
            eff.on_success matches SyncRequest::AddLandmark(landmark_id)
                && final(bitd)@.landmarks == old(bitd)@.landmarks.insert(
                landmark_id,
                (LandmarkView { name: name@, x: x, y: y }),
            ))
            &&& final(bitd)@.players == old(bitd)@.players
            &&& final(bitd)@.notes == old(bitd)@.notes
        },
{
    match inst {
        Instruction::FullSync => Ok(
            Effect { persist: Persist::Nothing, on_success: SyncRequest::Full },
        ),
        Instruction::AddClock(player_id, task, slices) => {
            match bitd.add_clock(player_id, task, slices) {
                Ok(clock_id) => Ok(
                    Effect {
                        persist: Persist::PlayerFile(player_id),
                        on_success: SyncRequest::Clock(player_id, clock_id),
                    },
                ),
                Err(e) => Err(e),
            }
        },
        Instruction::DeleteClock(player_id, clock_id) => {
            match bitd.delete_clock(player_id, clock_id) {
                Ok(_) => Ok(
                    Effect {
                        persist: Persist::PlayerFile(player_id),
                        on_success: SyncRequest::DeleteClock(player_id, clock_id),
                    },
                ),
                Err(e) => Err(e),
            }
        },
        Instruction::IncrementClock(player_id, clock_id) => {
            match bitd.increment_clock(player_id, clock_id) {
                Ok(_) => Ok(
                    Effect {
                        persist: Persist::PlayerFile(player_id),
                        on_success: SyncRequest::Clock(player_id, clock_id),
                    },
                ),
                Err(e) => Err(e),
            }
        },
        Instruction::DecrementClock(player_id, clock_id) => {
            match bitd.decrement_clock(player_id, clock_id) {
                Ok(_) => Ok(
                    Effect {
                        persist: Persist::PlayerFile(player_id),
                        on_success: SyncRequest::Clock(player_id, clock_id),
                    },
                ),
                Err(e) => Err(e),
            }
        },
        Instruction::AddPlayer(name) => {
            let player_id = bitd.add_player(name);
            Ok(
                Effect {
                    persist: Persist::PlayerFile(player_id),
                    on_success: SyncRequest::AddPlayer(player_id),
                },
            )
        },
        Instruction::RenamePlayer(player_id, name) => {
            bitd.rename_player(player_id, name);
            Ok(
                Effect {
                    persist: Persist::PlayerFile(player_id),
                    on_success: SyncRequest::RenamePlayer(player_id),
                },
            )
        },
        Instruction::RemovePlayer(player_id) => {
            bitd.remove_player(player_id);
            Ok(
                Effect {
                    persist: Persist::RemovePlayerFile(player_id),
                    on_success: SyncRequest::RemovePlayer(player_id),
                },
            )
        },
        Instruction::AddLandmark(name, x, y) => {
            let landmark_id = bitd.add_landmark(name, x, y);
            Ok(
                Effect {
                    persist: Persist::LandmarksFile,
                    on_success: SyncRequest::AddLandmark(landmark_id),
                },
            )
        },
    }
}

/// Decide what to announce once the persistence step of an effect has run:
/// the effect's own notification when the write went through, and an error
/// notification carrying the failure text when it did not.  The in-memory
/// mutation stays applied either way.
pub fn sync_request_after(effect: Effect, persisted: Result<(), String>) -> (r: SyncRequest)
    ensures
        persisted is Ok ==> r == effect.on_success,
        persisted matches Err(msg) ==> r == SyncRequest::Error(msg),
{
    match persisted {
        Ok(_) => effect.on_success,
        Err(msg) => SyncRequest::Error(msg),
    }
}

} // verus!
