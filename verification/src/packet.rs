use vstd::prelude::*;

use crate::ids::EntityId;
use crate::player::{entries_match, PlayerData};
use crate::protocol::SyncRequest;
use crate::store::{Bitd, Landmark};

verus! {

/// The fully resolved, client-facing message rendered from a notification
/// plus the store as it is at delivery time.
#[derive(Debug)]
pub enum UpdatePacket {
    /// The whole visible state: every player and every landmark, each paired
    /// with its identifier, in no particular order.
    Full { players: Vec<(EntityId, PlayerData)>, landmarks: Vec<(EntityId, Landmark)> },
    Error { text: String },
    Clock { player_id: EntityId, clock_id: EntityId, clock: crate::clock::Clock },
    DeleteClock { player_id: EntityId, clock_id: EntityId },
    Player { player_id: EntityId, player_data: PlayerData },
    PlayerName { player_id: EntityId, player_name: String },
    RemovePlayer { player_id: EntityId },
    Landmark { id: EntityId, data: Landmark },
}

/// Render a notification into the packet for one client, reading the store
/// as it is now — deliberately not as it was when the notification was
/// published, so that a burst of notifications collapses onto the newest
/// state.  A coordinate that no longer resolves (the entity has been removed
/// meanwhile) yields no packet.
pub fn render_update(bitd: &Bitd, req: SyncRequest) -> (r: Option<UpdatePacket>)
    ensures
        req is Full ==> (r matches Some(p) && (
        p matches UpdatePacket::Full { players, landmarks } && entries_match(
            players@,
            bitd@.players,
        ) && entries_match(landmarks@, bitd@.landmarks))),
        req matches SyncRequest::Error(msg) ==> (r matches Some(p) && p == (UpdatePacket::Error {
            text: msg,
        })),
        req matches SyncRequest::Clock(pid, cid) ==> {
            &&& bitd@.players.dom().contains(pid) && bitd@.players[pid].clocks.dom().contains(cid)
                ==> (r matches Some(p) && (
            p matches UpdatePacket::Clock { player_id, clock_id, clock } && player_id == pid
                && clock_id == cid && clock@ == bitd@.players[pid].clocks[cid]))
            &&& !(bitd@.players.dom().contains(pid) && bitd@.players[pid].clocks.dom().contains(
                cid,
            )) ==> r is None
        },
        req matches SyncRequest::DeleteClock(pid, cid) ==> (r matches Some(p) && p == (
        UpdatePacket::DeleteClock { player_id: pid, clock_id: cid })),
        req matches SyncRequest::AddPlayer(pid) ==> {
            &&& bitd@.players.dom().contains(pid) ==> (r matches Some(p) && (
            p matches UpdatePacket::Player { player_id, player_data } && player_id == pid
                && player_data@ == bitd@.players[pid]))
            &&& !bitd@.players.dom().contains(pid) ==> r is None
        },
        req matches SyncRequest::RenamePlayer(pid) ==> {
            &&& bitd@.players.dom().contains(pid) ==> (r matches Some(p) && (
            p matches UpdatePacket::PlayerName { player_id, player_name } && player_id == pid
                && player_name@ == bitd@.players[pid].name))
            &&& !bitd@.players.dom().contains(pid) ==> r is None
        },
        req matches SyncRequest::RemovePlayer(pid) ==> (r matches Some(p) && p == (
        UpdatePacket::RemovePlayer { player_id: pid })),
        req matches SyncRequest::AddLandmark(lid) ==> {
            &&& bitd@.landmarks.dom().contains(lid) ==> (r matches Some(p) && (
            p matches UpdatePacket::Landmark { id, data } && id == lid && data@
                == bitd@.landmarks[lid]))
            &&& !bitd@.landmarks.dom().contains(lid) ==> r is None
        },
{
    match req {
        SyncRequest::Full => Some(
            UpdatePacket::Full {
                players: bitd.players_pairs(),
                landmarks: bitd.landmarks_pairs(),
            },
        ),
        SyncRequest::Error(msg) => Some(UpdatePacket::Error { text: msg }),
        SyncRequest::Clock(player_id, clock_id) => match bitd.get_player(player_id) {
            Some(p) => match p.get_clock(clock_id) {
                Some(clock) => Some(UpdatePacket::Clock { player_id, clock_id, clock }),
                None => None,
            },
            None => None,
        },
        SyncRequest::DeleteClock(player_id, clock_id) => Some(
            UpdatePacket::DeleteClock { player_id, clock_id },
        ),
        SyncRequest::AddPlayer(player_id) => match bitd.get_player(player_id) {
            Some(player_data) => Some(UpdatePacket::Player { player_id, player_data }),
            None => None,
        },
        SyncRequest::RenamePlayer(player_id) => match bitd.get_player(player_id) {
            Some(p) => Some(UpdatePacket::PlayerName { player_id, player_name: p.name }),
            None => None,
        },
        SyncRequest::RemovePlayer(player_id) => Some(UpdatePacket::RemovePlayer { player_id }),
        SyncRequest::AddLandmark(id) => match bitd.get_landmark(id) {
            Some(data) => Some(UpdatePacket::Landmark { id, data }),
            None => None,
        },
    }
}

} // verus!
