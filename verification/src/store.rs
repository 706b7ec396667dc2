use vstd::prelude::*;

use dashmap::DashMap;

use crate::clock::{clock_dec, clock_inc, ClockView};
use crate::ids::{fresh_id, EntityId};
use crate::player::{clocks_insert, entries_match, no_clocks, PlayerData, PlayerView};

verus! {

/// Why a mutation was refused: either the named player does not exist, or
/// the player exists but the named clock does not.  Two separate variants so
/// a client learns which of its identifiers was stale.
#[derive(Clone, Debug, PartialEq, Eq, Structural)]
pub enum BitdError {
    PlayerLookup(EntityId),
    ClockLookup(EntityId, EntityId),
}

/// A named point on the session map.  The coordinates are carried as the 64
/// bit patterns of the client's numbers; the store never computes with them.
#[derive(Clone, Debug)]
pub struct Landmark {
    pub name: String,
    pub x: u64,
    pub y: u64,
}

/// Mathematical image of a [`Landmark`].
pub ghost struct LandmarkView {
    pub name: Seq<char>,
    pub x: u64,
    pub y: u64,
}

impl View for Landmark {
    type V = LandmarkView;

    open spec fn view(&self) -> LandmarkView {
        LandmarkView { name: self.name@, x: self.x, y: self.y }
    }
}

/// What a note is about.
#[derive(Clone, Copy, Debug, PartialEq, Eq, Structural)]
pub enum NoteKind {
    Concept,
    Boogins,
    Event,
    Item,
    Misc,
    Person,
    Place,
}

/// A free-standing note.  Its content is carried as the 64 bit pattern of
/// the client's number; the store never computes with it.
#[derive(Clone, Debug)]
pub struct Note {
    pub name: String,
    pub content: u64,
    pub kind: NoteKind,
}

/// Mathematical image of a [`Note`].
pub ghost struct NoteView {
    pub name: Seq<char>,
    pub content: u64,
    pub kind: NoteKind,
}

impl View for Note {
    type V = NoteView;

    open spec fn view(&self) -> NoteView {
        NoteView { name: self.name@, content: self.content, kind: self.kind }
    }
}

/// Abstract contents of the players map.
pub uninterp spec fn player_map_view(m: DashMap<EntityId, PlayerData>) -> Map<EntityId, PlayerView>;

/// Abstract contents of the landmarks map.
pub uninterp spec fn landmark_map_view(m: DashMap<EntityId, Landmark>) -> Map<EntityId, LandmarkView>;

/// Abstract contents of the notes map.
pub uninterp spec fn note_map_view(m: DashMap<EntityId, Note>) -> Map<EntityId, NoteView>;

/// The empty players map.
pub open spec fn no_players() -> Map<EntityId, PlayerView> {
    Map::empty()
}

/// The empty landmarks map.
pub open spec fn no_landmarks() -> Map<EntityId, LandmarkView> {
    Map::empty()
}

/// The empty notes map.
pub open spec fn no_notes() -> Map<EntityId, NoteView> {
    Map::empty()
}

/// Relies on `dashmap::DashMap::new`: a fresh map is empty.
#[verifier::external_body]
fn players_new() -> (m: DashMap<EntityId, PlayerData>)
    ensures
        player_map_view(m) == no_players(),
{
    DashMap::new()
}

/// Relies on `dashmap::DashMap::new`: a fresh map is empty.
#[verifier::external_body]
fn landmarks_new() -> (m: DashMap<EntityId, Landmark>)
    ensures
        landmark_map_view(m) == no_landmarks(),
{
    DashMap::new()
}

/// Relies on `dashmap::DashMap::new`: a fresh map is empty.
#[verifier::external_body]
fn notes_new() -> (m: DashMap<EntityId, Note>)
    ensures
        note_map_view(m) == no_notes(),
{
    DashMap::new()
}

/// Relies on `dashmap::DashMap::insert`: after the call the key maps to the
/// given value and every other entry is unchanged.
#[verifier::external_body]
fn players_insert(m: &mut DashMap<EntityId, PlayerData>, k: EntityId, v: PlayerData)
    ensures
        player_map_view(*final(m)) == player_map_view(*old(m)).insert(k, v@),
{
    m.insert(k, v);
}

/// Relies on `dashmap::DashMap::insert`: after the call the key maps to the
/// given value and every other entry is unchanged.
#[verifier::external_body]
fn landmarks_insert(m: &mut DashMap<EntityId, Landmark>, k: EntityId, v: Landmark)
    ensures
        landmark_map_view(*final(m)) == landmark_map_view(*old(m)).insert(k, v@),
{
    m.insert(k, v);
}

/// Relies on `dashmap::DashMap::insert`: after the call the key maps to the
/// given value and every other entry is unchanged.
#[verifier::external_body]
fn notes_insert(m: &mut DashMap<EntityId, Note>, k: EntityId, v: Note)
    ensures
        note_map_view(*final(m)) == note_map_view(*old(m)).insert(k, v@),
{
    m.insert(k, v);
}

/// Relies on `dashmap::DashMap::remove`: after the call the key is absent
/// and every other entry is unchanged.
#[verifier::external_body]
fn players_remove(m: &mut DashMap<EntityId, PlayerData>, k: EntityId)
    ensures
        player_map_view(*final(m)) == player_map_view(*old(m)).remove(k),
{
    m.remove(&k);
}

/// Relies on `dashmap::DashMap::get`: returns a copy of the value under the
/// key when the key is present, and nothing otherwise.
#[verifier::external_body]
fn players_get(m: &DashMap<EntityId, PlayerData>, k: EntityId) -> (r: Option<PlayerData>)
    ensures
        match r {
            Some(p) => player_map_view(*m).dom().contains(k) && p@ == player_map_view(*m)[k],
            None => !player_map_view(*m).dom().contains(k),
        },
{
    m.get(&k).map(
        |entry| PlayerData {
            name: entry.value().name.clone(),
            clocks: entry.value().clocks.clone(),
        },
    )
}

/// Relies on `dashmap::DashMap::get`: returns a copy of the value under the
/// key when the key is present, and nothing otherwise.
#[verifier::external_body]
fn landmarks_get(m: &DashMap<EntityId, Landmark>, k: EntityId) -> (r: Option<Landmark>)
    ensures
        match r {
            Some(l) => landmark_map_view(*m).dom().contains(k) && l@ == landmark_map_view(*m)[k],
            None => !landmark_map_view(*m).dom().contains(k),
        },
{
    m.get(&k).map(|entry| entry.value().clone())
}

/// Relies on `dashmap::DashMap::iter`: yields every entry exactly once, in
/// no particular order.
#[verifier::external_body]
fn players_pairs_raw(m: &DashMap<EntityId, PlayerData>) -> (r: Vec<(EntityId, PlayerData)>)
    ensures
        entries_match(r@, player_map_view(*m)),
{
    m.iter().map(
        |entry| (
            *entry.key(),
            PlayerData { name: entry.value().name.clone(), clocks: entry.value().clocks.clone() },
        ),
    ).collect()
}

/// Relies on `dashmap::DashMap::iter`: yields every entry exactly once, in
/// no particular order.
#[verifier::external_body]
fn landmarks_pairs_raw(m: &DashMap<EntityId, Landmark>) -> (r: Vec<(EntityId, Landmark)>)
    ensures
        entries_match(r@, landmark_map_view(*m)),
{
    m.iter().map(|entry| (*entry.key(), entry.value().clone())).collect()
}

/// Relies on `dashmap::DashMap::iter`: yields every entry exactly once, in
/// no particular order.
#[verifier::external_body]
fn notes_pairs_raw(m: &DashMap<EntityId, Note>) -> (r: Vec<(EntityId, Note)>)
    ensures
        entries_match(r@, note_map_view(*m)),
{
    m.iter().map(|entry| (*entry.key(), entry.value().clone())).collect()
}

/// Mathematical image of the whole domain store.
pub ghost struct StoreView {
    pub players: Map<EntityId, PlayerView>,
    pub landmarks: Map<EntityId, LandmarkView>,
    pub notes: Map<EntityId, NoteView>,
}

/// The single authoritative in-memory container for all entities of one
/// session: players (each owning its clocks), landmarks and notes.
#[derive(Debug)]
pub struct Bitd {
    pub players: DashMap<EntityId, PlayerData>,
    pub landmarks: DashMap<EntityId, Landmark>,
    pub notes: DashMap<EntityId, Note>,
}

impl View for Bitd {
    type V = StoreView;

    open spec fn view(&self) -> StoreView {
        StoreView {
            players: player_map_view(self.players),
            landmarks: landmark_map_view(self.landmarks),
            notes: note_map_view(self.notes),
        }
    }
}

impl Bitd {
    /// A store with no entities at all.  Loading previously persisted
    /// records into it goes through the `restore_` methods.
    pub fn new() -> (bitd: Bitd)
        ensures
            bitd@.players == no_players(),
            bitd@.landmarks == no_landmarks(),
            bitd@.notes == no_notes(),
    {
        Bitd { players: players_new(), landmarks: landmarks_new(), notes: notes_new() }
    }

    /// Insert a brand-new player under a fresh identifier and return the
    /// identifier.  Always succeeds.
    pub fn add_player(&mut self, name: String) -> (player_id: EntityId)
        ensures
            final(self)@.players == old(self)@.players.insert(
                player_id,
                (PlayerView { name: name@, clocks: no_clocks() }),
            ),
            final(self)@.landmarks == old(self)@.landmarks,
            final(self)@.notes == old(self)@.notes,
    {
        let player_id = fresh_id();
        players_insert(&mut self.players, player_id, PlayerData::new(name));
        player_id
    }

    /// Give a player a new name, returning the old one; an unknown player is
    /// a no-op answered with `None`, never an error.
    pub fn rename_player(&mut self, player_id: EntityId, name: String) -> (r: Option<String>)
        ensures
            old(self)@.players.dom().contains(player_id) ==> {
                &&& r matches Some(prev) && prev@ == old(self)@.players[player_id].name
                &&& final(self)@.players == old(self)@.players.insert(
                    player_id,
                    (PlayerView {
                        name: name@,
                        clocks: old(self)@.players[player_id].clocks,
                    }),
                )
            },
            !old(self)@.players.dom().contains(player_id) ==> r is None && final(self)@
                == old(self)@,
            final(self)@.landmarks == old(self)@.landmarks,
            final(self)@.notes == old(self)@.notes,
    {
        match players_get(&self.players, player_id) {
            Some(mut p) => {
                let prev = p.rename(name);
                players_insert(&mut self.players, player_id, p);
                Some(prev)
            },
            None => None,
        }
    }

    /// Remove a player and all its clocks; the absence of the player is
    /// tolerated silently.
    pub fn remove_player(&mut self, player_id: EntityId)
        ensures
            final(self)@.players == old(self)@.players.remove(player_id),
            final(self)@.landmarks == old(self)@.landmarks,
            final(self)@.notes == old(self)@.notes,
    {
        players_remove(&mut self.players, player_id);
    }

    /// Create a fresh clock under the given player.  Fails with
    /// `PlayerLookup` exactly when the player does not exist.
    pub fn add_clock(&mut self, player_id: EntityId, task: String, slices: u8) -> (r: Result<
        EntityId,
        BitdError,
    >)
        ensures
            old(self)@.players.dom().contains(player_id) ==> {
                &&& r matches Ok(clock_id) && final(self)@.players == old(self)@.players.insert(
                    player_id,
                    (PlayerView {
                        name: old(self)@.players[player_id].name,
                        clocks: old(self)@.players[player_id].clocks.insert(
                            clock_id,
                            (ClockView { task: task@, slices: slices as int, progress: 0 }),
                        ),
                    }),
                )
            },
            !old(self)@.players.dom().contains(player_id) ==> {
                &&& r matches Err(e) && e == BitdError::PlayerLookup(player_id)
                &&& final(self)@ == old(self)@
            },
            final(self)@.landmarks == old(self)@.landmarks,
            final(self)@.notes == old(self)@.notes,
    {
        match players_get(&self.players, player_id) {
            Some(mut p) => {
                let clock_id = p.add_clock(task, slices);
                players_insert(&mut self.players, player_id, p);
                Ok(clock_id)
            },
            None => Err(BitdError::PlayerLookup(player_id)),
        }
    }

    /// Drop a clock of the given player.  Fails with `PlayerLookup` exactly
    /// when the player does not exist; an unknown clock under a known player
    /// is a silent no-op (deletion is idempotent).
    pub fn delete_clock(&mut self, player_id: EntityId, clock_id: EntityId) -> (r: Result<
        (),
        BitdError,
    >)
        ensures
            old(self)@.players.dom().contains(player_id) ==> r is Ok && final(self)@.players
                == old(self)@.players.insert(
                player_id,
                (PlayerView {
                    name: old(self)@.players[player_id].name,
                    clocks: old(self)@.players[player_id].clocks.remove(clock_id),
                }),
            ),
            !old(self)@.players.dom().contains(player_id) ==> {
                &&& r matches Err(e) && e == BitdError::PlayerLookup(player_id)
                &&& final(self)@ == old(self)@
            },
            final(self)@.landmarks == old(self)@.landmarks,
            final(self)@.notes == old(self)@.notes,
    {
        match players_get(&self.players, player_id) {
            Some(mut p) => {
                p.delete_clock(clock_id);
                players_insert(&mut self.players, player_id, p);
                Ok(())
            },
            None => Err(BitdError::PlayerLookup(player_id)),
        }
    }

    /// Advance a clock by one step, saturating at its `slices`.  Fails with
    /// `PlayerLookup` when the player does not exist and with `ClockLookup`
    /// when the player exists but the clock does not.
    pub fn increment_clock(&mut self, player_id: EntityId, clock_id: EntityId) -> (r: Result<
        (),
        BitdError,
    >)
        ensures
            !old(self)@.players.dom().contains(player_id) ==> {
                &&& r matches Err(e) && e == BitdError::PlayerLookup(player_id)
                &&& final(self)@ == old(self)@
            },
            old(self)@.players.dom().contains(player_id) && !old(
                self,
            )@.players[player_id].clocks.dom().contains(clock_id) ==> {
                &&& r matches Err(e) && e == BitdError::ClockLookup(player_id, clock_id)
                &&& final(self)@ == old(self)@
            },
            old(self)@.players.dom().contains(player_id) && old(
                self,
            )@.players[player_id].clocks.dom().contains(clock_id) ==> r is Ok
                && final(self)@.players == old(self)@.players.insert(
                player_id,
                (PlayerView {
                    name: old(self)@.players[player_id].name,
                    clocks: old(self)@.players[player_id].clocks.insert(
                        clock_id,
                        clock_inc(old(self)@.players[player_id].clocks[clock_id]),
                    ),
                }),
            ),
            final(self)@.landmarks == old(self)@.landmarks,
            final(self)@.notes == old(self)@.notes,
    {
        match players_get(&self.players, player_id) {
            None => Err(BitdError::PlayerLookup(player_id)),
            Some(mut p) => match p.get_clock(clock_id) {
                None => Err(BitdError::ClockLookup(player_id, clock_id)),
                Some(mut c) => {
                    c.increment();
                    clocks_insert(&mut p.clocks, clock_id, c);
                    players_insert(&mut self.players, player_id, p);
                    Ok(())
                },
            },
        }
    }

    /// Take a clock one step back, saturating at `0`.  Fails exactly as
    /// `increment_clock` does.
    pub fn decrement_clock(&mut self, player_id: EntityId, clock_id: EntityId) -> (r: Result<
        (),
        BitdError,
    >)
        ensures
            !old(self)@.players.dom().contains(player_id) ==> {
                &&& r matches Err(e) && e == BitdError::PlayerLookup(player_id)
                &&& final(self)@ == old(self)@
            },
            old(self)@.players.dom().contains(player_id) && !old(
                self,
            )@.players[player_id].clocks.dom().contains(clock_id) ==> {
                &&& r matches Err(e) && e == BitdError::ClockLookup(player_id, clock_id)
                &&& final(self)@ == old(self)@
            },
            old(self)@.players.dom().contains(player_id) && old(
                self,
            )@.players[player_id].clocks.dom().contains(clock_id) ==> r is Ok
                && final(self)@.players == old(self)@.players.insert(
                player_id,
                (PlayerView {
                    name: old(self)@.players[player_id].name,
                    clocks: old(self)@.players[player_id].clocks.insert(
                        clock_id,
                        clock_dec(old(self)@.players[player_id].clocks[clock_id]),
                    ),
                }),
            ),
            final(self)@.landmarks == old(self)@.landmarks,
            final(self)@.notes == old(self)@.notes,
    {
        match players_get(&self.players, player_id) {
            None => Err(BitdError::PlayerLookup(player_id)),
            Some(mut p) => match p.get_clock(clock_id) {
                None => Err(BitdError::ClockLookup(player_id, clock_id)),
                Some(mut c) => {
                    c.decrement();
                    clocks_insert(&mut p.clocks, clock_id, c);
                    players_insert(&mut self.players, player_id, p);
                    Ok(())
                },
            },
        }
    }

    /// Insert a brand-new landmark under a fresh identifier and return the
    /// identifier.  Always succeeds.
    pub fn add_landmark(&mut self, name: String, x: u64, y: u64) -> (landmark_id: EntityId)
        ensures
            final(self)@.landmarks == old(self)@.landmarks.insert(
                landmark_id,
                (LandmarkView { name: name@, x: x, y: y }),
            ),
            final(self)@.players == old(self)@.players,
            final(self)@.notes == old(self)@.notes,
    {
        let landmark_id = fresh_id();
        landmarks_insert(&mut self.landmarks, landmark_id, Landmark { name, x, y });
        landmark_id
    }

    /// A copy of the player under the given identifier, if there is one.
    pub fn get_player(&self, player_id: EntityId) -> (r: Option<PlayerData>)
        ensures
            match r {
                Some(p) => self@.players.dom().contains(player_id) && p@
                    == self@.players[player_id],
                None => !self@.players.dom().contains(player_id),
            },
    {
        players_get(&self.players, player_id)
    }

    /// A copy of the landmark under the given identifier, if there is one.
    pub fn get_landmark(&self, landmark_id: EntityId) -> (r: Option<Landmark>)
        ensures
            match r {
                Some(l) => self@.landmarks.dom().contains(landmark_id) && l@
                    == self@.landmarks[landmark_id],
                None => !self@.landmarks.dom().contains(landmark_id),
            },
    {
        landmarks_get(&self.landmarks, landmark_id)
    }

    /// Every player of the store, paired with its identifier, in no
    /// particular order.
    pub fn players_pairs(&self) -> (r: Vec<(EntityId, PlayerData)>)
        ensures
            entries_match(r@, self@.players),
    {
        players_pairs_raw(&self.players)
    }

    /// Every landmark of the store, paired with its identifier, in no
    /// particular order.
    pub fn landmarks_pairs(&self) -> (r: Vec<(EntityId, Landmark)>)
        ensures
            entries_match(r@, self@.landmarks),
    {
        landmarks_pairs_raw(&self.landmarks)
    }

    /// Every note of the store, paired with its identifier, in no particular
    /// order.
    pub fn notes_pairs(&self) -> (r: Vec<(EntityId, Note)>)
        ensures
            entries_match(r@, self@.notes),
    {
        notes_pairs_raw(&self.notes)
    }

    /// Put a previously persisted player back under its recorded identifier.
    pub fn restore_player(&mut self, player_id: EntityId, player: PlayerData)
        ensures
            final(self)@.players == old(self)@.players.insert(player_id, player@),
            final(self)@.landmarks == old(self)@.landmarks,
            final(self)@.notes == old(self)@.notes,
    {
        players_insert(&mut self.players, player_id, player);
    }

    /// Put a previously persisted landmark back under its recorded
    /// identifier.
    pub fn restore_landmark(&mut self, landmark_id: EntityId, landmark: Landmark)
        ensures
            final(self)@.landmarks == old(self)@.landmarks.insert(landmark_id, landmark@),
            final(self)@.players == old(self)@.players,
            final(self)@.notes == old(self)@.notes,
    {
        landmarks_insert(&mut self.landmarks, landmark_id, landmark);
    }

    /// Put a previously persisted note back under its recorded identifier.
    pub fn restore_note(&mut self, note_id: EntityId, note: Note)
        ensures
            final(self)@.notes == old(self)@.notes.insert(note_id, note@),
            final(self)@.players == old(self)@.players,
            final(self)@.landmarks == old(self)@.landmarks,
    {
        notes_insert(&mut self.notes, note_id, note);
    }
}

} // verus!
