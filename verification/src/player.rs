use vstd::prelude::*;

use dashmap::DashMap;

use crate::clock::{Clock, ClockView};
use crate::ids::EntityId;

verus! {

/// Abstract contents of a clocks map: what each clock identifier is mapped
/// to, as a mathematical map over clock views.
pub uninterp spec fn clock_map_view(m: DashMap<EntityId, Clock>) -> Map<EntityId, ClockView>;

/// The entries of a snapshot list: every pair lies in the map, no key
/// appears twice, and every key of the map appears.  The order of the
/// entries is left open.
pub open spec fn entries_match<T: View>(entries: Seq<(EntityId, T)>, m: Map<EntityId, T::V>) -> bool {
    &&& forall|i: int|
        0 <= i < entries.len() ==> m.contains_pair((#[trigger] entries[i]).0, entries[i].1@)
    &&& forall|i: int, j: int| 0 <= i < j < entries.len() ==> entries[i].0 != entries[j].0
    &&& forall|k: EntityId|
        #[trigger] m.dom().contains(k) ==> exists|i: int|
            0 <= i < entries.len() && (#[trigger] entries[i]).0 == k
}

/// The empty clocks map.
pub open spec fn no_clocks() -> Map<EntityId, ClockView> {
    Map::empty()
}

/// Relies on `dashmap::DashMap::new`: a fresh map is empty.
#[verifier::external_body]
pub(crate) fn clocks_new() -> (m: DashMap<EntityId, Clock>)
    ensures
        clock_map_view(m) == no_clocks(),
{
    DashMap::new()
}

/// Relies on `dashmap::DashMap::insert`: after the call the key maps to the
/// given value and every other entry is unchanged.
#[verifier::external_body]
pub(crate) fn clocks_insert(m: &mut DashMap<EntityId, Clock>, k: EntityId, v: Clock)
    ensures
        clock_map_view(*final(m)) == clock_map_view(*old(m)).insert(k, v@),
{
    m.insert(k, v);
}

/// Relies on `dashmap::DashMap::remove`: after the call the key is absent
/// and every other entry is unchanged.
#[verifier::external_body]
pub(crate) fn clocks_remove(m: &mut DashMap<EntityId, Clock>, k: EntityId)
    ensures
        clock_map_view(*final(m)) == clock_map_view(*old(m)).remove(k),
{
    m.remove(&k);
}

/// Relies on `dashmap::DashMap::get`: returns a copy of the value under the
/// key when the key is present, and nothing otherwise.
#[verifier::external_body]
pub(crate) fn clocks_get(m: &DashMap<EntityId, Clock>, k: EntityId) -> (r: Option<Clock>)
    ensures
        match r {
            Some(c) => clock_map_view(*m).dom().contains(k) && c@ == clock_map_view(*m)[k],
            None => !clock_map_view(*m).dom().contains(k),
        },
{
    m.get(&k).map(|entry| entry.value().clone())
}

/// Relies on `dashmap::DashMap::iter`: yields every entry exactly once, in
/// no particular order.
#[verifier::external_body]
pub(crate) fn clocks_pairs(m: &DashMap<EntityId, Clock>) -> (r: Vec<(EntityId, Clock)>)
    ensures
        entries_match(r@, clock_map_view(*m)),
{
    m.iter().map(|entry| (*entry.key(), entry.value().clone())).collect()
}

/// Relies on `dashmap::DashMap::clone`: the copy holds the same entries as
/// the original.
#[verifier::external_body]
pub(crate) fn clocks_clone(m: &DashMap<EntityId, Clock>) -> (r: DashMap<EntityId, Clock>)
    ensures
        clock_map_view(r) == clock_map_view(*m),
{
    m.clone()
}

/// Mathematical image of a [`PlayerData`]: the player's name and the map of
/// owned clocks.
pub ghost struct PlayerView {
    pub name: Seq<char>,
    pub clocks: Map<EntityId, ClockView>,
}

/// One player of the session and all the clocks it owns.  Clocks are created
/// and destroyed only through their owning player.
#[derive(Debug)]
pub struct PlayerData {
    pub name: String,
    pub clocks: DashMap<EntityId, Clock>,
}

impl View for PlayerData {
    type V = PlayerView;

    open spec fn view(&self) -> PlayerView {
        PlayerView { name: self.name@, clocks: clock_map_view(self.clocks) }
    }
}

impl PlayerData {
    /// A new player owns no clocks yet.
    pub fn new(name: String) -> (p: PlayerData)
        ensures
            p@ == (PlayerView { name: name@, clocks: no_clocks() }),
    {
        PlayerData { name, clocks: clocks_new() }
    }

    /// Create a fresh clock under this player and return its identifier.
    pub fn add_clock(&mut self, task: String, slices: u8) -> (id: EntityId)
        ensures
            final(self)@.name == old(self)@.name,
            final(self)@.clocks == old(self)@.clocks.insert(
                id,
                (ClockView { task: task@, slices: slices as int, progress: 0 }),
            ),
    {
        let id = crate::ids::fresh_id();
        clocks_insert(&mut self.clocks, id, Clock::new(task, slices));
        id
    }

    /// Drop the clock with the given identifier; an unknown identifier is a
    /// silent no-op.
    pub fn delete_clock(&mut self, id: EntityId)
        ensures
            final(self)@.name == old(self)@.name,
            final(self)@.clocks == old(self)@.clocks.remove(id),
    {
        clocks_remove(&mut self.clocks, id);
    }

    /// Give the player a new name and hand the previous one back.
    pub fn rename(&mut self, name: String) -> (prev: String)
        ensures
            final(self)@.name == name@,
            final(self)@.clocks == old(self)@.clocks,
            prev@ == old(self)@.name,
    {
        let mut taken = name;
        core::mem::swap(&mut self.name, &mut taken);
        taken
    }

    /// A copy of the clock with the given identifier, if the player owns one.
    pub fn get_clock(&self, id: EntityId) -> (r: Option<Clock>)
        ensures
            match r {
                Some(c) => self@.clocks.dom().contains(id) && c@ == self@.clocks[id],
                None => !self@.clocks.dom().contains(id),
            },
    {
        clocks_get(&self.clocks, id)
    }

    /// Every clock of this player, paired with its identifier, in no
    /// particular order.
    pub fn clock_pairs(&self) -> (r: Vec<(EntityId, Clock)>)
        ensures
            entries_match(r@, self@.clocks),
    {
        clocks_pairs(&self.clocks)
    }

    /// An owned copy of this player with the same name and the same clocks.
    pub fn duplicate(&self) -> (r: PlayerData)
        ensures
            r@ == self@,
    {
        PlayerData { name: self.name.clone(), clocks: clocks_clone(&self.clocks) }
    }

    /// Flatten this player into plain parts — its name and a list of
    /// identifier/clock pairs — the shape in which it is written to its
    /// backing file.
    pub fn to_parts(&self) -> (r: (String, Vec<(EntityId, Clock)>))
        ensures
            r.0@ == self@.name,
            entries_match(r.1@, self@.clocks),
    {
        (self.name.clone(), self.clock_pairs())
    }

    /// Rebuild a player from plain parts, as read back from its backing
    /// file.  A later pair under the same identifier overrides an earlier
    /// one.
    pub fn from_parts(name: String, clocks: Vec<(EntityId, Clock)>) -> (p: PlayerData)
        ensures
            p@.name == name@,
            p@.clocks == clock_map_of_pairs(clocks@),
    {
        let mut p = PlayerData::new(name);
        let mut i: usize = 0;
        while i < clocks.len()
            invariant
                i <= clocks.len(),
                p@.name == name@,
                p@.clocks == clock_map_of_pairs(clocks@.take(i as int)),
            decreases clocks.len() - i,
        {
            let id = clocks[i].0;
            let c = clocks[i].1.duplicate();
            clocks_insert(&mut p.clocks, id, c);
            proof {
                assert(clocks@.take(i + 1).drop_last() =~= clocks@.take(i as int));
                assert(clocks@.take(i + 1).last() == clocks@[i as int]);
            }
            i = i + 1;
        }
        proof {
            assert(clocks@.take(clocks@.len() as int) =~= clocks@);
        }
        p
    }
}

/// A clocks map rebuilt from a list of identifier/clock pairs, a later pair
/// under the same identifier overriding an earlier one.
pub open spec fn clock_map_of_pairs(entries: Seq<(EntityId, Clock)>) -> Map<EntityId, ClockView>
    decreases entries.len(),
{
    if entries.len() == 0 {
        no_clocks()
    } else {
        clock_map_of_pairs(entries.drop_last()).insert(entries.last().0, entries.last().1@)
    }
}

/// A snapshot list that matches a clocks map rebuilds exactly that map.
proof fn lemma_entries_match_rebuild(entries: Seq<(EntityId, Clock)>, m: Map<EntityId, ClockView>)
    requires
        entries_match(entries, m),
    ensures
        clock_map_of_pairs(entries) == m,
    decreases entries.len(),
{
    if entries.len() == 0 {
        assert forall|k: EntityId| !m.dom().contains(k) by {
            if m.dom().contains(k) {
                let i = choose|i: int| 0 <= i < entries.len() && (#[trigger] entries[i]).0 == k;
            }
        }
        assert(clock_map_of_pairs(entries) =~= m);
    } else {
        let last = entries.last();
        let rest = entries.drop_last();
        let n = entries.len() - 1;
        assert(m.contains_pair(entries[n].0, entries[n].1@));
        assert forall|k: EntityId| #[trigger]
            m.remove(last.0).dom().contains(k) implies exists|i: int|
            0 <= i < rest.len() && (#[trigger] rest[i]).0 == k by {
            let i = choose|i: int| 0 <= i < entries.len() && (#[trigger] entries[i]).0 == k;
            assert(i < n);
            assert(rest[i].0 == k);
        }
        assert forall|i: int| 0 <= i < rest.len() implies m.remove(last.0).contains_pair(
            (#[trigger] rest[i]).0,
            rest[i].1@,
        ) by {
            assert(m.contains_pair(entries[i].0, entries[i].1@));
            assert(entries[i].0 != entries[n].0);
        }
        lemma_entries_match_rebuild(rest, m.remove(last.0));
        assert(clock_map_of_pairs(entries) =~= m);
    }
}

/// Round-trip law for persistence: a player rebuilt from any parts list that
/// flattening could have produced is the very player the list was taken
/// from — the same name, and every clock with its task, slices and progress.
pub proof fn lemma_player_parts_round_trip(
    p: PlayerView,
    name: Seq<char>,
    entries: Seq<(EntityId, Clock)>,
)
    requires
        name == p.name,
        entries_match(entries, p.clocks),
    ensures
        (PlayerView { name: name, clocks: clock_map_of_pairs(entries) }) == p,
{
    lemma_entries_match_rebuild(entries, p.clocks);
}

} // verus!
