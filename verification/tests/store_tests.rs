use bitd_sync::clock::Clock;
use bitd_sync::player::PlayerData;
use bitd_sync::store::{Bitd, BitdError, Note, NoteKind};

#[test]
fn add_player_then_lookup() {
    let mut b = Bitd::new();
    let id = b.add_player("branch".to_string());
    let p = b.get_player(id).expect("the player was just added");
    assert_eq!(p.name, "branch");
    assert!(p.clock_pairs().is_empty());
}

#[test]
fn add_clock_on_unknown_player_is_player_lookup() {
    let mut b = Bitd::new();
    let r = b.add_clock(42, "task".to_string(), 5);
    assert!(matches!(r, Err(BitdError::PlayerLookup(42))));
}

#[test]
fn increment_clock_on_unknown_clock_is_clock_lookup() {
    let mut b = Bitd::new();
    let pid = b.add_player("branch".to_string());
    let r = b.increment_clock(pid, 7);
    assert!(matches!(r, Err(BitdError::ClockLookup(p, 7)) if p == pid));
    let r = b.decrement_clock(pid, 7);
    assert!(matches!(r, Err(BitdError::ClockLookup(p, 7)) if p == pid));
}

#[test]
fn increment_clock_on_unknown_player_is_player_lookup() {
    let mut b = Bitd::new();
    let r = b.increment_clock(9, 7);
    assert!(matches!(r, Err(BitdError::PlayerLookup(9))));
}

#[test]
fn delete_unknown_clock_on_known_player_is_a_no_op() {
    let mut b = Bitd::new();
    let pid = b.add_player("branch".to_string());
    let r = b.delete_clock(pid, 7);
    assert!(r.is_ok());
    let p = b.get_player(pid).unwrap();
    assert!(p.clock_pairs().is_empty());
}

#[test]
fn delete_clock_on_unknown_player_is_player_lookup() {
    let mut b = Bitd::new();
    let r = b.delete_clock(42, 7);
    assert!(matches!(r, Err(BitdError::PlayerLookup(42))));
}

#[test]
fn clock_lifecycle_under_a_player() {
    let mut b = Bitd::new();
    let pid = b.add_player("branch".to_string());
    let cid = b.add_clock(pid, "spicy goblins".to_string(), 5).unwrap();
    let c = b.get_player(pid).unwrap().get_clock(cid).unwrap();
    assert_eq!(c.task, "spicy goblins");
    assert_eq!(c.slices, 5);
    assert_eq!(c.progress, 0);

    b.increment_clock(pid, cid).unwrap();
    b.increment_clock(pid, cid).unwrap();
    let c = b.get_player(pid).unwrap().get_clock(cid).unwrap();
    assert_eq!(c.progress, 2);

    b.decrement_clock(pid, cid).unwrap();
    let c = b.get_player(pid).unwrap().get_clock(cid).unwrap();
    assert_eq!(c.progress, 1);

    b.delete_clock(pid, cid).unwrap();
    assert!(b.get_player(pid).unwrap().get_clock(cid).is_none());
}

#[test]
fn rename_player_returns_the_old_name() {
    let mut b = Bitd::new();
    let pid = b.add_player("old name".to_string());
    let prev = b.rename_player(pid, "new name".to_string());
    assert_eq!(prev.as_deref(), Some("old name"));
    assert_eq!(b.get_player(pid).unwrap().name, "new name");
}

#[test]
fn rename_unknown_player_is_none() {
    let mut b = Bitd::new();
    assert!(b.rename_player(5, "x".to_string()).is_none());
}

#[test]
fn remove_player_removes_it_and_tolerates_absence() {
    let mut b = Bitd::new();
    let pid = b.add_player("branch".to_string());
    b.remove_player(pid);
    assert!(b.get_player(pid).is_none());
    // removing again is silently tolerated
    b.remove_player(pid);
    assert!(b.get_player(pid).is_none());
}

#[test]
fn two_players_are_kept_apart() {
    let mut b = Bitd::new();
    let a = b.add_player("ann".to_string());
    let z = b.add_player("zoe".to_string());
    assert_ne!(a, z);
    let pairs = b.players_pairs();
    assert_eq!(pairs.len(), 2);
    let c = b.add_clock(a, "task".to_string(), 3).unwrap();
    assert!(b.get_player(z).unwrap().get_clock(c).is_none());
}

#[test]
fn landmarks_are_stored_and_listed() {
    let mut b = Bitd::new();
    let x = 12.5f64.to_bits();
    let y = (-3.25f64).to_bits();
    let id = b.add_landmark("old oak".to_string(), x, y);
    let l = b.get_landmark(id).expect("the landmark was just added");
    assert_eq!(l.name, "old oak");
    assert_eq!(f64::from_bits(l.x), 12.5);
    assert_eq!(f64::from_bits(l.y), -3.25);
    let pairs = b.landmarks_pairs();
    assert_eq!(pairs.len(), 1);
    assert_eq!(pairs[0].0, id);
}

#[test]
fn restored_entities_come_back() {
    let mut b = Bitd::new();
    let player = PlayerData::from_parts(
        "loaded".to_string(),
        vec![(9, Clock { task: "carry".to_string(), slices: 6, progress: 2 })],
    );
    b.restore_player(77, player);
    let p = b.get_player(77).unwrap();
    assert_eq!(p.name, "loaded");
    let c = p.get_clock(9).unwrap();
    assert_eq!((c.task.as_str(), c.slices, c.progress), ("carry", 6, 2));

    b.restore_landmark(5, bitd_sync::store::Landmark { name: "well".to_string(), x: 1, y: 2 });
    assert_eq!(b.get_landmark(5).unwrap().name, "well");

    b.restore_note(3, Note { name: "rumor".to_string(), content: 0, kind: NoteKind::Event });
    let notes = b.notes_pairs();
    assert_eq!(notes.len(), 1);
    assert_eq!(notes[0].0, 3);
    assert_eq!(notes[0].1.name, "rumor");
    assert!(matches!(notes[0].1.kind, NoteKind::Event));
}

#[test]
fn player_parts_round_trip() {
    // Persistence round trip at the record level: flattening a player and
    // rebuilding it restores the name and every clock exactly.
    let mut b = Bitd::new();
    let pid = b.add_player("branch".to_string());
    let c1 = b.add_clock(pid, "first".to_string(), 4).unwrap();
    let c2 = b.add_clock(pid, "second".to_string(), 8).unwrap();
    b.increment_clock(pid, c1).unwrap();

    let p = b.get_player(pid).unwrap();
    let (name, pairs) = p.to_parts();
    let rebuilt = PlayerData::from_parts(name, pairs);

    assert_eq!(rebuilt.name, "branch");
    let r1 = rebuilt.get_clock(c1).unwrap();
    assert_eq!((r1.task.as_str(), r1.slices, r1.progress), ("first", 4, 1));
    let r2 = rebuilt.get_clock(c2).unwrap();
    assert_eq!((r2.task.as_str(), r2.slices, r2.progress), ("second", 8, 0));
    assert_eq!(rebuilt.clock_pairs().len(), 2);
}

#[test]
fn duplicate_player_is_equal_and_independent() {
    let mut b = Bitd::new();
    let pid = b.add_player("branch".to_string());
    let cid = b.add_clock(pid, "task".to_string(), 5).unwrap();
    let copy = b.get_player(pid).unwrap().duplicate();
    // mutate the store; the copy keeps the old state
    b.increment_clock(pid, cid).unwrap();
    assert_eq!(copy.get_clock(cid).unwrap().progress, 0);
    assert_eq!(b.get_player(pid).unwrap().get_clock(cid).unwrap().progress, 1);
}
