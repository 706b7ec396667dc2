use bitd_sync::packet::{render_update, UpdatePacket};
use bitd_sync::protocol::{
    apply_instruction, sync_request_after, Effect, Instruction, Persist, SyncRequest,
};
use bitd_sync::store::Bitd;

fn announce(effect: Effect) -> SyncRequest {
    // the persistence step is outside these tests; treat it as succeeding
    sync_request_after(effect, Ok(()))
}

#[test]
fn add_player_round() {
    // Scenario: start with no players; AddPlayer("branch") is answered with
    // a Player packet holding the new name and no clocks.
    let mut b = Bitd::new();
    let eff = apply_instruction(&mut b, Instruction::AddPlayer("branch".to_string())).unwrap();
    let pid = match eff.on_success {
        SyncRequest::AddPlayer(pid) => pid,
        ref other => panic!("expected an AddPlayer notification, got {:?}", other),
    };
    assert_eq!(eff.persist, Persist::PlayerFile(pid));
    match render_update(&b, announce(eff)) {
        Some(UpdatePacket::Player { player_id, player_data }) => {
            assert_eq!(player_id, pid);
            assert_eq!(player_data.name, "branch");
            assert!(player_data.clock_pairs().is_empty());
        }
        other => panic!("expected a Player packet, got {:?}", other),
    }
}

#[test]
fn add_clock_broadcast_reaches_the_other_client() {
    // Two clients share the one store and the one bus.  When client A's
    // AddClock succeeds, the notification rendered for client B carries the
    // fresh clock: its task, its slices and progress 0.
    let mut b = Bitd::new();
    let eff = apply_instruction(&mut b, Instruction::AddPlayer("ann".to_string())).unwrap();
    let pid = match eff.on_success {
        SyncRequest::AddPlayer(pid) => pid,
        _ => unreachable!(),
    };

    // client A mutates
    let eff = apply_instruction(
        &mut b,
        Instruction::AddClock(pid, "task".to_string(), 5),
    )
    .unwrap();
    let req_for_b = announce(eff);

    // client B's outbound side resolves the same notification
    match render_update(&b, req_for_b) {
        Some(UpdatePacket::Clock { player_id, clock_id: _, clock }) => {
            assert_eq!(player_id, pid);
            assert_eq!(clock.task, "task");
            assert_eq!(clock.slices, 5);
            assert_eq!(clock.progress, 0);
        }
        other => panic!("expected a Clock packet, got {:?}", other),
    }
}

#[test]
fn full_session_scenario() {
    // AddPlayer, AddClock, five increments reach progress 5, and a sixth
    // increment still answers progress 5 — saturated, not an error.
    let mut b = Bitd::new();

    let eff = apply_instruction(&mut b, Instruction::AddPlayer("branch".to_string())).unwrap();
    let pid = match announce(eff) {
        SyncRequest::AddPlayer(pid) => pid,
        other => panic!("expected an AddPlayer notification, got {:?}", other),
    };

    let eff = apply_instruction(
        &mut b,
        Instruction::AddClock(pid, "spicy goblins".to_string(), 5),
    )
    .unwrap();
    let cid = match render_update(&b, announce(eff)) {
        Some(UpdatePacket::Clock { player_id, clock_id, clock }) => {
            assert_eq!(player_id, pid);
            assert_eq!(clock.task, "spicy goblins");
            assert_eq!(clock.slices, 5);
            assert_eq!(clock.progress, 0);
            clock_id
        }
        other => panic!("expected a Clock packet, got {:?}", other),
    };

    let mut last_progress = 0;
    for _ in 0..5 {
        let eff = apply_instruction(&mut b, Instruction::IncrementClock(pid, cid)).unwrap();
        match render_update(&b, announce(eff)) {
            Some(UpdatePacket::Clock { clock, .. }) => last_progress = clock.progress,
            other => panic!("expected a Clock packet, got {:?}", other),
        }
    }
    assert_eq!(last_progress, 5);

    // the sixth increment saturates rather than failing
    let eff = apply_instruction(&mut b, Instruction::IncrementClock(pid, cid))
        .expect("a saturated increment is not an error");
    match render_update(&b, announce(eff)) {
        Some(UpdatePacket::Clock { clock, .. }) => assert_eq!(clock.progress, 5),
        other => panic!("expected a Clock packet, got {:?}", other),
    }
}

#[test]
fn remove_player_leaves_full_sync() {
    // RemovePlayer removes the player from later FullSync answers; removing
    // an unknown identifier yields no error and only the idempotent removal
    // notification.
    let mut b = Bitd::new();
    let eff = apply_instruction(&mut b, Instruction::AddPlayer("ann".to_string())).unwrap();
    let ann = match eff.on_success {
        SyncRequest::AddPlayer(pid) => pid,
        _ => unreachable!(),
    };
    let eff = apply_instruction(&mut b, Instruction::AddPlayer("zoe".to_string())).unwrap();
    let zoe = match eff.on_success {
        SyncRequest::AddPlayer(pid) => pid,
        _ => unreachable!(),
    };

    let eff = apply_instruction(&mut b, Instruction::RemovePlayer(ann)).unwrap();
    assert_eq!(eff.persist, Persist::RemovePlayerFile(ann));
    match announce(eff) {
        SyncRequest::RemovePlayer(pid) => assert_eq!(pid, ann),
        other => panic!("expected a RemovePlayer notification, got {:?}", other),
    }

    let eff = apply_instruction(&mut b, Instruction::FullSync).unwrap();
    assert_eq!(eff.persist, Persist::Nothing);
    match render_update(&b, announce(eff)) {
        Some(UpdatePacket::Full { players, landmarks }) => {
            assert!(players.iter().all(|(pid, _)| *pid != ann));
            assert_eq!(players.len(), 1);
            assert_eq!(players[0].0, zoe);
            assert!(landmarks.is_empty());
        }
        other => panic!("expected a Full packet, got {:?}", other),
    }

    // unknown identifier: still no error, still the removal notification
    let eff = apply_instruction(&mut b, Instruction::RemovePlayer(ann))
        .expect("removal is idempotent");
    assert!(matches!(eff.on_success, SyncRequest::RemovePlayer(pid) if pid == ann));
}

#[test]
fn lookup_failure_is_an_error_for_the_caller_only() {
    let mut b = Bitd::new();
    let r = apply_instruction(&mut b, Instruction::IncrementClock(1, 2));
    assert!(matches!(r, Err(bitd_sync::store::BitdError::PlayerLookup(1))));
    // the store is untouched
    assert!(b.players_pairs().is_empty());
}

#[test]
fn failed_persistence_turns_into_an_error_notification() {
    let mut b = Bitd::new();
    let eff = apply_instruction(&mut b, Instruction::AddPlayer("ann".to_string())).unwrap();
    let req = sync_request_after(eff, Err("disk full".to_string()));
    match render_update(&b, req) {
        Some(UpdatePacket::Error { text }) => assert_eq!(text, "disk full"),
        other => panic!("expected an Error packet, got {:?}", other),
    }
}

#[test]
fn add_landmark_round() {
    let mut b = Bitd::new();
    let x = 1.5f64.to_bits();
    let y = 2.5f64.to_bits();
    let eff = apply_instruction(
        &mut b,
        Instruction::AddLandmark("old oak".to_string(), x, y),
    )
    .unwrap();
    assert_eq!(eff.persist, Persist::LandmarksFile);
    match render_update(&b, announce(eff)) {
        Some(UpdatePacket::Landmark { id: _, data }) => {
            assert_eq!(data.name, "old oak");
            assert_eq!(data.x, x);
            assert_eq!(data.y, y);
        }
        other => panic!("expected a Landmark packet, got {:?}", other),
    }
}

#[test]
fn rename_player_round() {
    let mut b = Bitd::new();
    let eff = apply_instruction(&mut b, Instruction::AddPlayer("old".to_string())).unwrap();
    let pid = match eff.on_success {
        SyncRequest::AddPlayer(pid) => pid,
        _ => unreachable!(),
    };
    let eff = apply_instruction(&mut b, Instruction::RenamePlayer(pid, "new".to_string()))
        .unwrap();
    match render_update(&b, announce(eff)) {
        Some(UpdatePacket::PlayerName { player_id, player_name }) => {
            assert_eq!(player_id, pid);
            assert_eq!(player_name, "new");
        }
        other => panic!("expected a PlayerName packet, got {:?}", other),
    }
}

#[test]
fn delete_clock_round() {
    let mut b = Bitd::new();
    let eff = apply_instruction(&mut b, Instruction::AddPlayer("ann".to_string())).unwrap();
    let pid = match eff.on_success {
        SyncRequest::AddPlayer(pid) => pid,
        _ => unreachable!(),
    };
    let eff = apply_instruction(&mut b, Instruction::AddClock(pid, "t".to_string(), 3)).unwrap();
    let cid = match eff.on_success {
        SyncRequest::Clock(_, cid) => cid,
        _ => unreachable!(),
    };
    let eff = apply_instruction(&mut b, Instruction::DeleteClock(pid, cid)).unwrap();
    match render_update(&b, announce(eff)) {
        Some(UpdatePacket::DeleteClock { player_id, clock_id }) => {
            assert_eq!(player_id, pid);
            assert_eq!(clock_id, cid);
        }
        other => panic!("expected a DeleteClock packet, got {:?}", other),
    }
    assert!(b.get_player(pid).unwrap().get_clock(cid).is_none());
}

#[test]
fn stale_clock_notification_renders_nothing() {
    // the outbound side reads the store at delivery time; a coordinate that
    // no longer resolves yields no packet
    let mut b = Bitd::new();
    let eff = apply_instruction(&mut b, Instruction::AddPlayer("ann".to_string())).unwrap();
    let pid = match eff.on_success {
        SyncRequest::AddPlayer(pid) => pid,
        _ => unreachable!(),
    };
    let cid = b.add_clock(pid, "t".to_string(), 3).unwrap();
    let stale = SyncRequest::Clock(pid, cid);
    b.remove_player(pid);
    assert!(render_update(&b, stale).is_none());
}

#[test]
fn full_sync_on_an_empty_store() {
    let mut b = Bitd::new();
    let eff = apply_instruction(&mut b, Instruction::FullSync).unwrap();
    assert_eq!(eff.persist, Persist::Nothing);
    match render_update(&b, announce(eff)) {
        Some(UpdatePacket::Full { players, landmarks }) => {
            assert!(players.is_empty());
            assert!(landmarks.is_empty());
        }
        other => panic!("expected a Full packet, got {:?}", other),
    }
}
