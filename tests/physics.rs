use rollback_sync::checksum::fletcher16;
use rollback_sync::ledger::{FrameHashes, IntegrityFault};
use rollback_sync::physics::{
    rollback_rapier_context, save_rapier_context, toggle_physics, EnablePhysicsAfter,
    PhysicsEnabled, PhysicsRollbackState, RollbackStatus,
};

#[test]
fn physics_gate_window() {
    let gate = EnablePhysicsAfter::new(10, 20);
    assert!(gate.is_enabled(10));
    assert!(!gate.is_enabled(11));
    assert!(!gate.is_enabled(19));
    assert!(gate.is_enabled(20));
    assert!(gate.is_enabled(0));
}

#[test]
fn default_offset_window() {
    let gate = EnablePhysicsAfter::with_default_offset(5);
    assert_eq!(gate.start, 5);
    assert_eq!(gate.end, 185);
    assert_eq!(EnablePhysicsAfter::default(), EnablePhysicsAfter::new(0, 180));
}

#[test]
fn toggle_sets_gate_and_pipeline() {
    let gate = EnablePhysicsAfter::new(0, 180);
    let mut enabled = PhysicsEnabled(true);
    let mut active = true;
    toggle_physics(&gate, 50, &mut enabled, &mut active);
    assert_eq!(enabled, PhysicsEnabled(false));
    assert!(!active);
    toggle_physics(&gate, 180, &mut enabled, &mut active);
    assert_eq!(enabled, PhysicsEnabled(true));
    assert!(active);
}

#[test]
fn save_stores_snapshot_and_fingerprint() {
    let mut state = PhysicsRollbackState::new();
    let mut hashes = FrameHashes::new(8);
    let bytes = vec![1u8, 2, 3, 4];
    let sum = fletcher16(&bytes);
    assert_eq!(save_rapier_context(&mut state, Ok(bytes.clone()), &mut hashes, 2, 3), Ok(()));
    assert_eq!(state.rapier_state, Some(bytes));
    assert_eq!(state.rapier_checksum, sum);
    let e = hashes.get(3).unwrap();
    assert_eq!((e.checksum, e.confirmed, e.sent), (sum, false, false));
    assert_eq!(save_rapier_context(&mut state, Ok(vec![9u8]), &mut hashes, 4, 4), Ok(()));
    assert!(hashes.get(4).unwrap().confirmed);
}

#[test]
fn failed_serialization_changes_nothing() {
    let mut state = PhysicsRollbackState::new();
    let mut hashes = FrameHashes::new(8);
    let fault: bincode::Error = Box::new(bincode::ErrorKind::SizeLimit);
    assert_eq!(save_rapier_context(&mut state, Err(fault), &mut hashes, 0, 0), Ok(()));
    assert_eq!(state.rapier_state, None);
    assert_eq!(hashes.get(0), None);
}

#[test]
fn save_detects_changed_sent_frame() {
    let mut state = PhysicsRollbackState::new();
    let mut hashes = FrameHashes::new(8);
    assert_eq!(save_rapier_context(&mut state, Ok(vec![1u8]), &mut hashes, 7, 7), Ok(()));
    hashes.mark_sent(7);
    let stored = fletcher16(&[1u8]);
    let received = fletcher16(&[2u8]);
    assert_eq!(
        save_rapier_context(&mut state, Ok(vec![2u8]), &mut hashes, 7, 7),
        Err(IntegrityFault { frame: 7, stored, received })
    );
}

#[test]
fn rollback_skip_at_frame_one() {
    let mut state = PhysicsRollbackState::new();
    state.rapier_state = Some(vec![5u8, 6]);
    let status = RollbackStatus { is_rollback: true, rollback_frame: 1 };
    assert!(!status.should_restore());
    assert_eq!(rollback_rapier_context(&status, &state), None);
}

#[test]
fn rollback_restores_saved_buffer() {
    let mut state = PhysicsRollbackState::new();
    let mut hashes = FrameHashes::new(8);
    assert_eq!(save_rapier_context(&mut state, Ok(vec![5u8, 6]), &mut hashes, 0, 2), Ok(()));
    let status = RollbackStatus { is_rollback: true, rollback_frame: 2 };
    let restored = rollback_rapier_context(&status, &state).unwrap();
    assert_eq!(restored, &vec![5u8, 6]);
    assert_eq!(fletcher16(restored), state.rapier_checksum);
    let plain = RollbackStatus { is_rollback: false, rollback_frame: 5 };
    assert_eq!(rollback_rapier_context(&plain, &state), None);
}
