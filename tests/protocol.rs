use rollback_sync::ledger::{FrameHashes, IntegrityFault};
use rollback_sync::physics::PhysicsEnabled;
use rollback_sync::rollback::{
    apply_inputs, attach_report, direction, input, keys_to_bits, random_to_bits, receive_report,
    Direction, GGRSInput, InputStatus, KeyState, LocalHandles, MouseSample, Player, RandomInput,
    INPUT_DOWN, INPUT_LEFT, INPUT_RIGHT, INPUT_UP, NULL_FRAME,
};
use rollback_sync::window::ValidityWindow;

fn no_keys() -> KeyState {
    KeyState { up: false, down: false, left: false, right: false }
}

#[test]
fn no_op_frame_packet_carries_sentinel() {
    let mut hashes = FrameHashes::new(8);
    let w = ValidityWindow::new(0, 0);
    let mut packet = GGRSInput::empty();
    attach_report(&mut packet, &mut hashes, &w);
    assert_eq!(packet.last_confirmed_frame, NULL_FRAME);
    assert_eq!(NULL_FRAME, -1);
}

#[test]
fn packet_reports_once() {
    let mut hashes = FrameHashes::new(8);
    assert_eq!(hashes.record(10, 0x1234, true), Ok(()));
    let w = ValidityWindow::new(30, 8);
    let mut random = RandomInput { on: false };
    let locals = LocalHandles::new(vec![0]);
    let first = input(0, &locals, no_keys(), &mut random, 9, &PhysicsEnabled(true), &mut hashes, &w, None);
    assert_eq!((first.last_confirmed_frame, first.last_confirmed_hash), (10, 0x1234));
    assert!(hashes.get(10).unwrap().sent);
    let second = input(0, &locals, no_keys(), &mut random, 9, &PhysicsEnabled(true), &mut hashes, &w, None);
    assert_eq!(second.last_confirmed_frame, NULL_FRAME);
}

#[test]
fn key_bits_and_random_bits() {
    let all = KeyState { up: true, down: true, left: true, right: true };
    assert_eq!(keys_to_bits(all), 0b1111);
    assert_eq!(keys_to_bits(KeyState { left: true, ..no_keys() }), INPUT_LEFT);
    assert_eq!(random_to_bits(0), INPUT_UP);
    assert_eq!(random_to_bits(1), INPUT_LEFT);
    assert_eq!(random_to_bits(2), INPUT_DOWN);
    assert_eq!(random_to_bits(3), INPUT_RIGHT);
    assert_eq!(random_to_bits(7), 0);
}

#[test]
fn input_before_physics_is_idle() {
    let mut hashes = FrameHashes::new(8);
    let w = ValidityWindow::new(0, 0);
    let mut random = RandomInput { on: true };
    let locals = LocalHandles::new(vec![0]);
    let keys = KeyState { up: true, ..no_keys() };
    let mouse = Some(MouseSample { x: 3, y: 4, clicked: true });
    let p = input(0, &locals, keys, &mut random, 0, &PhysicsEnabled(false), &mut hashes, &w, mouse);
    assert_eq!((p.input, p.mouse_visible, p.mouse_x), (0, 0, 0));
    assert!(random.on);
}

#[test]
fn input_with_keys_and_mouse() {
    let mut hashes = FrameHashes::new(8);
    let w = ValidityWindow::new(0, 0);
    let mut random = RandomInput { on: true };
    let locals = LocalHandles::new(vec![0]);
    let keys = KeyState { up: true, right: true, ..no_keys() };
    let mouse = Some(MouseSample { x: -3, y: 4, clicked: true });
    let p = input(0, &locals, keys, &mut random, 0, &PhysicsEnabled(true), &mut hashes, &w, mouse);
    assert_eq!(p.input, INPUT_UP | INPUT_RIGHT);
    assert_eq!((p.mouse_visible, p.mouse_clicked, p.mouse_x, p.mouse_y), (1, 1, -3, 4));
    assert!(!random.on);
}

#[test]
fn idle_local_player_gets_random_input() {
    let mut hashes = FrameHashes::new(8);
    let w = ValidityWindow::new(0, 0);
    let mut random = RandomInput { on: true };
    let locals = LocalHandles::new(vec![1]);
    let p = input(1, &locals, no_keys(), &mut random, 2, &PhysicsEnabled(true), &mut hashes, &w, None);
    assert_eq!(p.input, INPUT_DOWN);
    assert!(random.on);
    let remote = input(0, &locals, no_keys(), &mut random, 2, &PhysicsEnabled(true), &mut hashes, &w, None);
    assert_eq!(remote.input, 0);
}

#[test]
fn sentinel_report_is_ignored() {
    let mut hashes = FrameHashes::new(8);
    assert_eq!(hashes.reconcile_inbound(7, 0x5), Ok(()));
    let packet = GGRSInput::new(0, 0, 0, 0, 0, 0x9, NULL_FRAME);
    assert_eq!(receive_report(&mut hashes, false, &packet), Ok(()));
    assert_eq!(hashes.get(7).unwrap().checksum, 0x5);
    assert_eq!(hashes.slot(7).unwrap().frame, 7);
}

#[test]
fn local_report_is_ignored() {
    let mut hashes = FrameHashes::new(8);
    let packet = GGRSInput::new(0, 0, 0, 0, 0, 0x9, 3);
    assert_eq!(receive_report(&mut hashes, true, &packet), Ok(()));
    assert_eq!(hashes.get(3), None);
    assert_eq!(receive_report(&mut hashes, false, &packet), Ok(()));
    assert_eq!(hashes.get(3).unwrap().checksum, 0x9);
}

#[test]
fn directions_of_input_bits() {
    assert_eq!(direction(INPUT_LEFT), Direction { horizontal: -1, vertical: 0 });
    assert_eq!(direction(INPUT_RIGHT | INPUT_UP), Direction { horizontal: 1, vertical: 1 });
    assert_eq!(direction(INPUT_LEFT | INPUT_RIGHT | INPUT_DOWN), Direction { horizontal: 0, vertical: -1 });
    assert_eq!(direction(0), Direction { horizontal: 0, vertical: 0 });
}

#[test]
fn apply_inputs_reconciles_and_moves() {
    let players = vec![Player { handle: 0 }, Player { handle: 1 }];
    let inputs = vec![
        (GGRSInput::new(INPUT_UP, 0, 0, 0, 0, 0x3, 4), InputStatus::Confirmed),
        (GGRSInput::new(INPUT_LEFT, 0, 0, 0, 0, 0x4, 6), InputStatus::Disconnected),
    ];
    let locals = LocalHandles::new(vec![0]);
    let mut hashes = FrameHashes::new(8);
    let r = apply_inputs(&players, &inputs, &mut hashes, &locals, &PhysicsEnabled(true)).unwrap();
    assert_eq!(
        r,
        vec![Some(Direction { horizontal: 0, vertical: 1 }), Some(Direction { horizontal: 0, vertical: 0 })]
    );
    assert_eq!(hashes.get(4), None);
    assert_eq!(hashes.get(6).unwrap().checksum, 0x4);
    let idle = apply_inputs(&players, &inputs, &mut hashes, &locals, &PhysicsEnabled(false)).unwrap();
    assert_eq!(idle, vec![None, None]);
}

#[test]
fn apply_inputs_stops_on_desync() {
    let players = vec![Player { handle: 0 }];
    let inputs = vec![(GGRSInput::new(0, 0, 0, 0, 0, 0xBBBB, 5), InputStatus::Predicted)];
    let locals = LocalHandles::new(vec![]);
    let mut hashes = FrameHashes::new(8);
    assert_eq!(hashes.reconcile_inbound(5, 0xAAAA), Ok(()));
    assert_eq!(
        apply_inputs(&players, &inputs, &mut hashes, &locals, &PhysicsEnabled(true)),
        Err(IntegrityFault { frame: 5, stored: 0xAAAA, received: 0xBBBB })
    );
}
