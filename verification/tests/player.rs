use web_controller::gamepad::{GamepadState, XGamepad};
use web_controller::packet::Packet;
use web_controller::player::{
    elapsed, push_gamepad_update, PlayerController, XboxTarget, CONNECTION_TIMEOUT,
};

fn zeros() -> XGamepad {
    XGamepad {
        buttons: 0,
        left_trigger: 0,
        right_trigger: 0,
        thumb_lx: 0,
        thumb_ly: 0,
        thumb_rx: 0,
        thumb_ry: 0,
    }
}

fn packet(msg_type: u8) -> Packet {
    Packet {
        sequence: 1,
        msg_type,
        buttons: 0x1010,
        left_trigger: 3,
        right_trigger: 4,
        lx: 0,
        ly: 0,
        rx: 0,
        ry: 0,
    }
}

#[test]
fn a_new_slot_is_vacant() {
    let player = PlayerController::new(3, XboxTarget::Unplugged, 17);
    assert_eq!(player.player_id, 3);
    assert!(!player.connected);
    assert_eq!(player.connection_generation, 0);
    assert_eq!(player.connected_at, 17);
    assert_eq!(player.gamepad, GamepadState::default());
    assert_eq!(player.rumble_tx, None);
    assert_eq!(push_gamepad_update(&player), None);
}

#[test]
fn attach_without_a_virtual_controller_fails() {
    let mut player = PlayerController::new(1, XboxTarget::Unplugged, 0);
    assert_eq!(
        player.attach(false, 5),
        Err("failed to create virtual controller".to_string())
    );
    assert!(!player.connected);
    assert_eq!(player.connection_generation, 0);
    assert_eq!(player.xbox, XboxTarget::Unplugged);
}

#[test]
fn attach_without_platform_support_succeeds() {
    let mut player = PlayerController::new(1, XboxTarget::Unsupported, 0);
    assert_eq!(player.attach(false, 5), Ok(1));
    assert_eq!(player.xbox, XboxTarget::Unsupported);
    assert_eq!(push_gamepad_update(&player), None);
    let duties = player.detach();
    assert_eq!((duties.report, duties.unplug), (None, false));
}

#[test]
fn attach_and_detach() {
    let mut player = PlayerController::new(1, XboxTarget::Unplugged, 0);
    assert_eq!(player.attach(true, 5), Ok(1));
    assert!(player.connected);
    assert!(player.is_owned_by(1));
    assert_eq!(player.rumble_tx, Some(1));
    assert_eq!(player.xbox, XboxTarget::Plugged);
    assert_eq!(push_gamepad_update(&player), Some(zeros()));
    player.steer(packet(1), (5, 6), (7, 8));
    let duties = player.detach();
    assert_eq!(duties.report, Some(zeros()));
    assert!(duties.unplug);
    assert!(!player.connected);
    assert!(!player.is_owned_by(1) && !player.is_owned_by(2));
    assert_eq!(player.connection_generation, 2);
    assert_eq!(player.gamepad, GamepadState::default());
    assert_eq!(player.rumble_tx, None);
    assert_eq!(player.attach(true, 9), Ok(3));
}

#[test]
fn generations_skip_zero() {
    let mut player = PlayerController::new(1, XboxTarget::Unsupported, 0);
    player.connection_generation = u64::MAX;
    assert_eq!(player.attach(true, 0), Ok(1));
    player.connection_generation = u64::MAX;
    player.detach();
    assert_eq!(player.connection_generation, 1);
}

#[test]
fn packets_are_taken_in_order() {
    let mut player = PlayerController::new(1, XboxTarget::Unsupported, 0);
    player.attach(true, 0).unwrap();
    assert!(player.accept(65000, 1));
    assert!(!player.accept(65000, 2));
    assert!(!player.accept(64999, 3));
    assert!(player.accept(65001, 4));
    assert!(player.accept(3, 5));
    assert_eq!(player.packet_count, 3);
    assert_eq!(player.dropped_packets, 2);
    assert_eq!(player.last_packet_at, 5);
    assert_eq!(player.last_sequence, 3);
}

#[test]
fn counts_saturate() {
    let mut player = PlayerController::new(1, XboxTarget::Unsupported, 0);
    player.packet_count = u64::MAX;
    player.dropped_packets = u64::MAX;
    assert!(player.accept(1, 1));
    assert!(!player.accept(1, 1));
    assert_eq!(player.packet_count, u64::MAX);
    assert_eq!(player.dropped_packets, u64::MAX);
}

#[test]
fn only_a_state_packet_steers() {
    let mut player = PlayerController::new(1, XboxTarget::Unplugged, 0);
    player.attach(true, 0).unwrap();
    assert_eq!(player.steer(packet(2), (5, 6), (7, 8)), None);
    assert_eq!(player.gamepad, GamepadState::default());
    assert_eq!(
        player.steer(packet(1), (5, 6), (7, 8)),
        Some(XGamepad {
            buttons: 0x1010,
            left_trigger: 3,
            right_trigger: 4,
            thumb_lx: 5,
            thumb_ly: 6,
            thumb_rx: 7,
            thumb_ry: 8,
        })
    );
}

#[test]
fn sticks_by_name() {
    let mut player = PlayerController::new(1, XboxTarget::Unsupported, 0);
    assert_eq!(player.lean("right", (1, 2)), None);
    player.lean("left", (3, 4));
    assert_eq!(
        (
            player.gamepad.thumb_rx,
            player.gamepad.thumb_ry,
            player.gamepad.thumb_lx,
            player.gamepad.thumb_ly
        ),
        (1, 2, 3, 4)
    );
    player.lean("anything", (5, 6));
    assert_eq!((player.gamepad.thumb_lx, player.gamepad.thumb_ly), (5, 6));
}

#[test]
fn silence_is_measured_from_the_last_packet() {
    let mut player = PlayerController::new(1, XboxTarget::Unsupported, 0);
    assert!(!player.timed_out(u64::MAX));
    player.attach(true, 100).unwrap();
    assert!(!player.timed_out(100 + CONNECTION_TIMEOUT));
    assert!(player.timed_out(101 + CONNECTION_TIMEOUT));
    assert!(!player.timed_out(50));
    assert_eq!(CONNECTION_TIMEOUT, 8_000_000_000);
}

#[test]
fn elapsed_time_is_never_negative() {
    assert_eq!(elapsed(5, 12), 7);
    assert_eq!(elapsed(12, 5), 0);
}

#[test]
fn latency_is_measured_from_probe_to_echo() {
    let mut player = PlayerController::new(1, XboxTarget::Unsupported, 0);
    player.attach(true, 0).unwrap();
    player.echo(5);
    assert_eq!(player.latency, None);
    assert!(player.probe(10));
    assert!(!player.probe(20));
    player.echo(35);
    assert_eq!(player.latency, Some(25));
    assert_eq!(player.probed_at, None);
    assert!(player.probe(40));
    player.detach();
    assert_eq!((player.latency, player.probed_at), (None, None));
}
