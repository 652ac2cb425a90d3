use web_controller::messages::ClientMessage;
use web_controller::player::CONNECTION_TIMEOUT;
use web_controller::server::{ClientAction, Joining, PacketOutcome, Server, MAX_PLAYERS};

fn join(server: &mut Server, now: u64) -> (usize, u64) {
    match server.join(true, now) {
        Joining::Joined {
            player_id,
            generation,
            welcome,
            ..
        } => {
            assert_eq!(welcome.kind, "welcome");
            assert_eq!(welcome.player_id, player_id);
            (player_id, generation)
        }
        other => panic!("not joined: {:?}", other),
    }
}

fn state_packet(slot: u8, sequence: u16, buttons: u16) -> Vec<u8> {
    let s = sequence.to_be_bytes();
    let b = buttons.to_be_bytes();
    vec![slot, s[0], s[1], 1, b[0], b[1], 11, 22, 1, 2, 3, 0xfc]
}

fn curve(x: i8, y: i8) -> (i16, i16) {
    (x as i16 * 100, -(y as i16) * 100)
}

fn press(button: &str) -> ClientMessage {
    ClientMessage::ButtonPress {
        button: button.to_string(),
    }
}

#[test]
fn phones_get_the_lowest_free_slot() {
    let mut server = Server::new(false, 0);
    assert_eq!(server.claim_slot(), Some(1));
    for id in 1..=MAX_PLAYERS {
        assert_eq!(join(&mut server, 0), (id, 1));
    }
    assert_eq!(server.claim_slot(), None);
    assert_eq!(server.active_players(), 4);
}

#[test]
fn a_full_server_turns_phones_away() {
    let mut server = Server::new(false, 0);
    for _ in 0..MAX_PLAYERS {
        join(&mut server, 0);
    }
    match server.join(true, 1) {
        Joining::Full { reply } => {
            assert_eq!(reply, "{\"max_players\":4,\"type\":\"server_full\"}");
        }
        other => panic!("not full: {:?}", other),
    }
    assert_eq!(server.active_players(), 4);
}

#[test]
fn a_slot_becomes_available_again() {
    let mut server = Server::new(false, 0);
    for _ in 0..3 {
        join(&mut server, 0);
    }
    server.leave(2, 1);
    assert_eq!(server.claim_slot(), Some(2));
    assert_eq!(join(&mut server, 1), (2, 3));
    assert_eq!(join(&mut server, 1), (4, 1));
}

#[test]
fn a_phone_without_a_virtual_controller_is_told() {
    let mut server = Server::new(true, 0);
    assert_eq!(server.slot_without_target(), Some(1));
    match server.join(false, 0) {
        Joining::Unavailable {
            player_id,
            error,
            reply,
        } => {
            assert_eq!(player_id, 1);
            assert_eq!(error, "failed to create virtual controller");
            assert_eq!(reply, "{\"type\":\"controller_unavailable\"}");
        }
        other => panic!("joined: {:?}", other),
    }
    assert_eq!(server.active_players(), 0);
    assert_eq!(server.events_text(), "No events yet");
}

#[test]
fn slots_without_targets_exist_only_where_supported() {
    let server = Server::new(false, 0);
    assert_eq!(server.slot_without_target(), None);
    let mut server = Server::new(true, 0);
    for _ in 0..MAX_PLAYERS {
        assert!(server.slot_without_target().is_some());
        join(&mut server, 0);
    }
    assert_eq!(server.slot_without_target(), None);
}

#[test]
fn joining_and_leaving_are_logged() {
    let mut server = Server::new(false, 0);
    server.announce("http://10.0.0.2:8080/");
    join(&mut server, 0);
    server.leave(1, 1);
    assert_eq!(
        server.events_text(),
        "Server listening at http://10.0.0.2:8080/\n\
         Ready for controller connections\n\
         P1 connected (generation 1)\n\
         P1 disconnected"
    );
}

#[test]
fn a_packet_steers_the_gamepad() {
    let mut server = Server::new(true, 0);
    join(&mut server, 0);
    let outcome = server.receive_packet(1, 1, &state_packet(1, 1, 0x1001), 5, curve);
    match outcome {
        PacketOutcome::Taken {
            report: Some(report),
        } => {
            assert_eq!(report.buttons, 0x1001);
            assert_eq!((report.left_trigger, report.right_trigger), (11, 22));
            assert_eq!((report.thumb_lx, report.thumb_ly), (100, -200));
            assert_eq!((report.thumb_rx, report.thumb_ry), (300, 400));
        }
        other => panic!("not taken: {:?}", other),
    }
    assert!(!outcome.ends_connection());
}

#[test]
fn a_repeated_packet_is_dropped() {
    let mut server = Server::new(false, 0);
    join(&mut server, 0);
    let bin = state_packet(1, 7, 0);
    assert_eq!(
        server.receive_packet(1, 1, &bin, 5, curve),
        PacketOutcome::Taken { report: None }
    );
    assert_eq!(server.receive_packet(1, 1, &bin, 6, curve), PacketOutcome::Dropped);
    assert_eq!(
        server.receive_packet(1, 1, &state_packet(1, 6, 0), 7, curve),
        PacketOutcome::Dropped
    );
    let stats = server.stats(8);
    assert_eq!(stats["slots"][0]["packets"], 1);
    assert_eq!(stats["slots"][0]["dropped_packets"], 2);
    assert_eq!(stats["status"]["packets_received"], 3);
    assert_eq!(stats["status"]["packets_dropped"], 2);
}

#[test]
fn another_players_number_moves_nothing() {
    let mut server = Server::new(true, 0);
    join(&mut server, 0);
    join(&mut server, 0);
    let before = server.stats(1);
    let outcome = server.receive_packet(1, 1, &state_packet(2, 1, 0xffff), 1, curve);
    assert_eq!(outcome, PacketOutcome::Invalid);
    assert!(!outcome.ends_connection());
    let after = server.stats(1);
    assert_eq!(after["slots"][0]["invalid_packets"], 1);
    assert_eq!(after["slots"][1], before["slots"][1]);
    assert_eq!(after["status"]["invalid_packets"], 1);
}

#[test]
fn short_messages_are_invalid() {
    let mut server = Server::new(false, 0);
    join(&mut server, 0);
    assert_eq!(
        server.receive_packet(1, 1, &[1, 2, 3], 1, curve),
        PacketOutcome::Invalid
    );
    assert_eq!(server.stats(1)["slots"][0]["invalid_packets"], 1);
}

#[test]
fn packets_for_no_slot_end_the_connection() {
    let mut server = Server::new(false, 0);
    let outcome = server.receive_packet(9, 1, &state_packet(9, 1, 0), 1, curve);
    assert_eq!(outcome, PacketOutcome::Missing);
    assert!(outcome.ends_connection());
    assert_eq!(server.stats(1)["status"]["packets_received"], 1);
    assert_eq!(
        server.receive_packet(9, 1, &[], 1, curve),
        PacketOutcome::Invalid
    );
}

#[test]
fn an_old_connection_is_powerless() {
    let mut server = Server::new(true, 0);
    let (id, old) = join(&mut server, 0);
    server.leave(id, old);
    let (again, new) = join(&mut server, 1);
    assert_eq!(id, again);
    assert_ne!(old, new);
    let outcome = server.receive_packet(id, old, &state_packet(1, 1, 0xffff), 2, curve);
    assert_eq!(outcome, PacketOutcome::Stale);
    assert!(outcome.ends_connection());
    assert!(matches!(
        server.receive_message(id, old, press("A"), 2),
        ClientAction::Nothing
    ));
    assert!(server.leave(id, old).is_none());
    assert_eq!(server.active_players(), 1);
    match server.receive_message(id, new, press("B"), 3) {
        ClientAction::Report(report) => assert_eq!(report.buttons, 0x2000),
        other => panic!("no report: {:?}", other),
    }
}

#[test]
fn packets_of_other_types_change_no_gamepad() {
    let mut server = Server::new(true, 0);
    join(&mut server, 0);
    let mut bin = state_packet(1, 1, 0xffff);
    bin[3] = 2;
    assert_eq!(
        server.receive_packet(1, 1, &bin, 1, curve),
        PacketOutcome::Taken { report: None }
    );
    match server.receive_message(1, 1, press("Y"), 1) {
        ClientAction::Report(report) => assert_eq!(report.buttons, 0x8000),
        other => panic!("no report: {:?}", other),
    }
    assert_eq!(server.stats(1)["slots"][0]["packets"], 1);
}

#[test]
fn messages_move_controls() {
    let mut server = Server::new(true, 0);
    join(&mut server, 0);
    match server.receive_message(1, 1, press("FIRE"), 1) {
        ClientAction::Report(report) => assert_eq!(report.right_trigger, 255),
        other => panic!("no report: {:?}", other),
    }
    let release = ClientMessage::ButtonRelease {
        button: "RT".to_string(),
    };
    match server.receive_message(1, 1, release, 1) {
        ClientAction::Report(report) => assert_eq!(report.right_trigger, 0),
        other => panic!("no report: {:?}", other),
    }
    let lean = ClientMessage::JoystickMove {
        stick: "right".to_string(),
        thumb: (-5, 6),
    };
    match server.receive_message(1, 1, lean, 1) {
        ClientAction::Report(report) => {
            assert_eq!((report.thumb_rx, report.thumb_ry), (-5, 6));
            assert_eq!((report.thumb_lx, report.thumb_ly), (0, 0));
        }
        other => panic!("no report: {:?}", other),
    }
}

#[test]
fn messages_without_a_virtual_controller_make_no_report() {
    let mut server = Server::new(false, 0);
    join(&mut server, 0);
    assert!(matches!(
        server.receive_message(1, 1, press("A"), 1),
        ClientAction::Nothing
    ));
}

#[test]
fn mouse_text_and_pings_need_no_slot() {
    let mut server = Server::new(false, 0);
    match server.receive_message(1, 9, ClientMessage::MouseMove { dx: 3, dy: -4 }, 1) {
        ClientAction::MoveMouse { dx, dy } => assert_eq!((dx, dy), (3, -4)),
        other => panic!("no movement: {:?}", other),
    }
    let text = ClientMessage::KeyText {
        text: "hello".to_string(),
    };
    match server.receive_message(1, 9, text, 1) {
        ClientAction::TypeText(text) => assert_eq!(text, "hello"),
        other => panic!("no text: {:?}", other),
    }
    match server.receive_message(1, 9, ClientMessage::Ping, 1) {
        ClientAction::Reply(pong) => assert_eq!(pong.kind, "pong"),
        other => panic!("no reply: {:?}", other),
    }
}

#[test]
fn long_texts_are_refused() {
    let mut server = Server::new(false, 0);
    assert!(server.admit_text(&"x".repeat(4096)));
    assert!(!server.admit_text(&"x".repeat(4097)));
    // The bound is on bytes, of which each of these characters takes two.
    assert!(!server.admit_text(&"ä".repeat(2049)));
    assert_eq!(server.stats(0)["status"]["invalid_packets"], 2);
}

#[test]
fn the_watchdog_vacates_silent_slots() {
    let mut server = Server::new(true, 0);
    join(&mut server, 0);
    join(&mut server, 0);
    join(&mut server, 0);
    server.receive_message(2, 1, ClientMessage::Ping, 1000);
    assert!(server.watchdog(CONNECTION_TIMEOUT).is_empty());
    let vacated = server.watchdog(CONNECTION_TIMEOUT + 1);
    assert_eq!(vacated.len(), 2);
    assert_eq!((vacated[0].0, vacated[1].0), (1, 3));
    assert!(vacated[0].1.unplug);
    assert_eq!(vacated[0].1.report.unwrap().buttons, 0);
    assert_eq!(server.active_players(), 1);
    assert_eq!(server.claim_slot(), Some(1));
    let stats = server.stats(CONNECTION_TIMEOUT + 1);
    assert_eq!(stats["status"]["watchdog_resets"], 2);
    assert_eq!(stats["status"]["input_watchdog_resets"], 2);
    assert!(server.watchdog(CONNECTION_TIMEOUT + 1).is_empty());
}

#[test]
fn mouse_and_text_are_no_sign_of_life() {
    let mut server = Server::new(false, 0);
    join(&mut server, 0);
    server.receive_message(1, 1, ClientMessage::MouseMove { dx: 1, dy: 1 }, 1000);
    assert_eq!(server.watchdog(CONNECTION_TIMEOUT + 1).len(), 1);
}

#[test]
fn the_end_of_a_timed_out_connection_changes_no_slot() {
    let mut server = Server::new(false, 0);
    join(&mut server, 0);
    server.watchdog(CONNECTION_TIMEOUT + 1);
    assert_eq!(join(&mut server, CONNECTION_TIMEOUT + 2), (1, 3));
    assert!(server.leave(1, 1).is_none());
    assert_eq!(server.active_players(), 1);
    assert!(server.leave(1, 3).is_some());
    assert_eq!(server.active_players(), 0);
}

#[test]
fn rumble_goes_to_the_connected_phone() {
    let mut server = Server::new(true, 0);
    assert!(server.rumble(1, 1, 2).is_none());
    assert!(server.rumble(77, 1, 2).is_none());
    let (id, generation) = join(&mut server, 0);
    let (to, message) = server.rumble(id, 200, 100).unwrap();
    assert_eq!(to, generation);
    assert_eq!(message.kind, "rumble");
    assert_eq!((message.large, message.small), (200, 100));
    server.leave(id, generation);
    assert!(server.rumble(id, 1, 2).is_none());
}

#[test]
fn health_counts_active_players() {
    let mut server = Server::new(false, 0);
    join(&mut server, 0);
    join(&mut server, 0);
    assert_eq!(
        server.health().to_string(),
        "{\"active_players\":2,\"capacity\":4,\"status\":\"ok\"}"
    );
}

#[test]
fn stats_describe_every_slot() {
    let mut server = Server::new(false, 0);
    join(&mut server, 2_000_000);
    let stats = server.stats(1_502_999_999);
    let slots = stats["slots"].as_array().unwrap();
    assert_eq!(slots.len(), MAX_PLAYERS);
    assert_eq!(
        slots[0].to_string(),
        "{\"connected\":true,\"dropped_packets\":0,\"generation\":1,\"invalid_packets\":0,\
         \"packets\":0,\"player\":1,\"uptime_ms\":1500}"
    );
    assert_eq!(
        slots[3].to_string(),
        "{\"connected\":false,\"dropped_packets\":0,\"generation\":0,\"invalid_packets\":0,\
         \"packets\":0,\"player\":4,\"uptime_ms\":0}"
    );
    assert_eq!(stats["status"]["connections"], 1);
}

#[test]
fn peers_follow_connections() {
    let mut server = Server::new(false, 0);
    assert_eq!(server.peer(1), None);
    join(&mut server, 0);
    assert_eq!(server.peer(1), Some(1));
    server.watchdog(CONNECTION_TIMEOUT + 1);
    assert_eq!(server.peer(1), Some(1));
    join(&mut server, CONNECTION_TIMEOUT + 1);
    assert_eq!(server.peer(1), Some(3));
    server.leave(1, 1);
    assert_eq!(server.peer(1), Some(3));
    server.leave(1, 3);
    assert_eq!(server.peer(1), None);
}

#[test]
fn a_lost_packet_leaves_nothing_behind() {
    let mut one = Server::new(true, 0);
    let mut other = Server::new(true, 0);
    join(&mut one, 0);
    join(&mut other, 0);
    one.receive_packet(1, 1, &state_packet(1, 1, 0xffff), 1, curve);
    let last = state_packet(1, 2, 0x0010);
    assert_eq!(
        one.receive_packet(1, 1, &last, 2, curve),
        other.receive_packet(1, 1, &last, 2, curve)
    );
}

#[test]
fn players_come_and_go() {
    let mut server = Server::new(false, 0);
    join(&mut server, 0);
    join(&mut server, 0);
    assert_eq!(server.active_players(), 2);
    server.leave(1, 7);
    assert_eq!(server.active_players(), 2);
    server.leave(1, 1);
    assert_eq!(server.active_players(), 1);
    assert_eq!(server.stats(0)["status"]["disconnects"], 2);
}

#[test]
fn a_free_slot_is_neutral() {
    let mut server = Server::new(true, 0);
    join(&mut server, 0);
    server.receive_message(1, 1, press("A"), 1);
    let duties = server.leave(1, 1).unwrap();
    assert_eq!(duties.report.unwrap().buttons, 0);
    match server.join(true, 2) {
        Joining::Joined {
            report: Some(report),
            ..
        } => {
            assert_eq!(report.buttons, 0);
        }
        other => panic!("not joined: {:?}", other),
    }
}

#[test]
fn another_phone_cannot_take_a_slot() {
    let mut server = Server::new(true, 0);
    let (one, first) = join(&mut server, 0);
    let (two, second) = join(&mut server, 0);
    server.receive_packet(two, second, &state_packet(1, 1, 0xffff), 1, curve);
    server.receive_packet(two, second, &[], 1, curve);
    server.receive_message(two, second, press("A"), 1);
    server.leave(one, first + 1);
    server.leave(two, second);
    join(&mut server, 2);
    match server.receive_message(one, first, press("START"), 3) {
        ClientAction::Report(report) => assert_eq!(report.buttons, 0x0010),
        other => panic!("no report: {:?}", other),
    }
    assert_eq!(server.active_players(), 2);
}

#[test]
fn latency_shows_in_the_table() {
    let mut server = Server::new(false, 0);
    let (id, generation) = join(&mut server, 0);
    assert!(!server.probe(id, generation + 1, 0));
    assert!(server.probe(id, generation, 1_000_000));
    assert!(!server.probe(id, generation, 2_000_000));
    server.echo(id, generation + 1, 3_000_000);
    assert_eq!(server.rows(0)[0].latency, "-");
    server.echo(id, generation, 8_000_000);
    assert_eq!(server.rows(0)[0].latency, "7ms");
    // An echo is no sign of life.
    assert_eq!(server.watchdog(CONNECTION_TIMEOUT + 1).len(), 1);
}

#[test]
fn rumble_ends_with_the_connection() {
    let mut server = Server::new(true, 0);
    let (id, first) = join(&mut server, 0);
    assert_eq!(server.rumble_target(id), Some(first));
    server.leave(id, first);
    assert_eq!(server.rumble_target(id), None);
    let (_, second) = join(&mut server, 1);
    assert_eq!(server.rumble_target(id), Some(second));
    server.leave(id, first);
    assert_eq!(server.rumble(id, 1, 2).unwrap().0, second);
    server.watchdog(CONNECTION_TIMEOUT + 2);
    assert!(server.rumble(id, 1, 2).is_none());
}

#[test]
fn a_connection_s_packets_add_up() {
    let mut server = Server::new(false, 0);
    let (id, generation) = join(&mut server, 0);
    for sequence in [1, 2, 2, 5, 4, 6] {
        server.receive_packet(id, generation, &state_packet(1, sequence, 0), 1, curve);
    }
    server.receive_packet(id, generation, &[1, 2], 1, curve);
    let stats = server.stats(2);
    assert_eq!(stats["slots"][0]["packets"], 4);
    assert_eq!(stats["slots"][0]["dropped_packets"], 2);
    assert_eq!(stats["slots"][0]["invalid_packets"], 1);
}
