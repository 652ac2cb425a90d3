use web_controller::dashboard::{
    is_quit_key, layouts_text, packet_rate, player_latency, player_row, server_info, server_url,
};
use web_controller::events::{TuiEvents, MAX_EVENTS};
use web_controller::messages::{
    controller_unavailable, rumble_message, server_full, ServerPong, ServerRumble, ServerWelcome,
};
use web_controller::metrics::Metrics;
use web_controller::player::{PlayerController, XboxTarget};
use web_controller::qr::{drawing_or_notice, generate_qr_code};
use web_controller::server::{Joining, Server};
use web_controller::setup::SetupStage;
use web_controller::text::{decimal, same_text};

#[test]
fn numbers_in_decimal() {
    for n in [0, 7, 10, 99, 100, 65535, 8080, u64::MAX] {
        assert_eq!(decimal(n), n.to_string());
    }
}

#[test]
fn texts_compare_by_content() {
    assert!(same_text("", ""));
    assert!(same_text("DPAD_UP", &String::from("DPAD_UP")));
    assert!(!same_text("A", "B"));
    assert!(!same_text("A", "AA"));
    assert!(!same_text("ä", "a"));
}

#[test]
fn the_log_keeps_the_latest_events() {
    let mut log = TuiEvents::new();
    assert_eq!(log.text(), "No events yet");
    log.tui_event("first".to_string());
    assert_eq!(log.text(), "first");
    for i in 0..MAX_EVENTS {
        log.tui_event(format!("event {}", i));
    }
    let text = log.text();
    let lines: Vec<&str> = text.split('\n').collect();
    assert_eq!(lines.len(), 32);
    assert_eq!(lines[0], "event 0");
    assert_eq!(lines[31], "event 31");
}

#[test]
fn snapshot_names_every_counter() {
    let metrics = Metrics {
        connections: 1,
        disconnects: 2,
        packets_received: 3,
        packets_dropped: 4,
        invalid_packets: 5,
        watchdog_resets: 6,
        rumble_messages: 7,
        input_watchdog_resets: 8,
        stale_connections: u64::MAX,
    };
    assert_eq!(
        metrics.snapshot().to_string(),
        "{\"connections\":1,\"disconnects\":2,\"input_watchdog_resets\":8,\"invalid_packets\":5,\
         \"packets_dropped\":4,\"packets_received\":3,\"rumble_messages\":7,\
         \"stale_connections\":18446744073709551615,\"watchdog_resets\":6}"
    );
    assert_eq!(Metrics::new().snapshot()["connections"], 0);
}

#[test]
fn the_panel_shows_the_counters() {
    let metrics = Metrics {
        connections: 12,
        disconnects: 9,
        packets_dropped: 34,
        invalid_packets: 56,
        ..Metrics::new()
    };
    assert_eq!(
        server_info("http://h:1/", 3, 4, &metrics),
        "CONTROLLER SERVER\n\nURL:\nhttp://h:1/\n\nPlayers: 3/4\nConnections: 12\nDisconnects: 9\n\
         Dropped: 34\nInvalid: 56\n\nPress Q to quit"
    );
}

#[test]
fn the_panel_of_a_server() {
    let mut server = Server::new(false, 0);
    assert!(matches!(server.join(false, 0), Joining::Joined { .. }));
    assert_eq!(
        server.header("u"),
        "CONTROLLER SERVER\n\nURL:\nu\n\nPlayers: 1/4\nConnections: 1\nDisconnects: 0\nDropped: 0\n\
         Invalid: 0\n\nPress Q to quit"
    );
}

#[test]
fn rows_of_the_table() {
    let mut server = Server::new(false, 0);
    server.join(false, 1_000_000_000);
    let rows = server.rows(4_999_999_999);
    assert_eq!(rows.len(), 4);
    assert_eq!(
        (rows[0].player.as_str(), rows[0].status.as_str(), rows[0].uptime.as_str()),
        ("P1", "CONNECTED", "3s")
    );
    assert_eq!(
        (rows[3].player.as_str(), rows[3].status.as_str(), rows[3].uptime.as_str()),
        ("P4", "WAITING", "-")
    );
}

#[test]
fn row_of_a_player_and_of_none() {
    let mut player = PlayerController::new(2, XboxTarget::Unsupported, 0);
    player.packet_count = 10;
    player.dropped_packets = 11;
    player.invalid_packets = 12;
    let row = player_row(2, Some(&player), 0);
    assert_eq!(
        (row.packets.as_str(), row.dropped.as_str(), row.invalid.as_str()),
        ("10", "11", "12")
    );
    let row = player_row(3, None, 0);
    assert_eq!(
        (row.player.as_str(), row.status.as_str(), row.uptime.as_str()),
        ("P3", "MISSING", "-")
    );
    assert_eq!(
        (row.packets.as_str(), row.dropped.as_str(), row.invalid.as_str()),
        ("-", "-", "-")
    );
    assert_eq!((row.latency.as_str(), row.rate.as_str()), ("-", "-"));
}

#[test]
fn rows_show_latency_and_packet_rate() {
    let mut player = PlayerController::new(1, XboxTarget::Unsupported, 0);
    player.attach(true, 1_000_000_000).unwrap();
    player.packet_count = 250;
    player.latency = Some(12_900_000);
    let row = player_row(1, Some(&player), 3_999_999_999);
    assert_eq!((row.latency.as_str(), row.rate.as_str()), ("12ms", "125/s"));
    assert_eq!(packet_rate(&player, 1_999_999_999), "-");
    assert_eq!(packet_rate(&player, 2_000_000_000), "250/s");
    player.detach();
    let row = player_row(1, Some(&player), 3_999_999_999);
    assert_eq!((row.latency.as_str(), row.rate.as_str()), ("-", "-"));
    assert_eq!(player_latency(&player), "-");
}

#[test]
fn the_layouts_of_the_page() {
    assert_eq!(
        layouts_text(),
        "Xbox Default, Glass, PS4, Game Boy, Switch, N64, Steam Deck, Arcade, Hitbox, Fight Pad, \
         Xbox Elite Pro, FPS Pro, 3DS Dual, GameCube, Sega Saturn, Cyber Claw, One-Handed"
    );
}

#[test]
fn addresses_and_keys() {
    assert_eq!(server_url("192.168.1.7", 8080), "http://192.168.1.7:8080/");
    assert!(is_quit_key('q') && is_quit_key('Q'));
    assert!(!is_quit_key('x'));
}

#[test]
fn notices_and_messages() {
    assert_eq!(server_full(4), "{\"max_players\":4,\"type\":\"server_full\"}");
    assert_eq!(controller_unavailable(), "{\"type\":\"controller_unavailable\"}");
    assert_eq!(ServerWelcome::new(3).player_id, 3);
    assert_eq!(ServerWelcome::new(3).kind, "welcome");
    assert_eq!(ServerPong::new().kind, "pong");
    let rumble = ServerRumble::new(9, 8);
    assert_eq!((rumble.kind.as_str(), rumble.large, rumble.small), ("rumble", 9, 8));
    assert!(rumble_message(None, 9, 8).is_none());
    let (to, rumble) = rumble_message(Some(5), 9, 8).unwrap();
    assert_eq!((to, rumble.large, rumble.small), (5, 9, 8));
}

#[test]
fn the_qr_code_is_drawn_inverted() {
    let url = "http://192.168.1.7:8080/";
    let code = qrcode::QrCode::new(url.as_bytes()).unwrap();
    let expected = code
        .render::<qrcode::render::unicode::Dense1x2>()
        .dark_color(qrcode::render::unicode::Dense1x2::Light)
        .light_color(qrcode::render::unicode::Dense1x2::Dark)
        .build();
    let drawn = generate_qr_code(url);
    assert_eq!(drawn, expected);
    assert_ne!(drawn, code.render::<qrcode::render::unicode::Dense1x2>().build());
    let lines: Vec<&str> = drawn.split('\n').collect();
    let width = code.width() + 8;
    assert_eq!(lines.len(), (width + 1) / 2);
    assert_eq!(lines[0], "█".repeat(width));
    assert_eq!(lines[1], "█".repeat(width));
}

#[test]
fn an_address_that_is_too_long_has_no_qr_code() {
    assert_eq!(generate_qr_code(&"x".repeat(2331)).contains("Failed"), false);
    assert_eq!(generate_qr_code(&"x".repeat(2332)), "Failed to render QR Code");
    assert_eq!(drawing_or_notice(None), "Failed to render QR Code");
    assert_eq!(drawing_or_notice(Some("drawn".to_string())), "drawn");
}

#[test]
fn setup_needs_its_first_three_steps() {
    for bits in 0..16u8 {
        let steps = [bits & 1 != 0, bits & 2 != 0, bits & 4 != 0, bits & 8 != 0];
        let mut stage = SetupStage::Connect;
        for ok in steps {
            stage = stage.advance(ok);
        }
        if steps[0] && steps[1] && steps[2] {
            assert_eq!(stage, SetupStage::Ready { rumble: steps[3] });
        } else {
            assert_eq!(stage, SetupStage::Failed);
        }
        assert_eq!(stage.advance(true), stage);
    }
}
