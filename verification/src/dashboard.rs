//! What the terminal shows, as text.

use vstd::prelude::*;

use crate::json::{json_number_under, json_of, number_under, Json};
use crate::metrics::Metrics;
use crate::player::{elapsed, elapsed_since, PlayerController};
use crate::screen_laws::{row_of_nobody_is_empty, row_shows, row_shows_its_slot, row_shows_nobody};
use crate::text::{decimal, decimal_text};

verus! {

/// Nanoseconds in a second.
pub const NANOS_PER_SECOND: u64 = 1_000_000_000;

/// Nanoseconds in a millisecond.
pub const NANOS_PER_MILLISECOND: u64 = 1_000_000;

/// A row of the player table.
#[derive(Debug)]
pub struct PlayerRow {
    pub player: String,
    pub status: String,
    pub uptime: String,
    pub packets: String,
    pub dropped: String,
    pub invalid: String,
    pub latency: String,
    pub rate: String,
}

impl PlayerRow {
    /// The texts of the cells from left to right.
    pub open spec fn cells(self) -> Seq<Seq<char>> {
        seq![
            self.player@,
            self.status@,
            self.uptime@,
            self.packets@,
            self.dropped@,
            self.invalid@,
            self.latency@,
            self.rate@,
        ]
    }
}

/// How long a player has been connected.
pub open spec fn uptime_text(player: PlayerController, now: u64) -> Seq<char> {
    if player.connected {
        decimal_text((elapsed_since(player.connected_at, now) / NANOS_PER_SECOND as int) as nat)
            + "s"@
    } else {
        "-"@
    }
}

/// How long the phone of a connected player took to echo the last probe.
pub open spec fn latency_text(player: PlayerController) -> Seq<char> {
    match player.latency {
        Some(nanos) if player.connected => decimal_text(
            nanos as nat / NANOS_PER_MILLISECOND as nat,
        ) + "ms"@,
        _ => "-"@,
    }
}

/// How many packets of a connected player were taken per second, on the average of the
/// whole seconds since the player joined.
pub open spec fn rate_text(player: PlayerController, now: u64) -> Seq<char> {
    let seconds = elapsed_since(player.connected_at, now) / NANOS_PER_SECOND as int;
    if player.connected && seconds > 0 {
        decimal_text((player.packet_count as int / seconds) as nat) + "/s"@
    } else {
        "-"@
    }
}

/// The names of the controller layouts that the page offers, in its order.
pub open spec fn layout_names() -> Seq<char> {
    "Xbox Default, Glass, PS4, Game Boy, Switch, N64, Steam Deck, Arcade, Hitbox, Fight Pad, Xbox Elite Pro, FPS Pro, 3DS Dual, GameCube, Sega Saturn, Cyber Claw, One-Handed"@
}

/// The row of a slot; a slot that is not there has one too.
pub open spec fn table_row(id: usize, player: Option<PlayerController>, now: u64) -> Seq<Seq<char>> {
    match player {
        Some(player) => seq![
            "P"@ + decimal_text(player.player_id as nat),
            if player.connected {
                "CONNECTED"@
            } else {
                "WAITING"@
            },
            uptime_text(player, now),
            decimal_text(player.packet_count as nat),
            decimal_text(player.dropped_packets as nat),
            decimal_text(player.invalid_packets as nat),
            latency_text(player),
            rate_text(player, now),
        ],
        None => seq![
            "P"@ + decimal_text(id as nat),
            "MISSING"@,
            "-"@,
            "-"@,
            "-"@,
            "-"@,
            "-"@,
            "-"@,
        ],
    }
}

/// The text of the panel with the server's address and counters.
pub open spec fn header_text(url: Seq<char>, active: nat, capacity: nat, metrics: Metrics) -> Seq<
    char,
> {
    "CONTROLLER SERVER\n\nURL:\n"@ + url + "\n\nPlayers: "@ + decimal_text(active) + "/"@
        + decimal_text(capacity) + "\nConnections: "@ + decimal_text(metrics.connections as nat)
        + "\nDisconnects: "@ + decimal_text(metrics.disconnects as nat) + "\nDropped: "@
        + decimal_text(metrics.packets_dropped as nat) + "\nInvalid: "@ + decimal_text(
        metrics.invalid_packets as nat,
    ) + "\n\nPress Q to quit"@
}

/// The address that a phone opens.
pub open spec fn url_text(ip: Seq<char>, port: nat) -> Seq<char> {
    "http://"@ + ip + ":"@ + decimal_text(port) + "/"@
}

/// A slot's name.
fn player_name(id: usize) -> (name: String)
    ensures
        name@ == "P"@ + decimal_text(id as nat),
{
    let mut name = "P".to_owned();
    name.append(decimal(id as u64).as_str());
    name
}

/// Writes the latency of a player.
pub fn player_latency(player: &PlayerController) -> (text: String)
    ensures
        text@ == latency_text(*player),
{
    match player.latency {
        Some(nanos) if player.connected => {
            let mut text = decimal(nanos / NANOS_PER_MILLISECOND);
            text.append("ms");
            text
        },
        _ => "-".to_owned(),
    }
}

/// Writes the packet rate of a player.
pub fn packet_rate(player: &PlayerController, now: u64) -> (text: String)
    ensures
        text@ == rate_text(*player, now),
{
    let seconds: u64 = elapsed(player.connected_at, now) / NANOS_PER_SECOND;
    if player.connected && seconds > 0 {
        let mut text = decimal(player.packet_count / seconds);
        text.append("/s");
        text
    } else {
        "-".to_owned()
    }
}

/// The text of the panel with the controller layouts.
pub fn layouts_text() -> (text: String)
    ensures
        text@ == layout_names(),
{
    "Xbox Default, Glass, PS4, Game Boy, Switch, N64, Steam Deck, Arcade, Hitbox, Fight Pad, Xbox Elite Pro, FPS Pro, 3DS Dual, GameCube, Sega Saturn, Cyber Claw, One-Handed".to_owned()
}

/// Makes the row of a slot.
pub fn player_row(id: usize, player: Option<&PlayerController>, now: u64) -> (row: PlayerRow)
    ensures
        row.cells() == table_row(
            id,
            match player {
                Some(player) => Some(*player),
                None => None,
            },
            now,
        ),
        match player {
            Some(player) => row_shows(row, *player, now),
            None => row_shows_nobody(row, id),
        },
{
    let row = match player {
        Some(player) => {
            let status = if player.connected {
                "CONNECTED".to_owned()
            } else {
                "WAITING".to_owned()
            };
            let uptime = if player.connected {
                let mut uptime = decimal(elapsed(player.connected_at, now) / NANOS_PER_SECOND);
                uptime.append("s");
                uptime
            } else {
                "-".to_owned()
            };
            PlayerRow {
                player: player_name(player.player_id),
                status,
                uptime,
                packets: decimal(player.packet_count),
                dropped: decimal(player.dropped_packets),
                invalid: decimal(player.invalid_packets),
                latency: player_latency(player),
                rate: packet_rate(player, now),
            }
        },
        None => PlayerRow {
            player: player_name(id),
            status: "MISSING".to_owned(),
            uptime: "-".to_owned(),
            packets: "-".to_owned(),
            dropped: "-".to_owned(),
            invalid: "-".to_owned(),
            latency: "-".to_owned(),
            rate: "-".to_owned(),
        },
    };
    assert(row.cells() =~= table_row(
        id,
        match player {
            Some(player) => Some(*player),
            None => None,
        },
        now,
    ));
    proof {
        match player {
            Some(player) => row_shows_its_slot(row, id, *player, now),
            None => row_of_nobody_is_empty(row, id, now),
        }
    }
    row
}

/// The counter under a name in a snapshot, or zero if there is none.
fn counter(snapshot: &serde_json::Value, name: &str) -> (n: u64)
    ensures
        n == (match number_under(json_of(*snapshot), name@) {
            Some(n) => n,
            None => 0,
        }),
{
    match json_number_under(snapshot, name) {
        Some(n) => n,
        None => 0,
    }
}

/// The counters that the panel shows stand in a snapshot under their names.
proof fn snapshot_has_counters(metrics: Metrics)
    ensures
        number_under(Json::Object(metrics.members()), "connections"@) == Some(metrics.connections),
        number_under(Json::Object(metrics.members()), "disconnects"@) == Some(metrics.disconnects),
        number_under(Json::Object(metrics.members()), "packets_dropped"@) == Some(
            metrics.packets_dropped,
        ),
        number_under(Json::Object(metrics.members()), "invalid_packets"@) == Some(
            metrics.invalid_packets,
        ),
{
    crate::json_laws::snapshot_names_each_counter(metrics);
}

/// Makes the text of the panel with the server's address and counters.
pub fn server_info(url: &str, active: u64, capacity: u64, metrics: &Metrics) -> (text: String)
    ensures
        text@ == header_text(url@, active as nat, capacity as nat, *metrics),
{
    let snapshot = metrics.snapshot();
    proof {
        snapshot_has_counters(*metrics);
    }
    let mut text = "CONTROLLER SERVER\n\nURL:\n".to_owned();
    text.append(url);
    text.append("\n\nPlayers: ");
    text.append(decimal(active).as_str());
    text.append("/");
    text.append(decimal(capacity).as_str());
    text.append("\nConnections: ");
    text.append(decimal(counter(&snapshot, "connections")).as_str());
    text.append("\nDisconnects: ");
    text.append(decimal(counter(&snapshot, "disconnects")).as_str());
    text.append("\nDropped: ");
    text.append(decimal(counter(&snapshot, "packets_dropped")).as_str());
    text.append("\nInvalid: ");
    text.append(decimal(counter(&snapshot, "invalid_packets")).as_str());
    text.append("\n\nPress Q to quit");
    text
}

/// The address that a phone opens.
pub fn server_url(ip: &str, port: u16) -> (url: String)
    ensures
        url@ == url_text(ip@, port as nat),
{
    let mut url = "http://".to_owned();
    url.append(ip);
    url.append(":");
    url.append(decimal(port as u64).as_str());
    url.append("/");
    url
}

/// Whether a key stops the server.
pub fn is_quit_key(key: char) -> (quit: bool)
    ensures
        quit == (key == 'q' || key == 'Q'),
{
    key == 'q' || key == 'Q'
}

} // verus!
