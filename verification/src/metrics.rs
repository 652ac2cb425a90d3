//! Counters over the life of the server.

use vstd::prelude::*;

use crate::json::{json_number, json_object, json_of, json_put, Json};

verus! {

/// Counters over the life of the server. Each of them wraps.
#[derive(Clone, Copy, Debug, PartialEq, Eq, Structural)]
pub struct Metrics {
    pub connections: u64,
    pub disconnects: u64,
    pub packets_received: u64,
    pub packets_dropped: u64,
    pub invalid_packets: u64,
    pub watchdog_resets: u64,
    pub rumble_messages: u64,
    pub input_watchdog_resets: u64,
    pub stale_connections: u64,
}

/// Every counter at zero.
pub open spec fn no_counts() -> Metrics {
    Metrics {
        connections: 0,
        disconnects: 0,
        packets_received: 0,
        packets_dropped: 0,
        invalid_packets: 0,
        watchdog_resets: 0,
        rumble_messages: 0,
        input_watchdog_resets: 0,
        stale_connections: 0,
    }
}

impl Metrics {
    /// The counters by name.
    pub open spec fn members(self) -> Map<Seq<char>, Json> {
        Map::empty().insert("connections"@, Json::Number(self.connections)).insert(
            "disconnects"@,
            Json::Number(self.disconnects),
        ).insert("packets_received"@, Json::Number(self.packets_received)).insert(
            "packets_dropped"@,
            Json::Number(self.packets_dropped),
        ).insert("invalid_packets"@, Json::Number(self.invalid_packets)).insert(
            "watchdog_resets"@,
            Json::Number(self.watchdog_resets),
        ).insert("rumble_messages"@, Json::Number(self.rumble_messages)).insert(
            "input_watchdog_resets"@,
            Json::Number(self.input_watchdog_resets),
        ).insert("stale_connections"@, Json::Number(self.stale_connections))
    }

    /// Starts counting.
    pub fn new() -> (metrics: Metrics)
        ensures
            metrics == no_counts(),
    {
        Metrics {
            connections: 0,
            disconnects: 0,
            packets_received: 0,
            packets_dropped: 0,
            invalid_packets: 0,
            watchdog_resets: 0,
            rumble_messages: 0,
            input_watchdog_resets: 0,
            stale_connections: 0,
        }
    }

    /// The counters as a JSON object.
    pub fn snapshot(&self) -> (value: serde_json::Value)
        ensures
            json_of(value) == Json::Object(self.members()),
    {
        let mut value = json_object();
        json_put(&mut value, "connections", json_number(self.connections));
        json_put(&mut value, "disconnects", json_number(self.disconnects));
        json_put(&mut value, "packets_received", json_number(self.packets_received));
        json_put(&mut value, "packets_dropped", json_number(self.packets_dropped));
        json_put(&mut value, "invalid_packets", json_number(self.invalid_packets));
        json_put(&mut value, "watchdog_resets", json_number(self.watchdog_resets));
        json_put(&mut value, "rumble_messages", json_number(self.rumble_messages));
        json_put(&mut value, "input_watchdog_resets", json_number(self.input_watchdog_resets));
        json_put(&mut value, "stale_connections", json_number(self.stale_connections));
        value
    }
}

} // verus!
