//! What the JSON reports hold, name by name.

use vstd::prelude::*;

use crate::json::Json;
use crate::messages::{full_notice, unavailable_notice};
use crate::metrics::{no_counts, Metrics};
use crate::player::PlayerController;
use crate::server::{slot_members, slots_among, ServerState};

verus! {

/// The names of the counters differ.
proof fn counter_names_differ()
    ensures
        "connections"@.len() == 11,
        "disconnects"@.len() == 11,
        "packets_received"@.len() == 16,
        "packets_dropped"@.len() == 15,
        "invalid_packets"@.len() == 15,
        "watchdog_resets"@.len() == 15,
        "rumble_messages"@.len() == 15,
        "input_watchdog_resets"@.len() == 21,
        "stale_connections"@.len() == 17,
        "connections"@[0] == 'c',
        "disconnects"@[0] == 'd',
        "packets_dropped"@[0] == 'p',
        "invalid_packets"@[0] == 'i',
        "watchdog_resets"@[0] == 'w',
        "rumble_messages"@[0] == 'r',
{
    reveal_strlit("connections");
    reveal_strlit("disconnects");
    reveal_strlit("packets_received");
    reveal_strlit("packets_dropped");
    reveal_strlit("invalid_packets");
    reveal_strlit("watchdog_resets");
    reveal_strlit("rumble_messages");
    reveal_strlit("input_watchdog_resets");
    reveal_strlit("stale_connections");
}

/// A snapshot has each counter under its own name, and nothing else.
pub proof fn snapshot_names_each_counter(metrics: Metrics)
    ensures
        ({
            let members = metrics.members();
            &&& members["connections"@] == Json::Number(metrics.connections)
            &&& members["disconnects"@] == Json::Number(metrics.disconnects)
            &&& members["packets_received"@] == Json::Number(metrics.packets_received)
            &&& members["packets_dropped"@] == Json::Number(metrics.packets_dropped)
            &&& members["invalid_packets"@] == Json::Number(metrics.invalid_packets)
            &&& members["watchdog_resets"@] == Json::Number(metrics.watchdog_resets)
            &&& members["rumble_messages"@] == Json::Number(metrics.rumble_messages)
            &&& members["input_watchdog_resets"@] == Json::Number(metrics.input_watchdog_resets)
            &&& members["stale_connections"@] == Json::Number(metrics.stale_connections)
            &&& members.dom() == set![
                "connections"@,
                "disconnects"@,
                "packets_received"@,
                "packets_dropped"@,
                "invalid_packets"@,
                "watchdog_resets"@,
                "rumble_messages"@,
                "input_watchdog_resets"@,
                "stale_connections"@,
            ]
        }),
{
    counter_names_differ();
    assert(metrics.members().dom() =~= set![
        "connections"@,
        "disconnects"@,
        "packets_received"@,
        "packets_dropped"@,
        "invalid_packets"@,
        "watchdog_resets"@,
        "rumble_messages"@,
        "input_watchdog_resets"@,
        "stale_connections"@,
    ]);
}

/// Nothing was counted at the start.
pub proof fn counters_start_at_zero()
    ensures
        no_counts().connections == 0,
        no_counts().disconnects == 0,
        no_counts().packets_received == 0,
        no_counts().packets_dropped == 0,
        no_counts().invalid_packets == 0,
        no_counts().watchdog_resets == 0,
        no_counts().rumble_messages == 0,
        no_counts().input_watchdog_resets == 0,
        no_counts().stale_connections == 0,
{
}

/// The statistics of a slot are the slot's own numbers under their names, with the whole
/// milliseconds since a connected player joined.
pub proof fn slot_statistics_are_its_own(player: PlayerController, now: u64)
    ensures
        ({
            let members = slot_members(player, now);
            &&& members["player"@] == Json::Number(player.player_id as u64)
            &&& members["connected"@] == Json::Flag(player.connected)
            &&& members["generation"@] == Json::Number(player.connection_generation)
            &&& members["packets"@] == Json::Number(player.packet_count)
            &&& members["dropped_packets"@] == Json::Number(player.dropped_packets)
            &&& members["invalid_packets"@] == Json::Number(player.invalid_packets)
            &&& members["uptime_ms"@] matches Json::Number(millis) && if player.connected
                && player.connected_at <= now {
                millis * 1_000_000 <= now - player.connected_at < (millis + 1) * 1_000_000
            } else {
                millis == 0
            }
            &&& members.dom() == set![
                "player"@,
                "connected"@,
                "generation"@,
                "packets"@,
                "dropped_packets"@,
                "invalid_packets"@,
                "uptime_ms"@,
            ]
        }),
{
    reveal_strlit("player");
    reveal_strlit("connected");
    reveal_strlit("generation");
    reveal_strlit("packets");
    reveal_strlit("dropped_packets");
    reveal_strlit("invalid_packets");
    reveal_strlit("uptime_ms");
    assert("player"@.len() == 6);
    assert("connected"@.len() == 9 && "connected"@[0] == 'c');
    assert("generation"@.len() == 10);
    assert("packets"@.len() == 7);
    assert("dropped_packets"@.len() == 15 && "dropped_packets"@[0] == 'd');
    assert("invalid_packets"@.len() == 15 && "invalid_packets"@[0] == 'i');
    assert("uptime_ms"@.len() == 9 && "uptime_ms"@[0] == 'u');
    assert(slot_members(player, now).dom() =~= set![
        "player"@,
        "connected"@,
        "generation"@,
        "packets"@,
        "dropped_packets"@,
        "invalid_packets"@,
        "uptime_ms"@,
    ]);
}

/// The statistics list the first slots in their order.
proof fn slots_are_listed_in_order(state: ServerState, slots: nat, now: u64)
    requires
        state.wf(),
        slots <= 4,
    ensures
        slots_among(state.players, slots, now).len() == slots,
        forall|i: int|
            0 <= i < slots ==> #[trigger] slots_among(state.players, slots, now)[i]
                == Json::Object(slot_members(state.players[(i + 1) as usize], now)),
    decreases slots,
{
    if slots > 0 {
        slots_are_listed_in_order(state, (slots - 1) as nat, now);
        assert(state.players.contains_key(slots as usize));
    }
}

/// The statistics of the server are its counters and its four slots, in their order.
pub proof fn statistics_cover_server_and_slots(state: ServerState, now: u64)
    requires
        state.wf(),
    ensures
        ({
            let members = state.stats_members(now);
            &&& members.dom() == set!["status"@, "slots"@]
            &&& members["status"@] == Json::Object(state.metrics.members())
            &&& members["slots"@] matches Json::List(slots) && slots.len() == 4 && forall|i: int|
                0 <= i < 4 ==> #[trigger] slots[i] == Json::Object(
                    slot_members(state.players[(i + 1) as usize], now),
                )
        }),
{
    reveal_strlit("status");
    reveal_strlit("slots");
    assert("status"@.len() == 6 && "slots"@.len() == 5);
    slots_are_listed_in_order(state, 4, now);
    assert(state.stats_members(now).dom() =~= set!["status"@, "slots"@]);
}

/// A health check says that all is well, how many slots are taken, and that there are four.
pub proof fn health_counts_the_taken_slots(state: ServerState)
    requires
        state.wf(),
    ensures
        ({
            let members = state.health_members();
            let taken = Set::new(|id: usize| 1 <= id <= 4 && state.players[id].connected);
            &&& members.dom() == set!["status"@, "active_players"@, "capacity"@]
            &&& members["status"@] == Json::Text("ok"@)
            &&& members["active_players"@] == Json::Number(taken.len() as u64)
            &&& members["capacity"@] == Json::Number(4)
        }),
{
    reveal_strlit("status");
    reveal_strlit("active_players");
    reveal_strlit("capacity");
    assert("status"@.len() == 6 && "active_players"@.len() == 14 && "capacity"@.len() == 8);
    crate::server_laws::active_players_are_the_taken_slots(state);
    let taken = Set::new(|id: usize| 1 <= id <= 4 && state.players[id].connected);
    assert forall|id: usize| 1 <= id <= 4 implies state.players.contains_key(id) by {
        assert(crate::server::is_slot(id));
    }
    assert(taken =~= crate::server_laws::taken_slots(state, 4));
    assert(state.health_members().dom() =~= set!["status"@, "active_players"@, "capacity"@]);
}

/// A phone that finds every slot taken is told so, and how many there are.
pub proof fn full_notice_names_the_capacity(max_players: u64)
    ensures
        full_notice(max_players) matches Json::Object(members) && members.dom() == set![
            "type"@,
            "max_players"@,
        ] && members["type"@] == Json::Text("server_full"@) && members["max_players"@]
            == Json::Number(max_players),
{
    reveal_strlit("type");
    reveal_strlit("max_players");
    assert("type"@.len() == 4 && "max_players"@.len() == 11);
    assert(full_notice(max_players)->Object_0.dom() =~= set!["type"@, "max_players"@]);
}

/// A phone whose slot got no virtual controller is told just that.
pub proof fn unavailable_notice_says_so()
    ensures
        unavailable_notice() matches Json::Object(members) && members.dom() == set!["type"@]
            && members["type"@] == Json::Text("controller_unavailable"@),
{
    assert(unavailable_notice()->Object_0.dom() =~= set!["type"@]);
}

} // verus!
