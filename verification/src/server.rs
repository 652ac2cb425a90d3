//! The server: its player slots, and what each event does to them.

use std::collections::HashMap;

use vstd::prelude::*;

use crate::dashboard::{
    header_text, player_row, server_info, table_row, PlayerRow, NANOS_PER_MILLISECOND,
};
use crate::events::{events_shown, latest, TuiEvents};
use crate::gamepad::XGamepad;
use crate::json::{
    json_flag, json_list, json_number, json_object, json_of, json_put, json_text, json_written, Json,
};
use crate::messages::{
    controller_unavailable, full_notice, rumble_message, server_full, unavailable_notice,
    ClientMessage, ServerPong, ServerRumble, ServerWelcome, MAX_TEXT_MESSAGE,
};
use crate::metrics::{no_counts, Metrics};
use crate::packet::{packet_of, read_packet, reading, GAMEPAD_STATE};
use crate::player::{
    apply_button, elapsed, elapsed_since, no_controller_text, Detached, PlayerController, XboxTarget,
};
use crate::screen_laws::row_shows;
use crate::text::{decimal, decimal_text};

verus! {

broadcast use vstd::std_specs::hash::group_hash_axioms;

/// How many players the server takes.
pub const MAX_PLAYERS: usize = 4;

/// What the server knows.
#[verifier::ext_equal]
pub struct ServerState {
    pub players: Map<usize, PlayerController>,
    pub peers: Map<usize, u64>,
    pub metrics: Metrics,
    pub events: Seq<Seq<char>>,
}

/// The server. Points in time are nanoseconds since it started.
pub struct Server {
    players: HashMap<usize, PlayerController>,
    peers: HashMap<usize, u64>,
    metrics: Metrics,
    tui_events: TuiEvents,
}

/// How an attempt to join ended.
#[derive(Debug)]
pub enum Joining {
    /// Every slot is taken; the phone is sent the reply.
    Full { reply: String },
    /// The slot got no virtual controller; the phone is sent the reply.
    Unavailable { player_id: usize, error: String, reply: String },
    /// The phone has a slot and is sent the welcome; the virtual controller is owed
    /// the report.
    Joined { player_id: usize, generation: u64, report: Option<XGamepad>, welcome: ServerWelcome },
}

/// What became of a binary message.
#[derive(Clone, Copy, Debug, PartialEq, Eq, Structural)]
pub enum PacketOutcome {
    /// It is no packet of this player.
    Invalid,
    /// There is no such slot; the connection ends.
    Missing,
    /// The slot belongs to another connection by now; this one ends.
    Stale,
    /// It is a repeated or a late one.
    Dropped,
    /// It was taken; the virtual controller is owed the report.
    Taken { report: Option<XGamepad> },
}

impl PacketOutcome {
    /// Whether the connection that sent the message ends.
    pub fn ends_connection(&self) -> (ends: bool)
        ensures
            ends == (*self is Missing || *self is Stale),
    {
        match self {
            PacketOutcome::Missing | PacketOutcome::Stale => true,
            _ => false,
        }
    }
}

/// What is left to do about a message of a phone.
#[derive(Debug)]
pub enum ClientAction {
    Nothing,
    /// Send a report to the virtual controller.
    Report(XGamepad),
    MoveMouse { dx: i32, dy: i32 },
    TypeText(String),
    Reply(ServerPong),
}

/// The log entry of a new connection.
pub open spec fn joined_entry(player_id: usize, generation: u64) -> Seq<char> {
    "P"@ + decimal_text(player_id as nat) + " connected (generation "@ + decimal_text(
        generation as nat,
    ) + ")"@
}

/// The log entry of the end of a connection.
pub open spec fn left_entry(player_id: usize) -> Seq<char> {
    "P"@ + decimal_text(player_id as nat) + " disconnected"@
}

/// The action that a report amounts to.
pub open spec fn report_action(report: Option<XGamepad>) -> ClientAction {
    match report {
        Some(report) => ClientAction::Report(report),
        None => ClientAction::Nothing,
    }
}

/// Whether a number is that of a slot.
pub open spec fn is_slot(id: usize) -> bool {
    1 <= id <= MAX_PLAYERS
}

/// How many of the first slots are taken.
pub open spec fn taken_among(players: Map<usize, PlayerController>, slots: nat) -> nat
    decreases slots,
{
    if slots == 0 {
        0
    } else {
        let before = taken_among(players, (slots - 1) as nat);
        let id = slots as usize;
        if players.contains_key(id) && players[id].connected {
            before + 1
        } else {
            before
        }
    }
}

/// The slots among the first ones whose players have been silent for too long, with
/// what each virtual controller is owed.
pub open spec fn silent_among(players: Map<usize, PlayerController>, slots: nat, now: u64) -> Seq<
    (usize, Detached),
>
    decreases slots,
{
    if slots == 0 {
        Seq::empty()
    } else {
        let before = silent_among(players, (slots - 1) as nat, now);
        let id = slots as usize;
        if players.contains_key(id) && players[id].silent(now) {
            before.push((id, players[id].detach_duties()))
        } else {
            before
        }
    }
}

/// The statistics of a slot by name.
pub open spec fn slot_members(player: PlayerController, now: u64) -> Map<Seq<char>, Json> {
    let uptime = if player.connected {
        elapsed_since(player.connected_at, now) / NANOS_PER_MILLISECOND as int
    } else {
        0
    };
    Map::empty().insert("player"@, Json::Number(player.player_id as u64)).insert(
        "connected"@,
        Json::Flag(player.connected),
    ).insert("generation"@, Json::Number(player.connection_generation)).insert(
        "packets"@,
        Json::Number(player.packet_count),
    ).insert("dropped_packets"@, Json::Number(player.dropped_packets)).insert(
        "invalid_packets"@,
        Json::Number(player.invalid_packets),
    ).insert("uptime_ms"@, Json::Number(uptime as u64))
}

/// The statistics of the first slots, in their order.
pub open spec fn slots_among(players: Map<usize, PlayerController>, slots: nat, now: u64) -> Seq<
    Json,
>
    decreases slots,
{
    if slots == 0 {
        Seq::empty()
    } else {
        let before = slots_among(players, (slots - 1) as nat, now);
        let id = slots as usize;
        if players.contains_key(id) {
            before.push(Json::Object(slot_members(players[id], now)))
        } else {
            before
        }
    }
}

/// A slot after the watchdog looked at it.
pub open spec fn watched(player: PlayerController, now: u64) -> PlayerController {
    if player.silent(now) {
        player.detached()
    } else {
        player
    }
}

impl ServerState {
    /// What holds between any two events.
    pub open spec fn wf(self) -> bool {
        &&& forall|id: usize| #[trigger] self.players.contains_key(id) <==> is_slot(id)
        &&& forall|id: usize| #[trigger]
            self.players.contains_key(id) ==> self.players[id].player_id == id
                && self.players[id].wf()
        &&& forall|id: usize| #[trigger] self.peers.contains_key(id) ==> is_slot(id)
        &&& forall|id: usize| #[trigger]
            self.players.contains_key(id) && self.players[id].connected
                ==> self.peers.contains_key(id) && self.peers[id]
                == self.players[id].connection_generation
        &&& self.events.len() <= crate::events::MAX_EVENTS
    }

    /// Whether a slot is there and free.
    pub open spec fn is_free(self, id: usize) -> bool {
        self.players.contains_key(id) && !self.players[id].connected
    }

    /// The lowest free slot from a number on.
    pub open spec fn free_from(self, id: nat) -> Option<usize>
        decreases MAX_PLAYERS + 1 - id,
    {
        if id > MAX_PLAYERS {
            None
        } else if self.is_free(id as usize) {
            Some(id as usize)
        } else {
            self.free_from(id + 1)
        }
    }

    /// The slot that the next phone gets: the lowest free one.
    pub open spec fn next_slot(self) -> Option<usize> {
        self.free_from(1)
    }

    /// How many players are connected.
    pub open spec fn active(self) -> nat {
        taken_among(self.players, MAX_PLAYERS as nat)
    }

    /// Whether a slot belongs to a connection.
    pub open spec fn owns(self, player_id: usize, generation: u64) -> bool {
        self.players.contains_key(player_id) && self.players[player_id].owned_by(generation)
    }

    /// The state with a slot changed.
    pub open spec fn with_player(self, id: usize, player: PlayerController) -> ServerState {
        ServerState { players: self.players.insert(id, player), ..self }
    }

    /// The state with an entry added to the log.
    pub open spec fn logging(self, entry: Seq<char>) -> ServerState {
        ServerState { events: latest(self.events.push(entry)), ..self }
    }

    /// The state after a phone joined in a free slot.
    pub open spec fn joined(self, id: usize, now: u64) -> ServerState {
        let player = self.players[id].attached(now);
        ServerState {
            players: self.players.insert(id, player),
            peers: self.peers.insert(id, player.connection_generation),
            metrics: Metrics {
                connections: self.metrics.connections.wrapping_add(1),
                ..self.metrics
            },
            ..self
        }.logging(joined_entry(id, player.connection_generation))
    }

    /// The state after a connection ended.
    pub open spec fn left(self, id: usize, generation: u64) -> ServerState {
        ServerState {
            players: if self.players.contains_key(id) && self.players[id].connection_generation
                == generation {
                self.players.insert(id, self.players[id].detached())
            } else {
                self.players
            },
            peers: if self.peers.contains_key(id) && self.peers[id] == generation {
                self.peers.remove(id)
            } else {
                self.peers
            },
            metrics: Metrics {
                disconnects: self.metrics.disconnects.wrapping_add(1),
                ..self.metrics
            },
            ..self
        }.logging(left_entry(id))
    }

    /// The state once the arrival of a binary message was counted.
    pub open spec fn receiving(self) -> ServerState {
        ServerState {
            metrics: Metrics {
                packets_received: self.metrics.packets_received.wrapping_add(1),
                ..self.metrics
            },
            ..self
        }
    }

    /// The state once an invalid message was counted.
    pub open spec fn counting_invalid(self) -> ServerState {
        ServerState {
            metrics: Metrics {
                invalid_packets: self.metrics.invalid_packets.wrapping_add(1),
                ..self.metrics
            },
            ..self
        }
    }

    /// The state once a dropped packet was counted.
    pub open spec fn counting_dropped(self) -> ServerState {
        ServerState {
            metrics: Metrics {
                packets_dropped: self.metrics.packets_dropped.wrapping_add(1),
                ..self.metrics
            },
            ..self
        }
    }

    /// What becomes of a binary message of a connection.
    pub open spec fn packet_outcome(
        self,
        player_id: usize,
        generation: u64,
        bin: Seq<u8>,
        left: (i16, i16),
        right: (i16, i16),
    ) -> PacketOutcome {
        match reading(bin, player_id) {
            Err(_) => PacketOutcome::Invalid,
            Ok(packet) => if !self.players.contains_key(player_id) {
                PacketOutcome::Missing
            } else if !self.players[player_id].owned_by(generation) {
                PacketOutcome::Stale
            } else if !self.players[player_id].takes(packet.sequence) {
                PacketOutcome::Dropped
            } else if packet.msg_type == GAMEPAD_STATE {
                PacketOutcome::Taken {
                    report: self.players[player_id].steered(packet, left, right).update(),
                }
            } else {
                PacketOutcome::Taken { report: None }
            },
        }
    }

    /// The state after a binary message of a connection, where `left` and `right` are
    /// the thumb stick positions that its stick bytes amount to.
    pub open spec fn after_packet(
        self,
        player_id: usize,
        generation: u64,
        bin: Seq<u8>,
        now: u64,
        left: (i16, i16),
        right: (i16, i16),
    ) -> ServerState {
        let player = self.players[player_id];
        let packet = packet_of(bin);
        match self.packet_outcome(player_id, generation, bin, left, right) {
            PacketOutcome::Invalid => if self.players.contains_key(player_id) {
                self.receiving().counting_invalid().with_player(player_id, player.faulted())
            } else {
                self.receiving().counting_invalid()
            },
            PacketOutcome::Missing => self.receiving(),
            PacketOutcome::Stale => self.receiving().counting_dropped(),
            PacketOutcome::Dropped => self.receiving().counting_dropped().with_player(
                player_id,
                player.dropping(),
            ),
            PacketOutcome::Taken { .. } => self.receiving().with_player(
                player_id,
                player.counted(packet.sequence, now).steered(packet, left, right),
            ),
        }
    }

    /// What a message does to the slot of the connection that sent it.
    pub open spec fn player_after(
        player: PlayerController,
        message: ClientMessage,
        now: u64,
    ) -> PlayerController {
        match message {
            ClientMessage::ButtonPress { button } => player.pressing(button@, true).seen(now),
            ClientMessage::ButtonRelease { button } => player.pressing(button@, false).seen(now),
            ClientMessage::JoystickMove { stick, thumb } => player.seen(now).leaning(
                stick@,
                thumb,
            ),
            ClientMessage::Ping => player.seen(now),
            ClientMessage::MouseMove { .. } => player,
            ClientMessage::KeyText { .. } => player,
        }
    }

    /// The state after a message of a connection.
    pub open spec fn after_message(
        self,
        player_id: usize,
        generation: u64,
        message: ClientMessage,
        now: u64,
    ) -> ServerState {
        if self.owns(player_id, generation) {
            self.with_player(
                player_id,
                ServerState::player_after(self.players[player_id], message, now),
            )
        } else {
            self
        }
    }

    /// Whether an action is what a message of a connection calls for.
    pub open spec fn calls_for(
        self,
        player_id: usize,
        generation: u64,
        message: ClientMessage,
        now: u64,
        action: ClientAction,
    ) -> bool {
        match message {
            ClientMessage::MouseMove { dx, dy } => action == ClientAction::MoveMouse { dx, dy },
            ClientMessage::KeyText { text } => action == ClientAction::TypeText(text),
            ClientMessage::Ping => action matches ClientAction::Reply(pong) && pong.kind@
                == "pong"@,
            _ => if self.owns(player_id, generation) {
                action == report_action(
                    ServerState::player_after(self.players[player_id], message, now).update(),
                )
            } else {
                action is Nothing
            },
        }
    }

    /// Whether a probe of a connection's phone is to be sent: no echo is still to come.
    pub open spec fn probe_due(self, player_id: usize, generation: u64) -> bool {
        self.owns(player_id, generation) && self.players[player_id].probed_at is None
    }

    /// The state after a connection's phone was probed, if that was due.
    pub open spec fn after_probe(self, player_id: usize, generation: u64, now: u64) -> ServerState {
        if self.probe_due(player_id, generation) {
            self.with_player(player_id, self.players[player_id].probed(now))
        } else {
            self
        }
    }

    /// The state after the echo of a connection's phone.
    pub open spec fn after_echo(self, player_id: usize, generation: u64, now: u64) -> ServerState {
        if self.owns(player_id, generation) {
            self.with_player(player_id, self.players[player_id].echoed(now))
        } else {
            self
        }
    }

    /// The connection that rumble for a slot goes to.
    pub open spec fn rumble_target(self, player_id: usize) -> Option<u64> {
        if self.players.contains_key(player_id) {
            self.players[player_id].rumble_tx
        } else {
            None
        }
    }

    /// The answer to a health check by name.
    pub open spec fn health_members(self) -> Map<Seq<char>, Json> {
        Map::empty().insert("status"@, Json::Text("ok"@)).insert(
            "active_players"@,
            Json::Number(self.active() as u64),
        ).insert("capacity"@, Json::Number(MAX_PLAYERS as u64))
    }

    /// The statistics of the server by name.
    pub open spec fn stats_members(self, now: u64) -> Map<Seq<char>, Json> {
        Map::empty().insert("status"@, Json::Object(self.metrics.members())).insert(
            "slots"@,
            Json::List(slots_among(self.players, MAX_PLAYERS as nat, now)),
        )
    }

    /// The state after the watchdog looked at every slot.
    pub open spec fn after_watchdog(self, now: u64) -> ServerState {
        let resets = silent_among(self.players, MAX_PLAYERS as nat, now).len() as u64;
        ServerState {
            players: self.players.map_values(|player: PlayerController| watched(player, now)),
            metrics: Metrics {
                watchdog_resets: self.metrics.watchdog_resets.wrapping_add(resets),
                input_watchdog_resets: self.metrics.input_watchdog_resets.wrapping_add(resets),
                ..self.metrics
            },
            ..self
        }
    }
}

/// A join keeps what holds between events.
pub proof fn join_keeps_wf(state: ServerState, id: usize, now: u64)
    requires
        state.wf(),
        state.is_free(id),
    ensures
        state.joined(id, now).wf(),
{
    let after = state.joined(id, now);
    assert forall|k: usize| after.players.contains_key(k) && after.players[k].connected implies after.peers.contains_key(
        k,
    ) && after.peers[k] == after.players[k].connection_generation by {
        if k != id {
            assert(state.players.contains_key(k));
        }
    }
}

/// The end of a connection keeps what holds between events.
pub proof fn leave_keeps_wf(state: ServerState, id: usize, generation: u64)
    requires
        state.wf(),
    ensures
        state.left(id, generation).wf(),
{
    let after = state.left(id, generation);
    assert forall|k: usize| after.players.contains_key(k) && after.players[k].connected implies after.peers.contains_key(
        k,
    ) && after.peers[k] == after.players[k].connection_generation by {
        assert(state.players.contains_key(k));
    }
    assert forall|k: usize| after.players.contains_key(k) implies after.players[k].player_id == k
        && after.players[k].wf() by {
        assert(state.players.contains_key(k));
    }
}

/// The watchdog keeps what holds between events.
pub proof fn watchdog_keeps_wf(state: ServerState, now: u64)
    requires
        state.wf(),
    ensures
        state.after_watchdog(now).wf(),
{
    let after = state.after_watchdog(now);
    assert forall|k: usize| after.players.contains_key(k) && after.players[k].connected implies after.peers.contains_key(
        k,
    ) && after.peers[k] == after.players[k].connection_generation by {
        assert(state.players.contains_key(k));
    }
    assert forall|k: usize| after.players.contains_key(k) implies after.players[k].player_id == k
        && after.players[k].wf() by {
        assert(state.players.contains_key(k));
    }
}

/// Writes the statistics of a slot.
fn slot_stats(player: &PlayerController, now: u64) -> (slot: serde_json::Value)
    ensures
        json_of(slot) == Json::Object(slot_members(*player, now)),
{
    let uptime: u64 = if player.connected {
        elapsed(player.connected_at, now) / NANOS_PER_MILLISECOND
    } else {
        0
    };
    let mut slot = json_object();
    json_put(&mut slot, "player", json_number(player.player_id as u64));
    json_put(&mut slot, "connected", json_flag(player.connected));
    json_put(&mut slot, "generation", json_number(player.connection_generation));
    json_put(&mut slot, "packets", json_number(player.packet_count));
    json_put(&mut slot, "dropped_packets", json_number(player.dropped_packets));
    json_put(&mut slot, "invalid_packets", json_number(player.invalid_packets));
    json_put(&mut slot, "uptime_ms", json_number(uptime));
    slot
}

impl View for Server {
    type V = ServerState;

    closed spec fn view(&self) -> ServerState {
        ServerState {
            players: self.players@,
            peers: self.peers@,
            metrics: self.metrics,
            events: self.tui_events@,
        }
    }
}

impl Server {
    /// What holds between any two events.
    pub open spec fn wf(self) -> bool {
        self@.wf()
    }

    /// A server nobody has joined yet.
    pub open spec fn idle(xbox: XboxTarget, now: u64) -> ServerState {
        ServerState {
            players: Map::new(
                |id: usize| is_slot(id),
                |id: usize| PlayerController::vacant(id, xbox, now),
            ),
            peers: Map::empty(),
            metrics: no_counts(),
            events: Seq::empty(),
        }
    }

    /// Sets up the slots; `xbox_supported` tells whether the platform has virtual
    /// controllers.
    pub fn new(xbox_supported: bool, now: u64) -> (server: Server)
        ensures
            server.wf(),
            server@ == Server::idle(
                if xbox_supported {
                    XboxTarget::Unplugged
                } else {
                    XboxTarget::Unsupported
                },
                now,
            ),
    {
        let xbox = if xbox_supported {
            XboxTarget::Unplugged
        } else {
            XboxTarget::Unsupported
        };
        let mut players: HashMap<usize, PlayerController> = HashMap::new();
        let mut id: usize = 1;
        while id <= MAX_PLAYERS
            invariant
                1 <= id <= MAX_PLAYERS + 1,
                forall|k: usize| #[trigger] players@.contains_key(k) <==> 1 <= k < id,
                forall|k: usize| #[trigger]
                    players@.contains_key(k) ==> players@[k] == PlayerController::vacant(
                        k,
                        xbox,
                        now,
                    ),
            decreases MAX_PLAYERS + 1 - id,
        {
            players.insert(id, PlayerController::new(id, xbox, now));
            id += 1;
        }
        let server = Server {
            players,
            peers: HashMap::new(),
            metrics: Metrics::new(),
            tui_events: TuiEvents::new(),
        };
        assert(server@ =~= Server::idle(xbox, now));
        server
    }

    /// The slot that the next phone gets: the lowest free one.
    pub fn claim_slot(&self) -> (slot: Option<usize>)
        requires
            self.wf(),
        ensures
            slot == self@.next_slot(),
            match slot {
                Some(id) => self@.is_free(id) && forall|other: usize|
                    self@.is_free(other) ==> id <= other,
                None => forall|other: usize| !self@.is_free(other),
            },
    {
        let mut id: usize = 1;
        while id <= MAX_PLAYERS
            invariant
                self@.wf(),
                1 <= id <= MAX_PLAYERS + 1,
                self@.next_slot() == self@.free_from(id as nat),
                forall|other: usize| other < id ==> !self@.is_free(other),
            decreases MAX_PLAYERS + 1 - id,
        {
            if let Some(controller) = self.players.get(&id) {
                if !controller.connected {
                    return Some(id);
                }
            }
            id += 1;
        }
        None
    }

    /// The slot for which a virtual controller has to be plugged in before the next
    /// phone can join, if it lacks one.
    pub fn slot_without_target(&self) -> (slot: Option<usize>)
        requires
            self.wf(),
        ensures
            slot == (match self@.next_slot() {
                Some(id) => if self@.players[id].xbox is Unplugged {
                    Some(id)
                } else {
                    None
                },
                None => None,
            }),
    {
        let id = match self.claim_slot() {
            Some(id) => id,
            None => return None,
        };
        if let Some(controller) = self.players.get(&id) {
            if let XboxTarget::Unplugged = controller.xbox {
                return Some(id);
            }
        }
        None
    }

    /// Lets a phone join in the lowest free slot; `created` tells whether a virtual
    /// controller could be plugged in for a slot that lacked one. Where there is no
    /// slot, or no virtual controller, nothing changes.
    pub fn join(&mut self, created: bool, now: u64) -> (result: Joining)
        requires
            old(self).wf(),
        ensures
            final(self).wf(),
            match old(self)@.next_slot() {
                None => {
                    &&& final(self)@ == old(self)@
                    &&& result matches Joining::Full { reply }
                    &&& reply@ == json_written(full_notice(MAX_PLAYERS as u64))
                },
                Some(id) => if old(self)@.players[id].attachable(created) {
                    &&& final(self)@ == old(self)@.joined(id, now)
                    &&& result matches Joining::Joined { player_id, generation, report, welcome }
                    &&& player_id == id
                    &&& generation == final(self)@.players[id].connection_generation
                    &&& report == final(self)@.players[id].update()
                    &&& welcome.kind@ == "welcome"@
                    &&& welcome.player_id == id
                } else {
                    &&& final(self)@ == old(self)@
                    &&& result matches Joining::Unavailable { player_id, error, reply }
                    &&& player_id == id
                    &&& error@ == no_controller_text()
                    &&& reply@ == json_written(unavailable_notice())
                },
            },
    {
        let ghost before = self@;
        let id = match self.claim_slot() {
            Some(id) => id,
            None => return Joining::Full { reply: server_full(MAX_PLAYERS as u64) },
        };
        let mut controller = match self.players.get(&id) {
            Some(controller) => *controller,
            None => return Joining::Full { reply: server_full(MAX_PLAYERS as u64) },
        };
        let generation = match controller.attach(created, now) {
            Ok(generation) => generation,
            Err(error) => {
                return Joining::Unavailable {
                    player_id: id,
                    error,
                    reply: controller_unavailable(),
                };
            },
        };
        let report = crate::player::push_gamepad_update(&controller);
        self.players.insert(id, controller);
        self.metrics.connections = self.metrics.connections.wrapping_add(1);
        let mut entry = "P".to_owned();
        entry.append(decimal(id as u64).as_str());
        entry.append(" connected (generation ");
        entry.append(decimal(generation).as_str());
        entry.append(")");
        self.tui_events.tui_event(entry);
        self.peers.insert(id, generation);
        assert(self@ =~= before.joined(id, now));
        proof {
            join_keeps_wf(before, id, now);
        }
        Joining::Joined { player_id: id, generation, report, welcome: ServerWelcome::new(id) }
    }

    /// Ends a connection. The slot is vacated only if it still belongs to that
    /// connection: it may have been reused before the old connection's end was noticed.
    pub fn leave(&mut self, player_id: usize, generation: u64) -> (duties: Option<Detached>)
        requires
            old(self).wf(),
        ensures
            final(self).wf(),
            final(self)@ == old(self)@.left(player_id, generation),
            duties == (if old(self)@.players.contains_key(player_id)
                && old(self)@.players[player_id].connection_generation == generation {
                Some(old(self)@.players[player_id].detach_duties())
            } else {
                None
            }),
    {
        let ghost before = self@;
        let mut duties: Option<Detached> = None;
        if let Some(found) = self.players.get(&player_id) {
            let mut controller = *found;
            if controller.connection_generation == generation {
                duties = Some(controller.detach());
                self.players.insert(player_id, controller);
            }
        }
        let current = match self.peers.get(&player_id) {
            Some(owner) => *owner == generation,
            None => false,
        };
        if current {
            self.peers.remove(&player_id);
        }
        self.metrics.disconnects = self.metrics.disconnects.wrapping_add(1);
        let mut entry = "P".to_owned();
        entry.append(decimal(player_id as u64).as_str());
        entry.append(" disconnected");
        self.tui_events.tui_event(entry);
        assert(self@ =~= before.left(player_id, generation));
        proof {
            leave_keeps_wf(before, player_id, generation);
        }
        duties
    }

    /// Takes a binary message of a connection. `curve` gives the thumb stick position
    /// for the two bytes of a stick.
    pub fn receive_packet<F: Fn(i8, i8) -> (i16, i16)>(
        &mut self,
        player_id: usize,
        generation: u64,
        bin: &[u8],
        now: u64,
        curve: F,
    ) -> (outcome: PacketOutcome)
        requires
            old(self).wf(),
            forall|x: i8, y: i8| call_requires(curve, (x, y)),
        ensures
            final(self).wf(),
            exists|left: (i16, i16), right: (i16, i16)|
                {
                    &&& outcome is Taken && packet_of(bin@).msg_type == GAMEPAD_STATE ==> {
                        &&& call_ensures(curve, (packet_of(bin@).lx, packet_of(bin@).ly), left)
                        &&& call_ensures(curve, (packet_of(bin@).rx, packet_of(bin@).ry), right)
                    }
                    &&& outcome == old(self)@.packet_outcome(
                        player_id,
                        generation,
                        bin@,
                        left,
                        right,
                    )
                    &&& final(self)@ == #[trigger] old(self)@.after_packet(
                        player_id,
                        generation,
                        bin@,
                        now,
                        left,
                        right,
                    )
                },
    {
        let ghost before = self@;
        self.metrics.packets_received = self.metrics.packets_received.wrapping_add(1);
        let packet = match read_packet(bin, player_id) {
            Ok(packet) => packet,
            Err(_) => {
                self.metrics.invalid_packets = self.metrics.invalid_packets.wrapping_add(1);
                if let Some(found) = self.players.get(&player_id) {
                    let mut controller = *found;
                    controller.invalid_packets = controller.invalid_packets.wrapping_add(1);
                    self.players.insert(player_id, controller);
                }
                assert(self@ =~= before.after_packet(
                    player_id,
                    generation,
                    bin@,
                    now,
                    (0i16, 0i16),
                    (0i16, 0i16),
                ));
                return PacketOutcome::Invalid;
            },
        };
        let mut controller = match self.players.get(&player_id) {
            Some(controller) => *controller,
            None => {
                assert(self@ =~= before.after_packet(
                    player_id,
                    generation,
                    bin@,
                    now,
                    (0i16, 0i16),
                    (0i16, 0i16),
                ));
                return PacketOutcome::Missing;
            },
        };
        if !controller.is_owned_by(generation) {
            self.metrics.packets_dropped = self.metrics.packets_dropped.wrapping_add(1);
            assert(self@ =~= before.after_packet(
                player_id,
                generation,
                bin@,
                now,
                (0i16, 0i16),
                (0i16, 0i16),
            ));
            return PacketOutcome::Stale;
        }
        if !controller.accept(packet.sequence, now) {
            self.players.insert(player_id, controller);
            self.metrics.packets_dropped = self.metrics.packets_dropped.wrapping_add(1);
            assert(self@ =~= before.after_packet(
                player_id,
                generation,
                bin@,
                now,
                (0i16, 0i16),
                (0i16, 0i16),
            ));
            return PacketOutcome::Dropped;
        }
        let mut report: Option<XGamepad> = None;
        if packet.msg_type == GAMEPAD_STATE {
            let left = curve(packet.lx, packet.ly);
            let right = curve(packet.rx, packet.ry);
            report = controller.steer(packet, left, right);
            self.players.insert(player_id, controller);
            assert(self@ =~= before.after_packet(player_id, generation, bin@, now, left, right));
        } else {
            self.players.insert(player_id, controller);
            assert(self@ =~= before.after_packet(
                player_id,
                generation,
                bin@,
                now,
                (0i16, 0i16),
                (0i16, 0i16),
            ));
        }
        PacketOutcome::Taken { report }
    }

    /// Admits a text message that is not too long, and counts one that is as invalid.
    pub fn admit_text(&mut self, text: &str) -> (admitted: bool)
        requires
            old(self).wf(),
        ensures
            final(self).wf(),
            admitted == (vstd::utf8::encode_utf8(text@).len() <= MAX_TEXT_MESSAGE),
            final(self)@ == (if admitted {
                old(self)@
            } else {
                old(self)@.counting_invalid()
            }),
    {
        if text.as_bytes().len() > MAX_TEXT_MESSAGE {
            self.metrics.invalid_packets = self.metrics.invalid_packets.wrapping_add(1);
            assert(self@ =~= old(self)@.counting_invalid());
            return false;
        }
        true
    }

    /// Takes a message of a connection. One that addresses the slot does so only while
    /// the slot belongs to that connection; a ping is answered in any case.
    pub fn receive_message(
        &mut self,
        player_id: usize,
        generation: u64,
        message: ClientMessage,
        now: u64,
    ) -> (action: ClientAction)
        requires
            old(self).wf(),
        ensures
            final(self).wf(),
            final(self)@ == old(self)@.after_message(player_id, generation, message, now),
            old(self)@.calls_for(player_id, generation, message, now, action),
    {
        let ghost before = self@;
        let owner: Option<PlayerController> = match self.players.get(&player_id) {
            Some(controller) => if controller.is_owned_by(generation) {
                Some(*controller)
            } else {
                None
            },
            None => None,
        };
        let mut action = ClientAction::Nothing;
        match message {
            ClientMessage::MouseMove { dx, dy } => {
                action = ClientAction::MoveMouse { dx, dy };
            },
            ClientMessage::KeyText { text } => {
                action = ClientAction::TypeText(text);
            },
            ClientMessage::ButtonPress { button } => {
                if let Some(mut controller) = owner {
                    if let Some(report) = apply_button(&mut controller, button.as_str(), true) {
                        action = ClientAction::Report(report);
                    }
                    controller.last_packet_at = now;
                    self.players.insert(player_id, controller);
                }
            },
            ClientMessage::ButtonRelease { button } => {
                if let Some(mut controller) = owner {
                    if let Some(report) = apply_button(&mut controller, button.as_str(), false) {
                        action = ClientAction::Report(report);
                    }
                    controller.last_packet_at = now;
                    self.players.insert(player_id, controller);
                }
            },
            ClientMessage::JoystickMove { stick, thumb } => {
                if let Some(mut controller) = owner {
                    controller.last_packet_at = now;
                    if let Some(report) = controller.lean(stick.as_str(), thumb) {
                        action = ClientAction::Report(report);
                    }
                    self.players.insert(player_id, controller);
                }
            },
            ClientMessage::Ping => {
                if let Some(mut controller) = owner {
                    controller.last_packet_at = now;
                    self.players.insert(player_id, controller);
                }
                action = ClientAction::Reply(ServerPong::new());
            },
        }
        assert(self@ =~= before.after_message(player_id, generation, message, now));
        action
    }

    /// Notes that a connection's phone is probed for its latency, and tells whether the
    /// probe is to be sent.
    pub fn probe(&mut self, player_id: usize, generation: u64, now: u64) -> (due: bool)
        requires
            old(self).wf(),
        ensures
            final(self).wf(),
            due == old(self)@.probe_due(player_id, generation),
            final(self)@ == old(self)@.after_probe(player_id, generation, now),
    {
        let ghost before = self@;
        let mut due: bool = false;
        if let Some(found) = self.players.get(&player_id) {
            let mut controller = *found;
            if controller.is_owned_by(generation) && controller.probe(now) {
                self.players.insert(player_id, controller);
                due = true;
            }
        }
        assert(self@ =~= before.after_probe(player_id, generation, now));
        due
    }

    /// Measures a player's latency when the echo of a probe arrives.
    pub fn echo(&mut self, player_id: usize, generation: u64, now: u64)
        requires
            old(self).wf(),
        ensures
            final(self).wf(),
            final(self)@ == old(self)@.after_echo(player_id, generation, now),
    {
        let ghost before = self@;
        if let Some(found) = self.players.get(&player_id) {
            let mut controller = *found;
            if controller.is_owned_by(generation) {
                controller.echo(now);
                self.players.insert(player_id, controller);
            }
        }
        assert(self@ =~= before.after_echo(player_id, generation, now));
    }

    /// Vacates every slot whose player has been silent for too long, and returns those
    /// slots, the lowest first, with what each virtual controller is owed.
    pub fn watchdog(&mut self, now: u64) -> (vacated: Vec<(usize, Detached)>)
        requires
            old(self).wf(),
        ensures
            final(self).wf(),
            final(self)@ == old(self)@.after_watchdog(now),
            vacated@ == silent_among(old(self)@.players, MAX_PLAYERS as nat, now),
    {
        let ghost before = self@;
        let mut vacated: Vec<(usize, Detached)> = Vec::new();
        let mut id: usize = 1;
        while id <= MAX_PLAYERS
            invariant
                1 <= id <= MAX_PLAYERS + 1,
                before.wf(),
                self@.peers == before.peers,
                self@.events == before.events,
                forall|k: usize| #[trigger]
                    self@.players.contains_key(k) <==> before.players.contains_key(k),
                forall|k: usize| #[trigger]
                    before.players.contains_key(k) ==> self@.players[k] == (if k < id {
                        watched(before.players[k], now)
                    } else {
                        before.players[k]
                    }),
                vacated@ == silent_among(before.players, (id - 1) as nat, now),
                vacated@.len() < id,
                self@.metrics == (Metrics {
                    watchdog_resets: before.metrics.watchdog_resets.wrapping_add(
                        vacated@.len() as u64,
                    ),
                    input_watchdog_resets: before.metrics.input_watchdog_resets.wrapping_add(
                        vacated@.len() as u64,
                    ),
                    ..before.metrics
                }),
            decreases MAX_PLAYERS + 1 - id,
        {
            if let Some(found) = self.players.get(&id) {
                let mut controller = *found;
                if controller.timed_out(now) {
                    self.metrics.watchdog_resets = self.metrics.watchdog_resets.wrapping_add(1);
                    self.metrics.input_watchdog_resets =
                    self.metrics.input_watchdog_resets.wrapping_add(1);
                    let duties = controller.detach();
                    self.players.insert(id, controller);
                    vacated.push((id, duties));
                }
            }
            id += 1;
        }
        assert(self@ =~= before.after_watchdog(now));
        proof {
            watchdog_keeps_wf(before, now);
        }
        vacated
    }

    /// How many players are connected.
    pub fn active_players(&self) -> (active: u64)
        requires
            self.wf(),
        ensures
            active == self@.active(),
    {
        let mut active: u64 = 0;
        let mut id: usize = 1;
        while id <= MAX_PLAYERS
            invariant
                1 <= id <= MAX_PLAYERS + 1,
                active == taken_among(self@.players, (id - 1) as nat),
                active < id,
            decreases MAX_PLAYERS + 1 - id,
        {
            if let Some(controller) = self.players.get(&id) {
                if controller.connected {
                    active += 1;
                }
            }
            id += 1;
        }
        active
    }

    /// Rumble for a slot, with the connection that it goes to: the phone that holds the
    /// slot at the moment, if any.
    pub fn rumble(&self, player_id: usize, large: u8, small: u8) -> (message: Option<
        (u64, ServerRumble),
    >)
        ensures
            match self@.rumble_target(player_id) {
                Some(generation) => {
                    &&& message matches Some((to, rumble))
                    &&& to == generation
                    &&& rumble.kind@ == "rumble"@
                    &&& rumble.large == large
                    &&& rumble.small == small
                },
                None => message is None,
            },
    {
        rumble_message(self.rumble_target(player_id), large, small)
    }

    /// The connection that rumble for a slot goes to at the moment.
    pub fn rumble_target(&self, player_id: usize) -> (generation: Option<u64>)
        ensures
            generation == self@.rumble_target(player_id),
    {
        match self.players.get(&player_id) {
            Some(controller) => controller.rumble_tx,
            None => None,
        }
    }

    /// The connection that messages for a slot are sent to. It may outlive its hold on
    /// the slot, until its end is noticed or the slot is given to another one.
    pub fn peer(&self, player_id: usize) -> (generation: Option<u64>)
        ensures
            generation == (if self@.peers.contains_key(player_id) {
                Some(self@.peers[player_id])
            } else {
                None
            }),
    {
        match self.peers.get(&player_id) {
            Some(generation) => Some(*generation),
            None => None,
        }
    }

    /// Adds an entry to the log.
    pub fn log(&mut self, entry: String)
        requires
            old(self).wf(),
        ensures
            final(self).wf(),
            final(self)@ == old(self)@.logging(entry@),
    {
        let ghost before = self@;
        self.tui_events.tui_event(entry);
        assert(self@ =~= before.logging(entry@));
    }

    /// Logs that the server is up.
    pub fn announce(&mut self, url: &str)
        requires
            old(self).wf(),
        ensures
            final(self).wf(),
            final(self)@ == old(self)@.logging("Server listening at "@ + url@).logging(
                "Ready for controller connections"@,
            ),
    {
        let mut entry = "Server listening at ".to_owned();
        entry.append(url);
        self.log(entry);
        self.log("Ready for controller connections".to_owned());
    }

    /// The log as one text.
    pub fn events_text(&self) -> (text: String)
        ensures
            text@ == events_shown(self@.events),
    {
        self.tui_events.text()
    }

    /// The answer to a health check.
    pub fn health(&self) -> (report: serde_json::Value)
        requires
            self.wf(),
        ensures
            json_of(report) == Json::Object(self@.health_members()),
    {
        let mut report = json_object();
        json_put(&mut report, "status", json_text("ok"));
        json_put(&mut report, "active_players", json_number(self.active_players()));
        json_put(&mut report, "capacity", json_number(MAX_PLAYERS as u64));
        report
    }

    /// The statistics of the server and of each slot, in the order of the slots.
    pub fn stats(&self, now: u64) -> (report: serde_json::Value)
        requires
            self.wf(),
        ensures
            json_of(report) == Json::Object(self@.stats_members(now)),
    {
        let mut slots: Vec<serde_json::Value> = Vec::new();
        let mut id: usize = 1;
        while id <= MAX_PLAYERS
            invariant
                1 <= id <= MAX_PLAYERS + 1,
                slots@.map_values(|slot: serde_json::Value| json_of(slot)) == slots_among(
                    self@.players,
                    (id - 1) as nat,
                    now,
                ),
            decreases MAX_PLAYERS + 1 - id,
        {
            if let Some(controller) = self.players.get(&id) {
                let ghost before = slots@;
                let slot = slot_stats(controller, now);
                slots.push(slot);
                assert(slots@.map_values(|slot: serde_json::Value| json_of(slot))
                    =~= before.map_values(|slot: serde_json::Value| json_of(slot)).push(
                    json_of(slot),
                ));
            }
            id += 1;
        }
        let mut report = json_object();
        json_put(&mut report, "status", self.metrics.snapshot());
        json_put(&mut report, "slots", json_list(slots));
        report
    }

    /// The rows of the player table, one for each slot.
    pub fn rows(&self, now: u64) -> (rows: Vec<PlayerRow>)
        requires
            self.wf(),
        ensures
            rows@.len() == MAX_PLAYERS,
            forall|i: int|
                0 <= i < MAX_PLAYERS ==> row_shows(
                    #[trigger] rows@[i],
                    self@.players[(i + 1) as usize],
                    now,
                ),
            forall|i: int|
                0 <= i < MAX_PLAYERS ==> #[trigger] rows@[i].cells() == table_row(
                    (i + 1) as usize,
                    if self@.players.contains_key((i + 1) as usize) {
                        Some(self@.players[(i + 1) as usize])
                    } else {
                        None
                    },
                    now,
                ),
    {
        let mut rows: Vec<PlayerRow> = Vec::new();
        let mut id: usize = 1;
        while id <= MAX_PLAYERS
            invariant
                1 <= id <= MAX_PLAYERS + 1,
                self@.wf(),
                rows@.len() == id - 1,
                forall|i: int|
                    0 <= i < id - 1 ==> row_shows(
                        #[trigger] rows@[i],
                        self@.players[(i + 1) as usize],
                        now,
                    ),
                forall|i: int|
                    0 <= i < id - 1 ==> #[trigger] rows@[i].cells() == table_row(
                        (i + 1) as usize,
                        if self@.players.contains_key((i + 1) as usize) {
                            Some(self@.players[(i + 1) as usize])
                        } else {
                            None
                        },
                        now,
                    ),
            decreases MAX_PLAYERS + 1 - id,
        {
            assert(self@.players.contains_key(id));
            rows.push(player_row(id, self.players.get(&id), now));
            id += 1;
        }
        rows
    }

    /// The text of the panel with the server's address and counters.
    pub fn header(&self, url: &str) -> (text: String)
        requires
            self.wf(),
        ensures
            text@ == header_text(url@, self@.active(), MAX_PLAYERS as nat, self@.metrics),
    {
        server_info(url, self.active_players(), MAX_PLAYERS as u64, &self.metrics)
    }
}

} // verus!
