//! What holds of the server over any course of events.

use vstd::prelude::*;

use crate::dashboard::{table_row, PlayerRow};
use crate::laws::{generation_after, generation_does_not_return};
use crate::messages::ClientMessage;
use crate::packet::{packet_of, reading};
use crate::player::{next_generation, PlayerController};
use crate::screen_laws::{is_decimal, row_shows_its_slot};
use crate::server::{is_slot, PacketOutcome, ServerState, MAX_PLAYERS};

verus! {

/// Something that happens to the server.
pub enum ServerEvent {
    /// A phone asks for a slot; `created` tells whether a virtual controller could be
    /// plugged in for a slot that lacked one.
    Join { created: bool, now: u64 },
    /// A connection ends.
    Leave { player_id: usize, generation: u64 },
    /// A binary message of a connection arrives, with the thumb stick positions that its
    /// stick bytes amount to.
    Packet {
        player_id: usize,
        generation: u64,
        bin: Seq<u8>,
        now: u64,
        left: (i16, i16),
        right: (i16, i16),
    },
    /// A text message is too long.
    OverlongText,
    /// A message of a connection arrives.
    Message { player_id: usize, generation: u64, message: ClientMessage, now: u64 },
    /// A connection's phone is probed for its latency.
    Probe { player_id: usize, generation: u64, now: u64 },
    /// A connection's phone echoes a probe.
    Echo { player_id: usize, generation: u64, now: u64 },
    /// The watchdog looks at the slots.
    Watchdog { now: u64 },
    /// Something is written to the log.
    Log { entry: Seq<char> },
}

impl ServerState {
    /// The state after an event.
    pub open spec fn after(self, event: ServerEvent) -> ServerState {
        match event {
            ServerEvent::Join { created, now } => match self.next_slot() {
                Some(id) => if self.players[id].attachable(created) {
                    self.joined(id, now)
                } else {
                    self
                },
                None => self,
            },
            ServerEvent::Leave { player_id, generation } => self.left(player_id, generation),
            ServerEvent::Packet {
                player_id,
                generation,
                bin,
                now,
                left,
                right,
            } => self.after_packet(player_id, generation, bin, now, left, right),
            ServerEvent::OverlongText => self.counting_invalid(),
            ServerEvent::Message { player_id, generation, message, now } => self.after_message(
                player_id,
                generation,
                message,
                now,
            ),
            ServerEvent::Probe { player_id, generation, now } => self.after_probe(
                player_id,
                generation,
                now,
            ),
            ServerEvent::Echo { player_id, generation, now } => self.after_echo(
                player_id,
                generation,
                now,
            ),
            ServerEvent::Watchdog { now } => self.after_watchdog(now),
            ServerEvent::Log { entry } => self.logging(entry),
        }
    }

    /// The state after a course of events.
    pub open spec fn after_all(self, events: Seq<ServerEvent>) -> ServerState
        decreases events.len(),
    {
        if events.len() == 0 {
            self
        } else {
            self.after_all(events.drop_last()).after(events.last())
        }
    }
}

/// A change of a slot that leaves its connection alone keeps what holds between events.
proof fn slot_change_keeps_wf(state: ServerState, id: usize, player: PlayerController)
    requires
        state.wf(),
        state.players.contains_key(id),
        player.wf(),
        player.player_id == id,
        player.connected == state.players[id].connected,
        player.connection_generation == state.players[id].connection_generation,
    ensures
        state.with_player(id, player).wf(),
{
    let after = state.with_player(id, player);
    assert forall|k: usize| #[trigger] after.players.contains_key(k) implies after.players[k].player_id
        == k && after.players[k].wf() && (after.players[k].connected ==> after.peers.contains_key(k)
        && after.peers[k] == after.players[k].connection_generation) by {
        assert(state.players.contains_key(k));
    }
}

/// A binary message keeps what holds between events.
proof fn packet_keeps_wf(
    state: ServerState,
    player_id: usize,
    generation: u64,
    bin: Seq<u8>,
    now: u64,
    left: (i16, i16),
    right: (i16, i16),
)
    requires
        state.wf(),
    ensures
        state.after_packet(player_id, generation, bin, now, left, right).wf(),
{
    let player = state.players[player_id];
    let packet = packet_of(bin);
    match state.packet_outcome(player_id, generation, bin, left, right) {
        PacketOutcome::Invalid => {
            if state.players.contains_key(player_id) {
                let counted = state.receiving().counting_invalid();
                slot_change_keeps_wf(counted, player_id, player.faulted());
            }
        },
        PacketOutcome::Dropped => {
            let counted = state.receiving().counting_dropped();
            slot_change_keeps_wf(counted, player_id, player.dropping());
        },
        PacketOutcome::Taken { .. } => {
            let steered = player.counted(packet.sequence, now).steered(packet, left, right);
            slot_change_keeps_wf(state.receiving(), player_id, steered);
        },
        _ => {},
    }
}

/// A message keeps what holds between events.
proof fn message_keeps_wf(
    state: ServerState,
    player_id: usize,
    generation: u64,
    message: ClientMessage,
    now: u64,
)
    requires
        state.wf(),
    ensures
        state.after_message(player_id, generation, message, now).wf(),
{
    if state.owns(player_id, generation) {
        let player = ServerState::player_after(state.players[player_id], message, now);
        slot_change_keeps_wf(state, player_id, player);
    }
}

/// Every event keeps what holds between events.
pub proof fn event_keeps_wf(state: ServerState, event: ServerEvent)
    requires
        state.wf(),
    ensures
        state.after(event).wf(),
{
    match event {
        ServerEvent::Join { created, now } => {
            crate::server_laws::next_slot_is_the_lowest_free_one(state);
            if let Some(id) = state.next_slot() {
                crate::server::join_keeps_wf(state, id, now);
            }
        },
        ServerEvent::Leave { player_id, generation } => {
            crate::server::leave_keeps_wf(state, player_id, generation);
        },
        ServerEvent::Packet { player_id, generation, bin, now, left, right } => {
            packet_keeps_wf(state, player_id, generation, bin, now, left, right);
        },
        ServerEvent::Message { player_id, generation, message, now } => {
            message_keeps_wf(state, player_id, generation, message, now);
        },
        ServerEvent::Probe { player_id, generation, now } => {
            if state.probe_due(player_id, generation) {
                slot_change_keeps_wf(state, player_id, state.players[player_id].probed(now));
            }
        },
        ServerEvent::Echo { player_id, generation, now } => {
            if state.owns(player_id, generation) {
                slot_change_keeps_wf(state, player_id, state.players[player_id].echoed(now));
            }
        },
        ServerEvent::Watchdog { now } => {
            crate::server::watchdog_keeps_wf(state, now);
        },
        _ => {},
    }
}

/// What holds between events holds after any course of them.
pub proof fn every_course_keeps_wf(state: ServerState, events: Seq<ServerEvent>)
    requires
        state.wf(),
    ensures
        state.after_all(events).wf(),
    decreases events.len(),
{
    if events.len() > 0 {
        every_course_keeps_wf(state, events.drop_last());
        event_keeps_wf(state.after_all(events.drop_last()), events.last());
    }
}

/// Whatever happens, the server never holds more players than it has slots.
pub proof fn capacity_is_never_exceeded(state: ServerState, events: Seq<ServerEvent>)
    requires
        state.wf(),
    ensures
        state.after_all(events).active() <= MAX_PLAYERS,
{
    every_course_keeps_wf(state, events);
    crate::server_laws::full_means_every_slot_is_taken(state.after_all(events));
}

/// A connection keeps its slot until it ends or falls silent: nothing that another phone
/// does takes the slot away.
pub proof fn only_its_end_or_silence_frees_a_slot(
    state: ServerState,
    event: ServerEvent,
    id: usize,
    generation: u64,
)
    requires
        state.wf(),
        state.owns(id, generation),
    ensures
        state.after(event).owns(id, generation) == (match event {
            ServerEvent::Leave { player_id, generation: ended } => !(player_id == id && ended
                == generation),
            ServerEvent::Watchdog { now } => !state.players[id].silent(now),
            _ => true,
        }),
{
    if let ServerEvent::Join { created, now } = event {
        crate::server_laws::next_slot_is_the_lowest_free_one(state);
    }
}

/// An event counts the generation of a slot up by one, or leaves it.
proof fn event_counts_generation(state: ServerState, event: ServerEvent, id: usize)
    requires
        state.wf(),
        is_slot(id),
    ensures
        ({
            let before = state.players[id].connection_generation;
            let after = state.after(event).players[id].connection_generation;
            after == before || after == next_generation(before)
        }),
{
    assert(state.players.contains_key(id));
}

/// How many of a course of events changed the generation of a slot.
pub open spec fn changes_among(state: ServerState, events: Seq<ServerEvent>, id: usize) -> nat
    decreases events.len(),
{
    if events.len() == 0 {
        0
    } else {
        let before = state.after_all(events.drop_last()).players[id].connection_generation;
        let after = state.after_all(events).players[id].connection_generation;
        changes_among(state, events.drop_last(), id) + if after != before {
            1nat
        } else {
            0nat
        }
    }
}

/// A course of events counts the generation of a slot up once for each change.
proof fn course_counts_generation(state: ServerState, events: Seq<ServerEvent>, id: usize)
    requires
        state.wf(),
        is_slot(id),
    ensures
        changes_among(state, events, id) <= events.len(),
        state.after_all(events).players[id].connection_generation == generation_after(
            state.players[id].connection_generation,
            changes_among(state, events, id),
        ),
    decreases events.len(),
{
    if events.len() > 0 {
        let before = state.after_all(events.drop_last());
        course_counts_generation(state, events.drop_last(), id);
        every_course_keeps_wf(state, events.drop_last());
        event_counts_generation(before, events.last(), id);
    }
}

/// Counting on by one more.
proof fn generation_after_next(generation: u64, changes: nat)
    ensures
        generation_after(next_generation(generation), changes) == generation_after(
            generation,
            changes + 1,
        ),
    decreases changes,
{
    if changes == 0 {
        reveal_with_fuel(generation_after, 2);
    } else {
        generation_after_next(generation, (changes - 1) as nat);
    }
}

/// A connection that lost its slot never gets it back, whatever happens, before all the
/// generations were used up.
pub proof fn lost_slot_stays_lost(
    state: ServerState,
    id: usize,
    generation: u64,
    events: Seq<ServerEvent>,
)
    requires
        state.wf(),
        is_slot(id),
        1 <= generation,
        state.players[id].connection_generation == next_generation(generation),
        events.len() + 1 < u64::MAX,
    ensures
        !state.after_all(events).owns(id, generation),
{
    let changes = changes_among(state, events, id);
    course_counts_generation(state, events, id);
    generation_after_next(generation, changes);
    generation_does_not_return(generation, changes + 1);
}

/// The event that takes a slot from a connection counts the slot's generation up.
proof fn lost_slot_has_a_new_generation(
    state: ServerState,
    event: ServerEvent,
    id: usize,
    generation: u64,
)
    requires
        state.wf(),
        state.owns(id, generation),
        !state.after(event).owns(id, generation),
    ensures
        state.after(event).players[id].connection_generation == next_generation(generation),
{
    only_its_end_or_silence_frees_a_slot(state, event, id, generation);
    assert(state.players.contains_key(id));
}

/// Once an event took a slot from a connection, that connection neither owns the slot nor
/// gets rumble for it, whatever happens afterwards: rumble goes to a later phone or, while
/// the slot is free, nowhere.
pub proof fn rumble_ends_with_the_connection(
    state: ServerState,
    ending: ServerEvent,
    id: usize,
    generation: u64,
    events: Seq<ServerEvent>,
)
    requires
        state.wf(),
        state.owns(id, generation),
        !state.after(ending).owns(id, generation),
        events.len() + 1 < u64::MAX,
    ensures
        !state.after(ending).after_all(events).owns(id, generation),
        state.after(ending).after_all(events).rumble_target(id) != Some(generation),
        (state.after(ending).after_all(events).rumble_target(id) is None) == state.after(
            ending,
        ).after_all(events).is_free(id),
{
    let lost = state.after(ending);
    assert(state.players.contains_key(id));
    event_keeps_wf(state, ending);
    lost_slot_has_a_new_generation(state, ending, id, generation);
    lost_slot_stays_lost(lost, id, generation, events);
    every_course_keeps_wf(lost, events);
    let last = lost.after_all(events);
    assert(last.players.contains_key(id));
    crate::server_laws::rumble_goes_to_the_connected_phone(last, id, generation);
}

/// Whether a connection holds its slot from the first to the last of a course of events.
pub open spec fn held_throughout(
    state: ServerState,
    events: Seq<ServerEvent>,
    id: usize,
    generation: u64,
) -> bool
    decreases events.len(),
{
    &&& state.after_all(events).owns(id, generation)
    &&& events.len() > 0 ==> held_throughout(state, events.drop_last(), id, generation)
}

/// Whether an event is a binary message of a connection.
pub open spec fn is_packet_of(event: ServerEvent, id: usize, generation: u64) -> bool {
    event matches ServerEvent::Packet { player_id, generation: sender, .. } && player_id == id
        && sender == generation
}

/// How many binary messages of a connection there are among some events.
pub open spec fn packets_of(events: Seq<ServerEvent>, id: usize, generation: u64) -> nat
    decreases events.len(),
{
    if events.len() == 0 {
        0
    } else {
        packets_of(events.drop_last(), id, generation) + if is_packet_of(
            events.last(),
            id,
            generation,
        ) {
            1nat
        } else {
            0nat
        }
    }
}

/// Whether an event is an invalid binary message of another connection that had the slot.
pub open spec fn is_stray(event: ServerEvent, id: usize, generation: u64) -> bool {
    event matches ServerEvent::Packet { player_id, generation: sender, bin, .. } && player_id == id
        && sender != generation && reading(bin, id) is Err
}

/// How many binary messages a slot has counted: as taken, as dropped or as invalid.
pub open spec fn packets_counted(player: PlayerController) -> int {
    player.packet_count + player.dropped_packets + player.invalid_packets
}

/// While a connection holds its slot, every binary message that it sends is counted exactly
/// once: as taken, as dropped or as invalid. Left out are counters that reach their limit,
/// and invalid messages of an earlier connection, which count for the slot too.
pub proof fn packets_of_a_connection_are_accounted_for(
    state: ServerState,
    events: Seq<ServerEvent>,
    id: usize,
    generation: u64,
)
    requires
        state.wf(),
        held_throughout(state, events, id, generation),
        forall|i: int| 0 <= i < events.len() ==> !is_stray(#[trigger] events[i], id, generation),
        packets_counted(state.players[id]) + events.len() <= u64::MAX,
    ensures
        packets_counted(state.after_all(events).players[id]) == packets_counted(state.players[id])
            + packets_of(events, id, generation),
        packets_of(events, id, generation) <= events.len(),
    decreases events.len(),
{
    if events.len() > 0 {
        let earlier = events.drop_last();
        let before = state.after_all(earlier);
        reveal_with_fuel(held_throughout, 2);
        assert forall|i: int| 0 <= i < earlier.len() implies !is_stray(
            #[trigger] earlier[i],
            id,
            generation,
        ) by {
            assert(earlier[i] == events[i]);
        }
        packets_of_a_connection_are_accounted_for(state, earlier, id, generation);
        every_course_keeps_wf(state, earlier);
        assert(!is_stray(events[events.len() - 1], id, generation));
        event_counts_packets(before, events.last(), id, generation);
    }
}

/// What an event adds to the packets that a slot has counted.
proof fn event_counts_packets(
    state: ServerState,
    event: ServerEvent,
    id: usize,
    generation: u64,
)
    requires
        state.wf(),
        state.owns(id, generation),
        state.after(event).owns(id, generation),
        !is_stray(event, id, generation),
        packets_counted(state.players[id]) < u64::MAX,
    ensures
        packets_counted(state.after(event).players[id]) == packets_counted(state.players[id])
            + if is_packet_of(event, id, generation) {
            1int
        } else {
            0int
        },
{
    if let ServerEvent::Join { created, now } = event {
        crate::server_laws::next_slot_is_the_lowest_free_one(state);
    }
}

/// A slot whose generation never changed was held throughout.
proof fn unchanged_generation_means_held(
    state: ServerState,
    events: Seq<ServerEvent>,
    id: usize,
    generation: u64,
)
    requires
        state.wf(),
        state.owns(id, generation),
        changes_among(state, events, id) == 0,
    ensures
        held_throughout(state, events, id, generation),
    decreases events.len(),
{
    if events.len() > 0 {
        let earlier = events.drop_last();
        let before = state.after_all(earlier);
        unchanged_generation_means_held(state, earlier, id, generation);
        every_course_keeps_wf(state, earlier);
        assert(before.owns(id, generation)) by {
            reveal_with_fuel(held_throughout, 2);
        }
        if !before.after(events.last()).owns(id, generation) {
            lost_slot_has_a_new_generation(before, events.last(), id, generation);
        }
    }
}

/// A connection that holds its slot at the beginning and at the end of a course of events
/// held it throughout: nobody else had the slot in between.
pub proof fn held_at_both_ends_means_held(
    state: ServerState,
    events: Seq<ServerEvent>,
    id: usize,
    generation: u64,
)
    requires
        state.wf(),
        state.owns(id, generation),
        state.after_all(events).owns(id, generation),
        events.len() < u64::MAX,
    ensures
        held_throughout(state, events, id, generation),
{
    assert(state.players.contains_key(id));
    let changes = changes_among(state, events, id);
    course_counts_generation(state, events, id);
    if changes > 0 {
        generation_does_not_return(generation, changes);
    }
    unchanged_generation_means_held(state, events, id, generation);
}

/// Whether an event is something that a connection sends and that counts as a sign of life:
/// a binary message, a press, a release, a stick movement or a ping.
pub open spec fn is_sign_of_life(event: ServerEvent, id: usize, generation: u64) -> bool {
    ||| is_packet_of(event, id, generation)
    ||| event matches ServerEvent::Message { player_id, generation: sender, message, .. }
        && player_id == id && sender == generation && !(message is MouseMove) && !(
    message is KeyText)
}

/// Without a sign of life the clock of a slot stands still.
proof fn clock_stands_still(
    state: ServerState,
    events: Seq<ServerEvent>,
    id: usize,
    generation: u64,
)
    requires
        state.wf(),
        held_throughout(state, events, id, generation),
        forall|i: int|
            0 <= i < events.len() ==> !is_sign_of_life(#[trigger] events[i], id, generation),
    ensures
        state.after_all(events).players[id].last_packet_at == state.players[id].last_packet_at,
    decreases events.len(),
{
    if events.len() > 0 {
        let earlier = events.drop_last();
        let before = state.after_all(earlier);
        reveal_with_fuel(held_throughout, 2);
        assert forall|i: int| 0 <= i < earlier.len() implies !is_sign_of_life(
            #[trigger] earlier[i],
            id,
            generation,
        ) by {
            assert(earlier[i] == events[i]);
        }
        clock_stands_still(state, earlier, id, generation);
        every_course_keeps_wf(state, earlier);
        assert(!is_sign_of_life(events[events.len() - 1], id, generation));
        event_sets_the_clock(before, events.last(), id, generation);
    }
}

/// Only a sign of life of the connection that holds a slot sets the slot's clock.
proof fn event_sets_the_clock(
    state: ServerState,
    event: ServerEvent,
    id: usize,
    generation: u64,
)
    requires
        state.wf(),
        state.owns(id, generation),
        state.after(event).owns(id, generation),
        !is_sign_of_life(event, id, generation),
    ensures
        state.after(event).players[id].last_packet_at == state.players[id].last_packet_at,
{
    if let ServerEvent::Join { created, now } = event {
        crate::server_laws::next_slot_is_the_lowest_free_one(state);
    }
}

/// A connection that gives no sign of life for more than eight seconds has lost its slot after
/// the watchdog's next look, whatever it sent before and whatever else happens meanwhile.
pub proof fn silent_connection_loses_its_slot(
    state: ServerState,
    events: Seq<ServerEvent>,
    id: usize,
    generation: u64,
    now: u64,
)
    requires
        state.wf(),
        state.owns(id, generation),
        forall|i: int|
            0 <= i < events.len() ==> !is_sign_of_life(#[trigger] events[i], id, generation),
        now > state.players[id].last_packet_at + 8_000_000_000,
        events.len() < u64::MAX,
    ensures
        !state.after_all(events).after(ServerEvent::Watchdog { now }).owns(id, generation),
{
    let before = state.after_all(events);
    assert(state.players.contains_key(id));
    every_course_keeps_wf(state, events);
    crate::event_laws::watchdog_frees_the_overdue(before, now, id);
    if before.owns(id, generation) {
        held_at_both_ends_means_held(state, events, id, generation);
        clock_stands_still(state, events, id, generation);
    }
}

/// Whether an event is a binary message of a connection that the server takes.
pub open spec fn is_taken(state: ServerState, event: ServerEvent, id: usize, generation: u64) -> bool {
    event matches ServerEvent::Packet { player_id, generation: sender, bin, left, right, .. }
        && player_id == id && sender == generation && state.packet_outcome(
        player_id,
        sender,
        bin,
        left,
        right,
    ) is Taken
}

/// Whether an event is a binary message of a connection that the server drops.
pub open spec fn is_dropped(state: ServerState, event: ServerEvent, id: usize, generation: u64) -> bool {
    event matches ServerEvent::Packet { player_id, generation: sender, bin, left, right, .. }
        && player_id == id && sender == generation && state.packet_outcome(
        player_id,
        sender,
        bin,
        left,
        right,
    ) is Dropped
}

/// How many binary messages of a connection are taken in a course of events.
pub open spec fn taken_in(
    state: ServerState,
    events: Seq<ServerEvent>,
    id: usize,
    generation: u64,
) -> nat
    decreases events.len(),
{
    if events.len() == 0 {
        0
    } else {
        taken_in(state, events.drop_last(), id, generation) + if is_taken(
            state.after_all(events.drop_last()),
            events.last(),
            id,
            generation,
        ) {
            1nat
        } else {
            0nat
        }
    }
}

/// How many binary messages of a connection are dropped in a course of events.
pub open spec fn dropped_in(
    state: ServerState,
    events: Seq<ServerEvent>,
    id: usize,
    generation: u64,
) -> nat
    decreases events.len(),
{
    if events.len() == 0 {
        0
    } else {
        dropped_in(state, events.drop_last(), id, generation) + if is_dropped(
            state.after_all(events.drop_last()),
            events.last(),
            id,
            generation,
        ) {
            1nat
        } else {
            0nat
        }
    }
}

/// What an event adds to the counters of a slot.
proof fn event_moves_the_counters(
    state: ServerState,
    event: ServerEvent,
    id: usize,
    generation: u64,
)
    requires
        state.wf(),
        state.owns(id, generation),
        state.after(event).owns(id, generation),
        state.players[id].packet_count < u64::MAX,
        state.players[id].dropped_packets < u64::MAX,
    ensures
        state.after(event).players[id].packet_count == state.players[id].packet_count + if is_taken(
            state,
            event,
            id,
            generation,
        ) {
            1int
        } else {
            0int
        },
        state.after(event).players[id].dropped_packets == state.players[id].dropped_packets
            + if is_dropped(state, event, id, generation) {
            1int
        } else {
            0int
        },
{
    if let ServerEvent::Join { created, now } = event {
        crate::server_laws::next_slot_is_the_lowest_free_one(state);
    }
}

/// While a connection holds its slot, the counters there follow what becomes of its packets.
proof fn counters_follow_the_packets(
    state: ServerState,
    events: Seq<ServerEvent>,
    id: usize,
    generation: u64,
)
    requires
        state.wf(),
        held_throughout(state, events, id, generation),
        state.players[id].packet_count + events.len() <= u64::MAX,
        state.players[id].dropped_packets + events.len() <= u64::MAX,
    ensures
        state.after_all(events).players[id].packet_count == state.players[id].packet_count
            + taken_in(state, events, id, generation),
        state.after_all(events).players[id].dropped_packets == state.players[id].dropped_packets
            + dropped_in(state, events, id, generation),
        taken_in(state, events, id, generation) <= events.len(),
        dropped_in(state, events, id, generation) <= events.len(),
    decreases events.len(),
{
    if events.len() > 0 {
        let earlier = events.drop_last();
        reveal_with_fuel(held_throughout, 2);
        counters_follow_the_packets(state, earlier, id, generation);
        every_course_keeps_wf(state, earlier);
        event_moves_the_counters(state.after_all(earlier), events.last(), id, generation);
    }
}

/// The table shows of a connected player how many of their packets were taken, and how many
/// dropped, since they joined.
pub proof fn table_counts_packets_since_the_join(
    state: ServerState,
    id: usize,
    now: u64,
    events: Seq<ServerEvent>,
    later: u64,
    row: PlayerRow,
)
    requires
        state.wf(),
        state.next_slot() == Some(id),
        events.len() < u64::MAX,
        ({
            let start = state.joined(id, now);
            let end = start.after_all(events);
            &&& end.owns(id, start.players[id].connection_generation)
            &&& row.cells() == table_row(id, Some(end.players[id]), later)
        }),
    ensures
        ({
            let start = state.joined(id, now);
            let generation = start.players[id].connection_generation;
            &&& is_decimal(row.packets@, taken_in(start, events, id, generation) as int)
            &&& is_decimal(row.dropped@, dropped_in(start, events, id, generation) as int)
        }),
{
    let start = state.joined(id, now);
    let generation = start.players[id].connection_generation;
    crate::server_laws::next_slot_is_the_lowest_free_one(state);
    crate::server::join_keeps_wf(state, id, now);
    held_at_both_ends_means_held(start, events, id, generation);
    counters_follow_the_packets(start, events, id, generation);
    row_shows_its_slot(row, id, start.after_all(events).players[id], later);
}

} // verus!
