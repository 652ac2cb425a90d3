//! What holds of the server across events.

use vstd::prelude::*;

use crate::messages::ClientMessage;
use crate::metrics::Metrics;
use crate::player::{PlayerController, CONNECTION_TIMEOUT};
use crate::server::{is_slot, taken_among, ClientAction, PacketOutcome, ServerState, MAX_PLAYERS};

verus! {

/// The search for a free slot from a number on finds the lowest.
proof fn free_from_is_lowest(state: ServerState, from: nat)
    requires
        from >= 1,
    ensures
        match state.free_from(from) {
            Some(id) => from <= id <= MAX_PLAYERS && state.is_free(id) && forall|other: usize|
                from <= other && state.is_free(other) ==> id <= other,
            None => forall|other: usize| from <= other <= MAX_PLAYERS ==> !state.is_free(other),
        },
    decreases MAX_PLAYERS + 1 - from,
{
    if from <= MAX_PLAYERS && !state.is_free(from as usize) {
        free_from_is_lowest(state, from + 1);
    }
}

/// A phone gets the lowest free slot, and is refused only if there is none.
pub proof fn next_slot_is_the_lowest_free_one(state: ServerState)
    requires
        state.wf(),
    ensures
        match state.next_slot() {
            Some(id) => is_slot(id) && state.is_free(id) && forall|other: usize|
                state.is_free(other) ==> id <= other,
            None => forall|other: usize| !state.is_free(other),
        },
{
    free_from_is_lowest(state, 1);
    assert forall|other: usize| state.is_free(other) implies is_slot(other) by {
        assert(state.players.contains_key(other));
    }
}

/// The lowest free slot is unique.
proof fn lowest_free_is_next(state: ServerState, id: usize)
    requires
        state.wf(),
        state.is_free(id),
        forall|other: usize| state.is_free(other) ==> id <= other,
    ensures
        state.next_slot() == Some(id),
{
    next_slot_is_the_lowest_free_one(state);
}

/// Every connected device has a slot of its own: a join takes a slot that nobody held and
/// leaves the others as they are.
pub proof fn join_takes_a_slot_of_its_own(state: ServerState, id: usize, now: u64)
    requires
        state.wf(),
        state.next_slot() == Some(id),
    ensures
        state.is_free(id),
        state.joined(id, now).players[id].connected,
        forall|other: usize|
            other != id ==> (#[trigger] state.joined(id, now).players.contains_key(other)
                == state.players.contains_key(other)) && state.joined(id, now).players[other]
                == state.players[other],
        state.joined(id, now).next_slot() != Some(id),
{
    next_slot_is_the_lowest_free_one(state);
    crate::server::join_keeps_wf(state, id, now);
    next_slot_is_the_lowest_free_one(state.joined(id, now));
}

/// When a player leaves, the slot becomes available again: the next phone gets it, or a
/// lower one that is free too.
pub proof fn slot_becomes_available_again(state: ServerState, id: usize, generation: u64)
    requires
        state.wf(),
        state.owns(id, generation),
    ensures
        state.left(id, generation).is_free(id),
        state.left(id, generation).next_slot() matches Some(next) && next <= id,
{
    crate::server::leave_keeps_wf(state, id, generation);
    next_slot_is_the_lowest_free_one(state.left(id, generation));
}

/// A phone that joins and leaves does not use up a player number: the next phone gets the
/// same slot.
pub proof fn player_numbers_are_reused(state: ServerState, id: usize, now: u64)
    requires
        state.wf(),
        state.next_slot() == Some(id),
    ensures
        state.joined(id, now).left(
            id,
            state.joined(id, now).players[id].connection_generation,
        ).next_slot() == Some(id),
{
    let joined = state.joined(id, now);
    let after = joined.left(id, joined.players[id].connection_generation);
    next_slot_is_the_lowest_free_one(state);
    crate::server::join_keeps_wf(state, id, now);
    crate::server::leave_keeps_wf(joined, id, joined.players[id].connection_generation);
    assert forall|other: usize| after.is_free(other) implies id <= other by {
        if other != id {
            assert(state.is_free(other));
        }
    }
    lowest_free_is_next(after, id);
}

/// The count of taken slots among the first ones.
proof fn taken_among_bounds(state: ServerState, slots: nat)
    requires
        state.wf(),
        slots <= MAX_PLAYERS,
    ensures
        taken_among(state.players, slots) <= slots,
        (taken_among(state.players, slots) == slots) == (forall|id: usize|
            1 <= id <= slots ==> !state.is_free(id)),
    decreases slots,
{
    if slots > 0 {
        let before = (slots - 1) as nat;
        taken_among_bounds(state, before);
        let last = slots as usize;
        assert(state.players.contains_key(last));
        if forall|id: usize| 1 <= id <= before ==> !state.is_free(id) {
            if !state.is_free(last) {
                assert forall|id: usize| 1 <= id <= slots implies !state.is_free(id) by {
                    if id != last {
                        assert(1 <= id <= before);
                    }
                }
            }
        }
        if forall|id: usize| 1 <= id <= slots ==> !state.is_free(id) {
            assert forall|id: usize| 1 <= id <= before implies !state.is_free(id) by {
                assert(1 <= id <= slots);
            }
            assert(1 <= last <= slots);
            assert(!state.is_free(last));
        }
    }
}

/// The server never holds more players than it has slots, and turns a phone away exactly
/// when it holds that many.
pub proof fn full_means_every_slot_is_taken(state: ServerState)
    requires
        state.wf(),
    ensures
        state.active() <= MAX_PLAYERS,
        (state.next_slot() is None) == (state.active() == MAX_PLAYERS),
{
    taken_among_bounds(state, MAX_PLAYERS as nat);
    next_slot_is_the_lowest_free_one(state);
}

/// The slots among the first ones that are taken.
pub open spec fn taken_slots(state: ServerState, slots: nat) -> Set<usize> {
    Set::new(|id: usize| 1 <= id <= slots && state.players.contains_key(id)
        && state.players[id].connected)
}

/// The number of active players is the number of slots that are taken.
proof fn taken_among_counts_slots(state: ServerState, slots: nat)
    requires
        slots <= MAX_PLAYERS,
    ensures
        taken_slots(state, slots).finite(),
        taken_among(state.players, slots) == taken_slots(state, slots).len(),
    decreases slots,
{
    if slots == 0 {
        assert(taken_slots(state, slots) =~= Set::empty());
    } else {
        let before = (slots - 1) as nat;
        let last = slots as usize;
        taken_among_counts_slots(state, before);
        if state.players.contains_key(last) && state.players[last].connected {
            assert(taken_slots(state, slots) =~= taken_slots(state, before).insert(last));
        } else {
            assert(taken_slots(state, slots) =~= taken_slots(state, before));
        }
    }
}

/// The number of active players is the number of slots that are taken.
pub proof fn active_players_are_the_taken_slots(state: ServerState)
    ensures
        state.active() == taken_slots(state, MAX_PLAYERS as nat).len(),
{
    taken_among_counts_slots(state, MAX_PLAYERS as nat);
}

/// The count of taken slots depends on who is connected, and counts a change of one slot.
proof fn taken_among_after_change(
    before: Map<usize, PlayerController>,
    after: Map<usize, PlayerController>,
    id: usize,
    slots: nat,
)
    requires
        slots <= MAX_PLAYERS,
        before.contains_key(id),
        after.contains_key(id),
        forall|other: usize|
            other != id ==> (#[trigger] after.contains_key(other) == before.contains_key(other))
                && after[other] == before[other],
    ensures
        taken_among(after, slots) - taken_among(before, slots) == (if 1 <= id <= slots {
            (if after[id].connected {
                1int
            } else {
                0int
            }) - (if before[id].connected {
                1int
            } else {
                0int
            })
        } else {
            0int
        }),
    decreases slots,
{
    if slots > 0 {
        taken_among_after_change(before, after, id, (slots - 1) as nat);
        let last = slots as usize;
        if last != id {
            assert(after.contains_key(last) == before.contains_key(last));
        }
    }
}

/// A join makes one player more.
pub proof fn join_adds_one_player(state: ServerState, id: usize, now: u64)
    requires
        state.wf(),
        state.is_free(id),
    ensures
        state.joined(id, now).active() == state.active() + 1,
{
    assert(state.players.contains_key(id));
    taken_among_after_change(
        state.players,
        state.joined(id, now).players,
        id,
        MAX_PLAYERS as nat,
    );
}

/// The end of the connection that holds a slot makes one player less; the end of any other
/// leaves the number as it is.
pub proof fn leave_removes_at_most_its_own_player(state: ServerState, id: usize, generation: u64)
    requires
        state.wf(),
    ensures
        state.left(id, generation).active() == (if state.owns(id, generation) {
            state.active() - 1
        } else {
            state.active() as int
        }),
{
    if state.players.contains_key(id) {
        taken_among_after_change(
            state.players,
            state.left(id, generation).players,
            id,
            MAX_PLAYERS as nat,
        );
    }
}

/// Whatever a connection sends, and its end, reaches its own slot at most: the other slots
/// stay as they are, and so do the connections that messages for them are sent to.
pub proof fn other_slots_are_out_of_reach(
    state: ServerState,
    player_id: usize,
    generation: u64,
    bin: Seq<u8>,
    message: ClientMessage,
    now: u64,
    left: (i16, i16),
    right: (i16, i16),
    other: usize,
)
    requires
        other != player_id,
        state.players.contains_key(other),
    ensures
        state.after_packet(player_id, generation, bin, now, left, right).players.contains_key(
            other,
        ),
        state.after_packet(player_id, generation, bin, now, left, right).players[other]
            == state.players[other],
        state.after_message(player_id, generation, message, now).players.contains_key(other),
        state.after_message(player_id, generation, message, now).players[other]
            == state.players[other],
        state.after_echo(player_id, generation, now).players.contains_key(other),
        state.after_echo(player_id, generation, now).players[other] == state.players[other],
        state.left(player_id, generation).players.contains_key(other),
        state.left(player_id, generation).players[other] == state.players[other],
        state.after_packet(player_id, generation, bin, now, left, right).peers == state.peers,
        state.after_message(player_id, generation, message, now).peers == state.peers,
        state.after_echo(player_id, generation, now).peers == state.peers,
        state.left(player_id, generation).peers.contains_key(other) == state.peers.contains_key(
            other,
        ),
        state.peers.contains_key(other) ==> state.left(player_id, generation).peers[other]
            == state.peers[other],
{
}

/// A player number that a phone made up never moves a gamepad: such a message changes
/// counters and nothing else.
pub proof fn made_up_player_number_moves_nothing(
    state: ServerState,
    player_id: usize,
    generation: u64,
    bin: Seq<u8>,
    now: u64,
    left: (i16, i16),
    right: (i16, i16),
    id: usize,
)
    requires
        bin.len() > 0,
        bin[0] != player_id,
        state.players.contains_key(id),
    ensures
        state.packet_outcome(player_id, generation, bin, left, right) == PacketOutcome::Invalid,
        state.after_packet(player_id, generation, bin, now, left, right).players[id].gamepad
            == state.players[id].gamepad,
        state.after_packet(player_id, generation, bin, now, left, right).players[id]
            == state.players[id] || state.after_packet(
            player_id,
            generation,
            bin,
            now,
            left,
            right,
        ).players[id] == state.players[id].faulted(),
{
}

/// A connection whose slot was taken from it has no hold on any slot: its packets can only
/// raise counters, its messages change nothing and reach no virtual controller, and its end
/// leaves every slot as it is.
pub proof fn stale_connection_is_powerless(
    state: ServerState,
    player_id: usize,
    generation: u64,
    bin: Seq<u8>,
    message: ClientMessage,
    now: u64,
    left: (i16, i16),
    right: (i16, i16),
    id: usize,
)
    requires
        state.wf(),
        state.players.contains_key(player_id),
        state.players[player_id].connection_generation != generation,
        state.players.contains_key(id),
    ensures
        state.after_packet(player_id, generation, bin, now, left, right).players[id]
            == state.players[id] || state.after_packet(
            player_id,
            generation,
            bin,
            now,
            left,
            right,
        ).players[id] == state.players[id].faulted(),
        state.after_message(player_id, generation, message, now) == state,
        state.after_echo(player_id, generation, now) == state,
        forall|action: ClientAction| #[trigger]
            state.calls_for(player_id, generation, message, now, action) ==> !(action is Report),
        state.left(player_id, generation).players == state.players,
        state.players[player_id].connected ==> state.left(player_id, generation).peers
            == state.peers,
{
}

/// A connection that ended, and one that timed out, owns its slot no more, and neither does
/// it after the slot was given to the next phone.
pub proof fn old_connection_does_not_own_the_next(
    state: ServerState,
    id: usize,
    generation: u64,
    now: u64,
    later: u64,
)
    requires
        state.wf(),
        state.owns(id, generation),
    ensures
        !state.left(id, generation).owns(id, generation),
        !state.left(id, generation).joined(id, later).owns(id, generation),
        state.players[id].silent(now) ==> !state.after_watchdog(now).owns(id, generation),
        state.players[id].silent(now) ==> !state.after_watchdog(now).joined(id, later).owns(
            id,
            generation,
        ),
{
}

/// After the watchdog ran, nobody is overdue; whoever was is gone, and the others were left
/// alone.
pub proof fn watchdog_vacates_exactly_the_silent(state: ServerState, now: u64, id: usize)
    requires
        state.wf(),
        is_slot(id),
    ensures
        !state.after_watchdog(now).players[id].silent(now),
        state.players[id].silent(now) ==> state.after_watchdog(now).is_free(id)
            && state.after_watchdog(now).players[id].gamepad == crate::gamepad::neutral(),
        !state.players[id].silent(now) ==> state.after_watchdog(now).players[id]
            == state.players[id],
{
    assert(state.players.contains_key(id));
}

/// A sign of life keeps the watchdog away for the length of the timeout.
pub proof fn sign_of_life_defers_the_watchdog(
    state: ServerState,
    player_id: usize,
    generation: u64,
    message: ClientMessage,
    now: u64,
    later: u64,
)
    requires
        state.wf(),
        state.owns(player_id, generation),
        !(message is MouseMove),
        !(message is KeyText),
        later <= now + CONNECTION_TIMEOUT,
    ensures
        state.after_message(player_id, generation, message, now).after_watchdog(later).owns(
            player_id,
            generation,
        ),
{
}

/// So does a packet that is taken.
pub proof fn packet_defers_the_watchdog(
    state: ServerState,
    player_id: usize,
    generation: u64,
    bin: Seq<u8>,
    now: u64,
    left: (i16, i16),
    right: (i16, i16),
    later: u64,
)
    requires
        state.wf(),
        state.packet_outcome(player_id, generation, bin, left, right) is Taken,
        later <= now + CONNECTION_TIMEOUT,
    ensures
        state.after_packet(player_id, generation, bin, now, left, right).after_watchdog(
            later,
        ).owns(player_id, generation),
{
}

/// Rumble for a slot goes to the phone that holds it, and to nobody else; while the slot is
/// free it goes nowhere.
pub proof fn rumble_goes_to_the_connected_phone(state: ServerState, id: usize, generation: u64)
    requires
        state.wf(),
        state.players.contains_key(id),
    ensures
        (state.rumble_target(id) == Some(generation)) == state.owns(id, generation),
        (state.rumble_target(id) is None) == state.is_free(id),
{
}

/// The gamepad of a free slot is neutral.
pub proof fn free_slot_is_neutral(state: ServerState, id: usize)
    requires
        state.wf(),
        state.is_free(id),
    ensures
        state.players[id].gamepad == crate::gamepad::neutral(),
{
}

/// Every binary message is counted once as received, and besides that at most once: as
/// invalid, as dropped, or as taken.
pub proof fn every_packet_is_accounted_for(
    state: ServerState,
    player_id: usize,
    generation: u64,
    bin: Seq<u8>,
    now: u64,
    left: (i16, i16),
    right: (i16, i16),
)
    ensures
        ({
            let after = state.after_packet(player_id, generation, bin, now, left, right);
            let outcome = state.packet_outcome(player_id, generation, bin, left, right);
            after.metrics == (Metrics {
                packets_received: state.metrics.packets_received.wrapping_add(1),
                invalid_packets: if outcome is Invalid {
                    state.metrics.invalid_packets.wrapping_add(1)
                } else {
                    state.metrics.invalid_packets
                },
                packets_dropped: if outcome is Dropped || outcome is Stale {
                    state.metrics.packets_dropped.wrapping_add(1)
                } else {
                    state.metrics.packets_dropped
                },
                ..state.metrics
            })
        }),
{
}

/// A packet that is sent twice is taken once.
pub proof fn repeated_packet_is_dropped(
    state: ServerState,
    player_id: usize,
    generation: u64,
    bin: Seq<u8>,
    now: u64,
    left: (i16, i16),
    right: (i16, i16),
)
    requires
        state.packet_outcome(player_id, generation, bin, left, right) is Taken,
    ensures
        state.after_packet(player_id, generation, bin, now, left, right).packet_outcome(
            player_id,
            generation,
            bin,
            left,
            right,
        ) is Dropped,
{
}

} // verus!
