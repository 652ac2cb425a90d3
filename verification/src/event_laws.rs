//! What each event does to the server, in terms of what was sent.

use vstd::prelude::*;

use crate::messages::ClientMessage;
use crate::metrics::Metrics;
use crate::packet::packet_of;
use crate::player::{PlayerController, XboxTarget};
use crate::server::{
    joined_entry, left_entry, silent_among, ClientAction, PacketOutcome, Server, ServerState,
};

verus! {

/// A server that nobody has joined has the slots one to four, all unused, and has sent,
/// counted and logged nothing.
pub proof fn idle_server_has_four_unused_slots(xbox: XboxTarget, now: u64, id: usize)
    ensures
        ({
            let state = Server::idle(xbox, now);
            &&& state.players.contains_key(id) == (1 <= id <= 4)
            &&& 1 <= id <= 4 ==> state.players[id] == PlayerController::vacant(id, xbox, now)
            &&& state.peers == Map::<usize, u64>::empty()
            &&& state.events.len() == 0
            &&& state.metrics == crate::metrics::no_counts()
        }),
{
}

/// A phone gets the lowest slot that nobody holds, and none if all four are held.
pub proof fn phone_gets_the_lowest_slot_not_held(state: ServerState)
    requires
        state.wf(),
    ensures
        match state.next_slot() {
            Some(id) => {
                &&& 1 <= id <= 4
                &&& !state.players[id].connected
                &&& forall|other: usize|
                    1 <= other < id ==> (#[trigger] state.players[other]).connected
            },
            None => forall|other: usize|
                1 <= other <= 4 ==> (#[trigger] state.players[other]).connected,
        },
{
    crate::server_laws::next_slot_is_the_lowest_free_one(state);
    assert forall|other: usize| 1 <= other <= 4 && !(#[trigger] state.players[other]).connected implies state.is_free(
    other) by {
        assert(crate::server::is_slot(other));
        assert(state.players.contains_key(other));
    }
}

/// A join gives the slot to a new connection, to which messages for the slot go from now on,
/// counts one connection, and logs it. Nothing else changes.
pub proof fn join_changes_one_slot(state: ServerState, id: usize, now: u64)
    requires
        state.wf(),
        state.next_slot() == Some(id),
    ensures
        ({
            let after = state.joined(id, now);
            let player = state.players[id].attached(now);
            &&& after.players == state.players.insert(id, player)
            &&& after.peers == state.peers.insert(id, player.connection_generation)
            &&& after.metrics == (Metrics {
                connections: if state.metrics.connections == u64::MAX {
                    0
                } else {
                    (state.metrics.connections + 1) as u64
                },
                ..state.metrics
            })
            &&& after.events.len() > 0
            &&& after.events.last() == joined_entry(id, player.connection_generation)
            &&& after.events.drop_last() == state.events.skip(
                state.events.len() - (after.events.len() - 1),
            )
        }),
{
    let after = state.joined(id, now);
    assert(after.events.drop_last() =~= state.events.skip(
        state.events.len() - (after.events.len() - 1),
    ));
}

/// The end of a connection frees its slot if the slot's generation is still its own, takes it
/// off the list of those that messages are sent to if it stands there, counts one end, and
/// logs it. Nothing else changes.
pub proof fn leave_changes_its_own_slot(state: ServerState, id: usize, generation: u64)
    requires
        state.wf(),
    ensures
        ({
            let after = state.left(id, generation);
            &&& 1 <= id <= 4 && state.players[id].connection_generation == generation
                ==> after.players == state.players.insert(id, state.players[id].detached())
            &&& !(1 <= id <= 4 && state.players[id].connection_generation == generation)
                ==> after.players == state.players
            &&& state.peers.contains_pair(id, generation) ==> after.peers == state.peers.remove(id)
            &&& !state.peers.contains_pair(id, generation) ==> after.peers == state.peers
            &&& after.metrics == (Metrics {
                disconnects: if state.metrics.disconnects == u64::MAX {
                    0
                } else {
                    (state.metrics.disconnects + 1) as u64
                },
                ..state.metrics
            })
            &&& after.events.len() > 0
            &&& after.events.last() == left_entry(id)
            &&& after.events.drop_last() == state.events.skip(
                state.events.len() - (after.events.len() - 1),
            )
        }),
{
    let after = state.left(id, generation);
    assert(state.players.contains_key(id) == crate::server::is_slot(id));
    assert(after.events.drop_last() =~= state.events.skip(
        state.events.len() - (after.events.len() - 1),
    ));
}

/// The log entry that is added last is the one that was made, and the ones before it are the
/// latest of those that were there.
pub proof fn log_grows_at_the_end(state: ServerState, entry: Seq<char>)
    requires
        state.events.len() <= 32,
    ensures
        ({
            let after = state.logging(entry);
            &&& after.events.last() == entry
            &&& after.events.len() == (if state.events.len() < 32 {
                state.events.len() + 1
            } else {
                32
            })
            &&& after.events.drop_last() == state.events.skip(
                state.events.len() - (after.events.len() - 1),
            )
            &&& after.players == state.players
            &&& after.peers == state.peers
            &&& after.metrics == state.metrics
        }),
{
    let after = state.logging(entry);
    assert(after.events.drop_last() =~= state.events.skip(
        state.events.len() - (after.events.len() - 1),
    ));
}

/// Whether the bytes of a message are a packet for a slot.
pub open spec fn addresses(bin: Seq<u8>, player_id: usize) -> bool {
    12 <= bin.len() <= 64 && bin[0] == player_id
}

/// How far the number in a packet's bytes is ahead of another one, counting on from 65535
/// to 0.
pub open spec fn ahead_of(bin: Seq<u8>, last: u16) -> int {
    (bin[1] * 256 + bin[2] - last) % 0x10000
}

/// What becomes of a message follows from its bytes and its slot: it is invalid unless it is
/// a packet for the sender's slot; stale unless the sender holds the slot; dropped if its
/// number is not ahead of the last one by at most half of the number space; and taken
/// otherwise.
pub proof fn bytes_and_slot_decide(
    state: ServerState,
    player_id: usize,
    generation: u64,
    bin: Seq<u8>,
    left: (i16, i16),
    right: (i16, i16),
)
    requires
        state.wf(),
    ensures
        ({
            let outcome = state.packet_outcome(player_id, generation, bin, left, right);
            let player = state.players[player_id];
            let there = 1 <= player_id <= 4;
            let holds = player.connected && player.connection_generation == generation;
            let late = player.has_received_packet && !(1 <= ahead_of(bin, player.last_sequence)
                <= 0x8000);
            &&& (outcome is Invalid) == !addresses(bin, player_id)
            &&& (outcome is Missing) == (addresses(bin, player_id) && !there)
            &&& (outcome is Stale) == (addresses(bin, player_id) && there && !holds)
            &&& (outcome is Dropped) == (addresses(bin, player_id) && there && holds && late)
            &&& (outcome is Taken) == (addresses(bin, player_id) && there && holds && !late)
        }),
{
    assert(state.players.contains_key(player_id) == crate::server::is_slot(player_id));
}

/// The report of a packet that is taken carries the packet's own bytes: both triggers as they
/// were sent, the buttons but for the reserved bit, and the thumb positions for its sticks.
/// There is a report exactly if the packet carries a gamepad state and a virtual controller
/// is plugged in.
pub proof fn taken_packet_shows_in_the_report(
    state: ServerState,
    player_id: usize,
    generation: u64,
    bin: Seq<u8>,
    left: (i16, i16),
    right: (i16, i16),
)
    requires
        state.packet_outcome(player_id, generation, bin, left, right) is Taken,
    ensures
        state.packet_outcome(player_id, generation, bin, left, right)
            matches PacketOutcome::Taken { report } && {
            &&& (report is Some) == (bin[3] == 1 && state.players[player_id].xbox
                == XboxTarget::Plugged)
            &&& report matches Some(sent) ==> {
                &&& sent.left_trigger == bin[6]
                &&& sent.right_trigger == bin[7]
                &&& sent.buttons == ((bin[4] * 256 + bin[5]) as u16) & 0xf7ff
                &&& sent.thumb_lx == left.0
                &&& sent.thumb_ly == left.1
                &&& sent.thumb_rx == right.0
                &&& sent.thumb_ry == right.1
            }
        },
{
    if bin[3] == 1 && state.players[player_id].xbox == XboxTarget::Plugged {
        crate::slot_laws::packet_bytes_reach_the_report(
            state.players[player_id],
            bin,
            left,
            right,
        );
    }
}

/// A packet that is taken puts its input on the gamepad of its slot, becomes the last packet
/// there, is counted there once and is a sign of life.
pub proof fn taken_packet_moves_its_slot(
    state: ServerState,
    player_id: usize,
    generation: u64,
    bin: Seq<u8>,
    now: u64,
    left: (i16, i16),
    right: (i16, i16),
)
    requires
        state.wf(),
        state.packet_outcome(player_id, generation, bin, left, right) is Taken,
    ensures
        ({
            let before = state.players[player_id];
            let next = state.after_packet(player_id, generation, bin, now, left, right);
            let after = next.players[player_id];
            let shown = after.gamepad.as_report();
            &&& after.last_sequence == bin[1] * 256 + bin[2]
            &&& after.has_received_packet
            &&& after.last_packet_at == now
            &&& before.packet_count < u64::MAX ==> after.packet_count == before.packet_count + 1
            &&& bin[3] == 1 ==> {
                &&& shown.left_trigger == bin[6]
                &&& shown.right_trigger == bin[7]
                &&& shown.buttons == ((bin[4] * 256 + bin[5]) as u16) & 0xf7ff
                &&& shown.thumb_lx == left.0
                &&& shown.thumb_ly == left.1
                &&& shown.thumb_rx == right.0
                &&& shown.thumb_ry == right.1
            }
            &&& bin[3] != 1 ==> after.gamepad == before.gamepad
            &&& after == (PlayerController {
                last_sequence: after.last_sequence,
                has_received_packet: after.has_received_packet,
                last_packet_at: after.last_packet_at,
                packet_count: after.packet_count,
                gamepad: after.gamepad,
                ..before
            })
            &&& next.players == state.players.insert(player_id, after)
            &&& next.peers == state.peers
            &&& next.events == state.events
        }),
{
    let packet = packet_of(bin);
    let player = state.players[player_id];
    crate::slot_laws::packet_fields_reach_the_gamepad(
        player.counted(packet.sequence, now),
        packet,
        left,
        right,
    );
}

/// A message that is not taken moves no gamepad and is no sign of life: a dropped or an
/// invalid one is counted at its slot, and a stale one not even there.
pub proof fn refused_packet_moves_nothing(
    state: ServerState,
    player_id: usize,
    generation: u64,
    bin: Seq<u8>,
    now: u64,
    left: (i16, i16),
    right: (i16, i16),
)
    requires
        state.wf(),
    ensures
        ({
            let outcome = state.packet_outcome(player_id, generation, bin, left, right);
            let next = state.after_packet(player_id, generation, bin, now, left, right);
            let before = state.players[player_id];
            &&& outcome is Dropped ==> next.players == state.players.insert(
                player_id,
                PlayerController {
                    dropped_packets: if before.dropped_packets == u64::MAX {
                        u64::MAX
                    } else {
                        (before.dropped_packets + 1) as u64
                    },
                    ..before
                },
            )
            &&& outcome is Invalid && 1 <= player_id <= 4 ==> next.players == state.players.insert(
                player_id,
                PlayerController {
                    invalid_packets: if before.invalid_packets == u64::MAX {
                        0
                    } else {
                        (before.invalid_packets + 1) as u64
                    },
                    ..before
                },
            )
            &&& outcome is Invalid && !(1 <= player_id <= 4) ==> next.players == state.players
            &&& outcome is Stale || outcome is Missing ==> next.players == state.players
            &&& next.peers == state.peers
            &&& next.events == state.events
        }),
{
    assert(state.players.contains_key(player_id) == crate::server::is_slot(player_id));
}

/// Every binary message is counted as received; an invalid one also as invalid, and a late, a
/// repeated or a stale one also as dropped. No other counter moves.
pub proof fn server_counts_every_packet(
    state: ServerState,
    player_id: usize,
    generation: u64,
    bin: Seq<u8>,
    now: u64,
    left: (i16, i16),
    right: (i16, i16),
)
    requires
        state.metrics.packets_received < u64::MAX,
        state.metrics.invalid_packets < u64::MAX,
        state.metrics.packets_dropped < u64::MAX,
    ensures
        ({
            let outcome = state.packet_outcome(player_id, generation, bin, left, right);
            let after = state.after_packet(player_id, generation, bin, now, left, right).metrics;
            let before = state.metrics;
            &&& after.packets_received == before.packets_received + 1
            &&& after.invalid_packets - before.invalid_packets == (if outcome is Invalid {
                1int
            } else {
                0int
            })
            &&& after.packets_dropped - before.packets_dropped == (if outcome is Dropped
                || outcome is Stale {
                1int
            } else {
                0int
            })
            &&& after == (Metrics {
                packets_received: after.packets_received,
                invalid_packets: after.invalid_packets,
                packets_dropped: after.packets_dropped,
                ..before
            })
        }),
{
}

/// A text message that is too long is counted as invalid and changes nothing else.
pub proof fn overlong_text_is_counted(state: ServerState)
    ensures
        state.counting_invalid() == (ServerState {
            metrics: Metrics {
                invalid_packets: if state.metrics.invalid_packets == u64::MAX {
                    0
                } else {
                    (state.metrics.invalid_packets + 1) as u64
                },
                ..state.metrics
            },
            ..state
        }),
{
}

/// A message of the connection that holds a slot does to the gamepad what it says: a press
/// and a release the named control, a movement the named stick. Those and a ping are signs of
/// life; a mouse movement and a text leave the slot alone. Nothing but the slot changes.
pub proof fn message_does_what_it_says(
    state: ServerState,
    player_id: usize,
    generation: u64,
    message: ClientMessage,
    now: u64,
)
    requires
        state.wf(),
        1 <= player_id <= 4,
        state.players[player_id].connected,
        state.players[player_id].connection_generation == generation,
    ensures
        ({
            let before = state.players[player_id];
            let next = state.after_message(player_id, generation, message, now);
            let after = next.players[player_id];
            &&& message matches ClientMessage::ButtonPress { button } ==> after.gamepad
                == before.gamepad.with_named(button@, true)
            &&& message matches ClientMessage::ButtonRelease { button } ==> after.gamepad
                == before.gamepad.with_named(button@, false)
            &&& message matches ClientMessage::JoystickMove { stick, thumb } ==> after.gamepad
                == before.leaning(stick@, thumb).gamepad
            &&& message is Ping || message is MouseMove || message is KeyText ==> after.gamepad
                == before.gamepad
            &&& after.last_packet_at == (if message is MouseMove || message is KeyText {
                before.last_packet_at
            } else {
                now
            })
            &&& after == (PlayerController {
                gamepad: after.gamepad,
                last_packet_at: after.last_packet_at,
                ..before
            })
            &&& next.players == state.players.insert(player_id, after)
            &&& next.peers == state.peers
            &&& next.metrics == state.metrics
            &&& next.events == state.events
        }),
{
    assert(crate::server::is_slot(player_id));
    assert(state.players.contains_key(player_id));
    assert(state.after_message(player_id, generation, message, now).players
        =~= state.players.insert(
        player_id,
        state.after_message(player_id, generation, message, now).players[player_id],
    ));
}

/// A message calls for one thing: input for a slot, from the connection that holds it, for
/// the new report of the gamepad if a virtual controller is plugged in; a mouse movement and a
/// text for just that; a ping for a pong. Input from another connection calls for nothing.
pub proof fn message_calls_for_one_thing(
    state: ServerState,
    player_id: usize,
    generation: u64,
    message: ClientMessage,
    now: u64,
    action: ClientAction,
)
    requires
        state.wf(),
        state.calls_for(player_id, generation, message, now, action),
    ensures
        ({
            let player = state.players[player_id];
            let holds = 1 <= player_id <= 4 && player.connected && player.connection_generation
                == generation;
            let input = message is ButtonPress || message is ButtonRelease
                || message is JoystickMove;
            &&& input && holds && player.xbox == XboxTarget::Plugged ==> action
                == ClientAction::Report(
                state.after_message(
                    player_id,
                    generation,
                    message,
                    now,
                ).players[player_id].gamepad.as_report(),
            )
            &&& input && !(holds && player.xbox == XboxTarget::Plugged) ==> action
                == ClientAction::Nothing
            &&& message matches ClientMessage::MouseMove { dx, dy } ==> (action
                matches ClientAction::MoveMouse { dx: x, dy: y } && x == dx && y == dy)
            &&& message matches ClientMessage::KeyText { text } ==> (action
                matches ClientAction::TypeText(typed) && typed == text)
            &&& message is Ping ==> (action matches ClientAction::Reply(pong) && pong.kind@
                == "pong"@)
        }),
{
    assert(state.players.contains_key(player_id) == crate::server::is_slot(player_id));
}

/// A phone is probed exactly if it holds the slot and owes no echo; the probe and the echo
/// change their own slot only, and do nothing for another connection.
pub proof fn probes_and_echoes_stay_in_their_slot(
    state: ServerState,
    player_id: usize,
    generation: u64,
    now: u64,
)
    requires
        state.wf(),
    ensures
        ({
            let player = state.players[player_id];
            let holds = 1 <= player_id <= 4 && player.connected && player.connection_generation
                == generation;
            &&& state.probe_due(player_id, generation) == (holds && player.probed_at is None)
            &&& holds && player.probed_at is None ==> state.after_probe(player_id, generation, now)
                == (ServerState {
                players: state.players.insert(player_id, player.probed(now)),
                ..state
            })
            &&& !(holds && player.probed_at is None) ==> state.after_probe(
                player_id,
                generation,
                now,
            ) == state
            &&& holds ==> state.after_echo(player_id, generation, now) == (ServerState {
                players: state.players.insert(player_id, player.echoed(now)),
                ..state
            })
            &&& !holds ==> state.after_echo(player_id, generation, now) == state
        }),
{
    assert(state.players.contains_key(player_id) == crate::server::is_slot(player_id));
}

/// Rumble goes to the connection that holds the slot, if there is one.
pub proof fn rumble_goes_to_the_holder(state: ServerState, player_id: usize)
    requires
        state.wf(),
    ensures
        state.rumble_target(player_id) == (if 1 <= player_id <= 4
            && state.players[player_id].connected {
            Some(state.players[player_id].connection_generation)
        } else {
            None
        }),
{
    assert(state.players.contains_key(player_id) == crate::server::is_slot(player_id));
}

/// Whether a slot is held by a player whose last sign of life lies more than eight seconds
/// back.
pub open spec fn overdue(player: PlayerController, now: u64) -> bool {
    player.connected && now > player.last_packet_at + 8_000_000_000
}

/// The slots that the watchdog vacates among the first ones.
proof fn overdue_among(state: ServerState, slots: nat, now: u64)
    requires
        state.wf(),
        slots <= 4,
    ensures
        ({
            let vacated = silent_among(state.players, slots, now);
            &&& vacated.len() <= slots
            &&& forall|i: int|
                0 <= i < vacated.len() ==> {
                    let (id, duties) = #[trigger] vacated[i];
                    1 <= id <= slots && overdue(state.players[id], now) && duties
                        == state.players[id].detach_duties()
                }
            &&& forall|i: int, j: int|
                0 <= i < j < vacated.len() ==> (#[trigger] vacated[i]).0 < (
                #[trigger] vacated[j]).0
            &&& forall|id: usize|
                1 <= id <= slots && overdue(#[trigger] state.players[id], now) ==> exists|i: int|
                    0 <= i < vacated.len() && (#[trigger] vacated[i]).0 == id
        }),
    decreases slots,
{
    if slots > 0 {
        let before = silent_among(state.players, (slots - 1) as nat, now);
        let vacated = silent_among(state.players, slots, now);
        let last = slots as usize;
        overdue_among(state, (slots - 1) as nat, now);
        assert(crate::server::is_slot(last));
        assert(state.players.contains_key(last));
        crate::slot_laws::eight_seconds_of_silence(state.players[last], now);
        assert forall|id: usize| 1 <= id <= slots && overdue(
            #[trigger] state.players[id],
            now,
        ) implies exists|i: int| 0 <= i < vacated.len() && (#[trigger] vacated[i]).0 == id by {
            if id < last {
                let i = choose|i: int| 0 <= i < before.len() && (#[trigger] before[i]).0 == id;
                assert(vacated[i].0 == id);
            } else {
                assert(vacated[vacated.len() - 1].0 == id);
            }
        }
    }
}

/// The watchdog vacates exactly the slots of players whose last sign of life lies more than
/// eight seconds back, the lowest first, and owes a virtual controller that is plugged in
/// there a report of zeros and the unplugging.
pub proof fn watchdog_reports_the_overdue(state: ServerState, now: u64)
    requires
        state.wf(),
    ensures
        ({
            let vacated = silent_among(state.players, 4, now);
            &&& forall|i: int|
                0 <= i < vacated.len() ==> {
                    let (id, duties) = #[trigger] vacated[i];
                    1 <= id <= 4 && overdue(state.players[id], now) && duties
                        == state.players[id].detach_duties()
                }
            &&& forall|i: int, j: int|
                0 <= i < j < vacated.len() ==> (#[trigger] vacated[i]).0 < (
                #[trigger] vacated[j]).0
            &&& forall|id: usize|
                1 <= id <= 4 && overdue(#[trigger] state.players[id], now) ==> exists|i: int|
                    0 <= i < vacated.len() && (#[trigger] vacated[i]).0 == id
        }),
{
    overdue_among(state, 4, now);
}

/// A player whose last sign of life lies more than eight seconds back holds no slot after the
/// watchdog ran, whatever they sent before; the slot is free, at rest and unplugged. Everybody
/// else keeps theirs as it is.
pub proof fn watchdog_frees_the_overdue(state: ServerState, now: u64, id: usize)
    requires
        state.wf(),
        1 <= id <= 4,
    ensures
        ({
            let before = state.players[id];
            let next = state.after_watchdog(now);
            let after = next.players[id];
            &&& before.connected && now > before.last_packet_at + 8_000_000_000 ==> {
                &&& next.is_free(id)
                &&& !after.connected
                &&& after.gamepad.as_report() == crate::gamepad::neutral_report()
                &&& after.xbox != XboxTarget::Plugged
                &&& !next.owns(id, before.connection_generation)
                &&& after == before.detached()
            }
            &&& !(before.connected && now > before.last_packet_at + 8_000_000_000) ==> after
                == before
            &&& next.players.dom() == state.players.dom()
            &&& next.peers == state.peers
            &&& next.events == state.events
        }),
{
    assert(crate::server::is_slot(id));
    assert(state.players.contains_key(id));
    crate::laws::neutral_gamepad_reports_zeros();
    assert(state.after_watchdog(now).players.dom() =~= state.players.dom());
}

/// The watchdog counts each slot that it vacates, twice: among its own resets and among those
/// for lack of input. No other counter moves.
pub proof fn watchdog_counts_its_resets(state: ServerState, now: u64)
    requires
        state.metrics.watchdog_resets + 4 <= u64::MAX,
        state.metrics.input_watchdog_resets + 4 <= u64::MAX,
        state.wf(),
    ensures
        ({
            let resets = silent_among(state.players, 4, now).len();
            let after = state.after_watchdog(now).metrics;
            &&& after.watchdog_resets == state.metrics.watchdog_resets + resets
            &&& after.input_watchdog_resets == state.metrics.input_watchdog_resets + resets
            &&& after == (Metrics {
                watchdog_resets: after.watchdog_resets,
                input_watchdog_resets: after.input_watchdog_resets,
                ..state.metrics
            })
        }),
{
    overdue_among(state, 4, now);
}

} // verus!
