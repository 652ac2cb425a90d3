//! What happens to one slot, field by field.

use vstd::prelude::*;

use crate::gamepad::{neutral, XGamepad};
use crate::packet::{packet_of, Packet};
use crate::player::{elapsed_since, next_generation, Detached, PlayerController, XboxTarget};

verus! {

/// Elapsed time added to the point where it began gives the present, and is zero before
/// that point.
pub proof fn elapsed_time_leads_to_the_present(then: u64, now: u64)
    ensures
        then <= now ==> then + elapsed_since(then, now) == now,
        now <= then ==> elapsed_since(then, now) == 0,
{
}

/// Generations are counted up by one; after the greatest comes one.
pub proof fn generations_are_counted(generation: u64)
    ensures
        generation < u64::MAX ==> next_generation(generation) == generation + 1,
        next_generation(u64::MAX) == 1,
{
}

/// A slot that nobody has used is free, at rest, with all counters at zero and generation
/// zero, and has no message or latency to show.
pub proof fn unused_slot_is_blank(player_id: usize, xbox: XboxTarget, now: u64)
    ensures
        ({
            let player = PlayerController::vacant(player_id, xbox, now);
            &&& player.player_id == player_id
            &&& !player.connected
            &&& player.connection_generation == 0
            &&& !player.has_received_packet
            &&& player.last_sequence == 0
            &&& player.gamepad.as_report().buttons == 0
            &&& player.gamepad == neutral()
            &&& player.last_packet_at == now
            &&& player.connected_at == now
            &&& player.packet_count == 0
            &&& player.dropped_packets == 0
            &&& player.invalid_packets == 0
            &&& player.xbox == xbox
            &&& player.rumble_tx is None
            &&& player.probed_at is None
            &&& player.latency is None
        }),
{
    crate::input_laws::rest_is_all_zeros();
}

/// A slot fails to take a player only if it lacks a virtual controller and none was made.
pub proof fn only_a_missing_controller_stops_a_player(player: PlayerController, created: bool)
    ensures
        !player.attachable(created) == (player.xbox == XboxTarget::Unplugged && !created),
{
}

/// A connection begins with the next generation, at this moment, at rest and with nothing
/// counted; rumble goes to it, the slot keeps its number, and a virtual controller that was
/// missing is plugged in.
pub proof fn connection_begins_now(player: PlayerController, now: u64)
    ensures
        ({
            let after = player.attached(now);
            &&& after.connected
            &&& after.player_id == player.player_id
            &&& after.connection_generation == next_generation(player.connection_generation)
            &&& after.rumble_tx == Some(after.connection_generation)
            &&& after.last_packet_at == now
            &&& after.connected_at == now
            &&& !after.has_received_packet
            &&& after.last_sequence == 0
            &&& after.gamepad == neutral()
            &&& after.packet_count + after.dropped_packets + after.invalid_packets == 0
            &&& after.probed_at is None
            &&& after.latency is None
            &&& (after.xbox == XboxTarget::Plugged) == (player.xbox != XboxTarget::Unsupported)
            &&& (after.xbox == XboxTarget::Unsupported) == (player.xbox
                == XboxTarget::Unsupported)
        }),
{
}

/// Whatever a player did, detaching frees the slot: the gamepad is at rest, the generation
/// has moved on, no rumble and no latency remain, and nothing is plugged in. The number and
/// the counters of the slot stay to be read.
pub proof fn detaching_leaves_a_clean_slot(player: PlayerController)
    ensures
        ({
            let after = player.detached();
            &&& !after.connected
            &&& after.connection_generation == next_generation(player.connection_generation)
            &&& after.rumble_tx is None
            &&& after.probed_at is None
            &&& after.latency is None
            &&& !after.has_received_packet
            &&& after.last_sequence == 0
            &&& after.gamepad == neutral()
            &&& after.xbox != XboxTarget::Plugged
            &&& (after.xbox == XboxTarget::Unsupported) == (player.xbox
                == XboxTarget::Unsupported)
            &&& after.player_id == player.player_id
            &&& after.last_packet_at == player.last_packet_at
            &&& after.connected_at == player.connected_at
            &&& after.packet_count == player.packet_count
            &&& after.dropped_packets == player.dropped_packets
            &&& after.invalid_packets == player.invalid_packets
        }),
{
}

/// Whatever a player did, a virtual controller that is plugged in is told to let go of
/// everything and is unplugged when the player is detached; where none is, nothing is owed.
pub proof fn detaching_releases_and_unplugs(player: PlayerController)
    ensures
        player.xbox == XboxTarget::Plugged ==> player.detach_duties() == (Detached {
            report: Some(
                XGamepad {
                    buttons: 0,
                    left_trigger: 0,
                    right_trigger: 0,
                    thumb_lx: 0,
                    thumb_ly: 0,
                    thumb_rx: 0,
                    thumb_ry: 0,
                },
            ),
            unplug: true,
        }),
        player.xbox != XboxTarget::Plugged ==> player.detach_duties() == (Detached {
            report: None,
            unplug: false,
        }),
        player.detach_duties().unplug == (player.xbox == XboxTarget::Plugged
            && player.detached().xbox == XboxTarget::Unplugged),
{
    crate::laws::neutral_gamepad_reports_zeros();
}

/// A virtual controller that is plugged in, and no other, is owed the report of the gamepad.
pub proof fn only_a_plugged_controller_gets_reports(player: PlayerController)
    ensures
        (player.update() is Some) == (player.xbox == XboxTarget::Plugged),
        player.update() matches Some(report) ==> report == player.gamepad.as_report(),
{
}

/// A slot belongs to a connection exactly while it is taken and the generations agree.
pub proof fn connection_owns_by_generation(player: PlayerController, generation: u64)
    ensures
        player.owned_by(generation) == (player.connected && player.connection_generation
            == generation),
{
}

/// Once a packet was taken, the next one is taken exactly if its number is between one and
/// 0x8000 ahead of the last one, counting on from 65535 to 0; one from behind is late and is
/// not taken, however far behind. The first packet of a connection is always taken.
pub proof fn late_and_repeated_packets_are_refused(player: PlayerController, ahead: u16)
    ensures
        player.has_received_packet ==> player.takes(player.last_sequence.wrapping_add(ahead)) == (1
            <= ahead <= 0x8000),
        !player.has_received_packet ==> player.takes(player.last_sequence.wrapping_add(ahead)),
{
    crate::input_laws::newer_is_up_to_half_ahead(player.last_sequence, ahead);
}

/// The same, in terms of the two numbers.
pub proof fn packet_numbers_decide(player: PlayerController, sequence: u16)
    requires
        player.has_received_packet,
    ensures
        player.takes(sequence) == (0 < (sequence - player.last_sequence) % 0x10000 <= 0x8000),
        (sequence - player.last_sequence) % 0x10000 > 0x8000 ==> !player.takes(sequence),
        !player.takes(player.last_sequence),
{
}

/// After packets were taken in order, each of them is late if it comes again, as long as no
/// more than half of the number space was used in between.
pub proof fn earlier_packets_stay_late(
    player: PlayerController,
    sequence: u16,
    steps: u16,
    now: u64,
)
    requires
        steps < 0x8000,
    ensures
        !player.counted(sequence.wrapping_add(steps), now).takes(sequence),
{
}

/// A packet that is taken becomes the last one, is counted once, is a sign of life, and
/// changes nothing else.
pub proof fn taken_packet_is_counted(player: PlayerController, sequence: u16, now: u64)
    ensures
        ({
            let after = player.counted(sequence, now);
            &&& after.last_sequence == sequence
            &&& after.has_received_packet
            &&& after.last_packet_at == now
            &&& player.packet_count < u64::MAX ==> after.packet_count == player.packet_count + 1
            &&& player.packet_count == u64::MAX ==> after.packet_count == u64::MAX
            &&& after == (PlayerController {
                last_sequence: after.last_sequence,
                has_received_packet: after.has_received_packet,
                last_packet_at: after.last_packet_at,
                packet_count: after.packet_count,
                ..player
            })
        }),
{
}

/// A packet that is dropped is counted once and changes nothing else: the input stays as
/// the last packet left it.
pub proof fn dropped_packet_changes_one_counter(player: PlayerController)
    ensures
        ({
            let after = player.dropping();
            &&& player.dropped_packets < u64::MAX ==> after.dropped_packets
                == player.dropped_packets + 1
            &&& player.dropped_packets == u64::MAX ==> after.dropped_packets == u64::MAX
            &&& after == (PlayerController { dropped_packets: after.dropped_packets, ..player })
        }),
{
}

/// An invalid packet is counted once and changes nothing else; this count starts over.
pub proof fn invalid_packet_changes_one_counter(player: PlayerController)
    ensures
        ({
            let after = player.faulted();
            &&& player.invalid_packets < u64::MAX ==> after.invalid_packets
                == player.invalid_packets + 1
            &&& player.invalid_packets == u64::MAX ==> after.invalid_packets == 0
            &&& after == (PlayerController { invalid_packets: after.invalid_packets, ..player })
        }),
{
}

/// A packet of type one puts its own triggers and buttons, and the thumb positions for its
/// sticks, on the gamepad; any other packet leaves the gamepad alone. Nothing but the gamepad
/// changes.
pub proof fn packet_fields_reach_the_gamepad(
    player: PlayerController,
    packet: Packet,
    left: (i16, i16),
    right: (i16, i16),
)
    ensures
        ({
            let after = player.steered(packet, left, right);
            let report = after.gamepad.as_report();
            &&& packet.msg_type == 1 ==> {
                &&& report.left_trigger == packet.left_trigger
                &&& report.right_trigger == packet.right_trigger
                &&& report.buttons == packet.buttons & 0xf7ff
                &&& report.thumb_lx == left.0
                &&& report.thumb_ly == left.1
                &&& report.thumb_rx == right.0
                &&& report.thumb_ry == right.1
            }
            &&& packet.msg_type != 1 ==> after.gamepad == player.gamepad
            &&& after == (PlayerController { gamepad: after.gamepad, ..player })
        }),
{
    crate::laws::mask_survives_the_buttons(packet.buttons);
    let raw = packet.buttons;
    assert(raw & 0xf7ff <= 0xffff) by (bit_vector);
}

/// The bytes of a packet reach the report: the triggers byte for byte, the buttons but for
/// the reserved bit, and the sticks as they were shaped.
pub proof fn packet_bytes_reach_the_report(
    player: PlayerController,
    bin: Seq<u8>,
    left: (i16, i16),
    right: (i16, i16),
)
    requires
        bin.len() >= 12,
        bin[3] == 1,
        player.xbox == XboxTarget::Plugged,
    ensures
        player.steered(packet_of(bin), left, right).update() matches Some(report)
            && report.left_trigger == bin[6] && report.right_trigger == bin[7] && report.buttons
            == ((bin[4] * 256 + bin[5]) as u16) & 0xf7ff && report.thumb_lx == left.0
            && report.thumb_ly == left.1 && report.thumb_rx == right.0 && report.thumb_ry
            == right.1,
{
    packet_fields_reach_the_gamepad(player, packet_of(bin), left, right);
}

/// A stick that moves takes its new position; the other stick, the buttons and the triggers
/// stay, and nothing but the gamepad changes.
pub proof fn one_stick_moves(player: PlayerController, stick: Seq<char>, thumb: (i16, i16))
    ensures
        ({
            let after = player.leaning(stick, thumb);
            let (old_left, old_right) = (
                (player.gamepad.thumb_lx, player.gamepad.thumb_ly),
                (player.gamepad.thumb_rx, player.gamepad.thumb_ry),
            );
            let (new_left, new_right) = (
                (after.gamepad.thumb_lx, after.gamepad.thumb_ly),
                (after.gamepad.thumb_rx, after.gamepad.thumb_ry),
            );
            &&& stick == "right"@ ==> new_right == thumb && new_left == old_left
            &&& stick != "right"@ ==> new_left == thumb && new_right == old_right
            &&& after.gamepad.buttons == player.gamepad.buttons
            &&& after.gamepad.left_trigger == player.gamepad.left_trigger
            &&& after.gamepad.right_trigger == player.gamepad.right_trigger
            &&& after == (PlayerController { gamepad: after.gamepad, ..player })
        }),
{
}

/// A press by name changes nothing but the gamepad.
pub proof fn press_changes_the_gamepad_only(
    player: PlayerController,
    button: Seq<char>,
    pressed: bool,
)
    ensures
        player.pressing(button, pressed) == (PlayerController {
            gamepad: player.gamepad.with_named(button, pressed),
            ..player
        }),
{
}

/// A sign of life sets the clock and changes nothing else.
pub proof fn sign_of_life_sets_the_clock(player: PlayerController, now: u64)
    ensures
        player.seen(now).last_packet_at == now,
        player.seen(now) == (PlayerController {
            last_packet_at: player.seen(now).last_packet_at,
            ..player
        }),
{
}

/// A player has been silent for too long exactly if the last sign of life lies more than
/// eight seconds back, whatever came before.
pub proof fn eight_seconds_of_silence(player: PlayerController, now: u64)
    ensures
        player.silent(now) == (player.connected && now > player.last_packet_at + 8_000_000_000),
{
}

/// A probe is noted with its time, and its echo gives the latency; neither changes anything
/// else, and an echo that answers no probe changes nothing.
pub proof fn probe_and_echo_give_the_latency(player: PlayerController, now: u64, then: u64)
    ensures
        player.probed(now) == (PlayerController { probed_at: Some(now), ..player }),
        player.probed_at == Some(then) && then <= now ==> player.echoed(now) == (PlayerController {
            probed_at: None,
            latency: Some((now - then) as u64),
            ..player
        }),
        player.probed_at is None ==> player.echoed(now) == player,
{
}

} // verus!
