//! What holds of gamepads, packets, slots and the log across their operations.

use vstd::prelude::*;

use crate::events::latest;
use crate::gamepad::{
    equal_buttons, mask_of, neutral, neutral_report, released, Button, Control, GamepadButtons,
    GamepadState,
};
use crate::packet::{newer, reading, sequence_gap, Packet, PacketFault, GAMEPAD_STATE};
use crate::player::{next_generation, Detached, PlayerController};

verus! {

/// Whether a number is a bit or nothing.
#[verifier::opaque]
spec fn bit_or_none(w: u16, bit: u16) -> bool {
    w == 0 || w == bit
}

/// The weight of a button, kept folded.
#[verifier::opaque]
spec fn folded_weight(buttons: GamepadButtons, button: Button) -> int {
    buttons.weight(button)
}

/// The weight of a button is its bit while it is held, and nothing otherwise.
proof fn weight_of_button(buttons: GamepadButtons, button: Button)
    ensures
        0 <= folded_weight(buttons, button) <= mask_of(button),
        bit_or_none(folded_weight(buttons, button) as u16, mask_of(button)),
{
    reveal(folded_weight);
    reveal(bit_or_none);
}

/// Distinct bits can be read back from their sum.
proof fn bits_of_sum(
    w0: u16,
    w1: u16,
    w2: u16,
    w3: u16,
    w4: u16,
    w5: u16,
    w6: u16,
    w7: u16,
    w8: u16,
    w9: u16,
    w10: u16,
    w12: u16,
    w13: u16,
    w14: u16,
    w15: u16,
    m: u16,
)
    by (bit_vector)
    requires
        m == w0 + w1 + w2 + w3 + w4 + w5 + w6 + w7 + w8 + w9 + w10 + w12 + w13 + w14 + w15,
        bit_or_none(w0, 0x0001),
        bit_or_none(w1, 0x0002),
        bit_or_none(w2, 0x0004),
        bit_or_none(w3, 0x0008),
        bit_or_none(w4, 0x0010),
        bit_or_none(w5, 0x0020),
        bit_or_none(w6, 0x0040),
        bit_or_none(w7, 0x0080),
        bit_or_none(w8, 0x0100),
        bit_or_none(w9, 0x0200),
        bit_or_none(w10, 0x0400),
        bit_or_none(w12, 0x1000),
        bit_or_none(w13, 0x2000),
        bit_or_none(w14, 0x4000),
        bit_or_none(w15, 0x8000),
    ensures
        m & 0x0001 == w0,
        m & 0x0002 == w1,
        m & 0x0004 == w2,
        m & 0x0008 == w3,
        m & 0x0010 == w4,
        m & 0x0020 == w5,
        m & 0x0040 == w6,
        m & 0x0080 == w7,
        m & 0x0100 == w8,
        m & 0x0200 == w9,
        m & 0x0400 == w10,
        m & 0x1000 == w12,
        m & 0x2000 == w13,
        m & 0x4000 == w14,
        m & 0x8000 == w15,
        m & 0x0800 == 0,
{
}

/// The bits of a sum of weights are the weights.
proof fn sum_is_made_of_weights(buttons: GamepadButtons, button: Button, sum: int)
    requires
        sum == folded_weight(buttons, Button::DpadUp)
            + folded_weight(buttons, Button::DpadDown)
            + folded_weight(buttons, Button::DpadLeft)
            + folded_weight(buttons, Button::DpadRight)
            + folded_weight(buttons, Button::Start)
            + folded_weight(buttons, Button::Back)
            + folded_weight(buttons, Button::LeftThumb)
            + folded_weight(buttons, Button::RightThumb)
            + folded_weight(buttons, Button::LeftBumper)
            + folded_weight(buttons, Button::RightBumper)
            + folded_weight(buttons, Button::Guide)
            + folded_weight(buttons, Button::A)
            + folded_weight(buttons, Button::B)
            + folded_weight(buttons, Button::X)
            + folded_weight(buttons, Button::Y),
    ensures
        0 <= sum <= 0xf7ff,
        (sum as u16) & mask_of(button) == folded_weight(buttons, button),
        (sum as u16) & 0x0800 == 0,
{
    weight_of_button(buttons, Button::DpadUp);
    weight_of_button(buttons, Button::DpadDown);
    weight_of_button(buttons, Button::DpadLeft);
    weight_of_button(buttons, Button::DpadRight);
    weight_of_button(buttons, Button::Start);
    weight_of_button(buttons, Button::Back);
    weight_of_button(buttons, Button::LeftThumb);
    weight_of_button(buttons, Button::RightThumb);
    weight_of_button(buttons, Button::LeftBumper);
    weight_of_button(buttons, Button::RightBumper);
    weight_of_button(buttons, Button::Guide);
    weight_of_button(buttons, Button::A);
    weight_of_button(buttons, Button::B);
    weight_of_button(buttons, Button::X);
    weight_of_button(buttons, Button::Y);
    bits_of_sum(
        folded_weight(buttons, Button::DpadUp) as u16,
        folded_weight(buttons, Button::DpadDown) as u16,
        folded_weight(buttons, Button::DpadLeft) as u16,
        folded_weight(buttons, Button::DpadRight) as u16,
        folded_weight(buttons, Button::Start) as u16,
        folded_weight(buttons, Button::Back) as u16,
        folded_weight(buttons, Button::LeftThumb) as u16,
        folded_weight(buttons, Button::RightThumb) as u16,
        folded_weight(buttons, Button::LeftBumper) as u16,
        folded_weight(buttons, Button::RightBumper) as u16,
        folded_weight(buttons, Button::Guide) as u16,
        folded_weight(buttons, Button::A) as u16,
        folded_weight(buttons, Button::B) as u16,
        folded_weight(buttons, Button::X) as u16,
        folded_weight(buttons, Button::Y) as u16,
        sum as u16,
    );
}

/// The mask is the sum of the weights.
proof fn mask_is_the_sum(buttons: GamepadButtons)
    ensures
        buttons.mask() == folded_weight(buttons, Button::DpadUp)
            + folded_weight(buttons, Button::DpadDown)
            + folded_weight(buttons, Button::DpadLeft)
            + folded_weight(buttons, Button::DpadRight)
            + folded_weight(buttons, Button::Start)
            + folded_weight(buttons, Button::Back)
            + folded_weight(buttons, Button::LeftThumb)
            + folded_weight(buttons, Button::RightThumb)
            + folded_weight(buttons, Button::LeftBumper)
            + folded_weight(buttons, Button::RightBumper)
            + folded_weight(buttons, Button::Guide)
            + folded_weight(buttons, Button::A)
            + folded_weight(buttons, Button::B)
            + folded_weight(buttons, Button::X)
            + folded_weight(buttons, Button::Y),
{
    reveal(folded_weight);
}

/// The bits of the mask are the weights of the buttons.
pub proof fn mask_is_made_of_weights(buttons: GamepadButtons, button: Button)
    ensures
        0 <= buttons.mask() <= 0xf7ff,
        (buttons.mask() as u16) & mask_of(button) == buttons.weight(button),
        (buttons.mask() as u16) & 0x0800 == 0,
{
    mask_is_the_sum(buttons);
    sum_is_made_of_weights(buttons, button, buttons.mask());
    assert(folded_weight(buttons, button) == buttons.weight(button)) by {
        reveal(folded_weight);
    }
}

/// A bit of the mask is set exactly while its button is held.
proof fn mask_shows_button(buttons: GamepadButtons, button: Button)
    ensures
        GamepadButtons::of_mask(buttons.mask() as u16).holds(button) == buttons.holds(button),
{
    mask_is_made_of_weights(buttons, button);
}

/// The buttons come back from the mask that a report carries.
pub proof fn buttons_survive_the_mask(buttons: GamepadButtons)
    ensures
        GamepadButtons::of_mask(buttons.mask() as u16) == buttons,
{
    assert forall|button: Button| #[trigger]
        GamepadButtons::of_mask(buttons.mask() as u16).holds(button) == buttons.holds(button) by {
        mask_shows_button(buttons, button);
    }
    equal_buttons(GamepadButtons::of_mask(buttons.mask() as u16), buttons);
}

/// The weight of a button that was read from a mask is its bit there.
proof fn weight_from_mask(raw: u16, button: Button)
    ensures
        GamepadButtons::of_mask(raw).weight(button) == raw & mask_of(button),
{
    let bit = mask_of(button);
    assert(raw & bit == 0 || raw & bit == bit) by (bit_vector)
        requires
            bit == 0x0001 || bit == 0x0002 || bit == 0x0004 || bit == 0x0008 || bit == 0x0010 || bit == 0x0020 || bit == 0x0040 || bit == 0x0080 || bit == 0x0100 || bit == 0x0200 || bit == 0x0400 || bit == 0x1000 || bit == 0x2000 || bit == 0x4000 || bit == 0x8000,
    ;
}

/// A mask comes back from the buttons that it names, but for the reserved bit.
pub proof fn mask_survives_the_buttons(raw: u16)
    ensures
        GamepadButtons::of_mask(raw).mask() == raw & 0xf7ff,
{
    weight_from_mask(raw, Button::DpadUp);
    weight_from_mask(raw, Button::DpadDown);
    weight_from_mask(raw, Button::DpadLeft);
    weight_from_mask(raw, Button::DpadRight);
    weight_from_mask(raw, Button::Start);
    weight_from_mask(raw, Button::Back);
    weight_from_mask(raw, Button::LeftThumb);
    weight_from_mask(raw, Button::RightThumb);
    weight_from_mask(raw, Button::LeftBumper);
    weight_from_mask(raw, Button::RightBumper);
    weight_from_mask(raw, Button::Guide);
    weight_from_mask(raw, Button::A);
    weight_from_mask(raw, Button::B);
    weight_from_mask(raw, Button::X);
    weight_from_mask(raw, Button::Y);
    assert((raw & 0x0001) + (raw & 0x0002) + (raw & 0x0004) + (raw & 0x0008) + (raw & 0x0010) + (raw & 0x0020) + (raw & 0x0040) + (raw & 0x0080) + (raw & 0x0100) + (raw & 0x0200) + (raw & 0x0400) + (raw & 0x1000) + (raw & 0x2000) + (raw & 0x4000) + (raw & 0x8000)
        == raw & 0xf7ff) by (bit_vector);
}

/// A gamepad that nobody touches shows as a report of zeros.
pub proof fn neutral_gamepad_reports_zeros()
    ensures
        neutral().as_report() == neutral_report(),
{
    assert(released().mask() == 0);
}

/// Pressing or releasing a button sets that button and leaves the others alone.
pub proof fn button_press_is_local(
    buttons: GamepadButtons,
    button: Button,
    pressed: bool,
    other: Button,
)
    ensures
        buttons.with_button(button, pressed).holds(other) == (if other == button {
            pressed
        } else {
            buttons.holds(other)
        }),
{
}

/// The buttons with one of them held or released.
#[verifier::opaque]
spec fn pressing(buttons: GamepadButtons, button: Button, pressed: bool) -> GamepadButtons {
    buttons.with_button(button, pressed)
}

/// What a press or release amounts to for a button.
proof fn one_press(buttons: GamepadButtons, button: Button, pressed: bool, k: Button)
    ensures
        pressing(buttons, button, pressed).holds(k) == (if k == button {
            pressed
        } else {
            buttons.holds(k)
        }),
{
    reveal(pressing);
    button_press_is_local(buttons, button, pressed, k);
}

/// Of two presses or releases of one button the later one counts.
proof fn last_button_press_counts(buttons: GamepadButtons, button: Button, first: bool, second: bool)
    ensures
        pressing(pressing(buttons, button, first), button, second) == pressing(
            buttons,
            button,
            second,
        ),
{
    let once = pressing(buttons, button, second);
    let twice = pressing(pressing(buttons, button, first), button, second);
    assert forall|k: Button| #[trigger] twice.holds(k) == once.holds(k) by {
        one_press(buttons, button, first, k);
        one_press(pressing(buttons, button, first), button, second, k);
        one_press(buttons, button, second, k);
    }
    equal_buttons(twice, once);
}

/// Presses and releases of different buttons can be exchanged.
proof fn different_buttons_commute(
    buttons: GamepadButtons,
    one: Button,
    first: bool,
    other: Button,
    second: bool,
)
    requires
        one != other,
    ensures
        pressing(pressing(buttons, one, first), other, second) == pressing(
            pressing(buttons, other, second),
            one,
            first,
        ),
{
    let one_way = pressing(pressing(buttons, one, first), other, second);
    let other_way = pressing(pressing(buttons, other, second), one, first);
    assert forall|k: Button| #[trigger] one_way.holds(k) == other_way.holds(k) by {
        one_press(buttons, one, first, k);
        one_press(pressing(buttons, one, first), other, second, k);
        one_press(buttons, other, second, k);
        one_press(pressing(buttons, other, second), one, first, k);
    }
    equal_buttons(one_way, other_way);
}

/// Of two presses or releases of one control the later one counts.
pub proof fn last_press_counts(state: GamepadState, control: Control, first: bool, second: bool)
    ensures
        state.with_control(control, first).with_control(control, second) == state.with_control(
            control,
            second,
        ),
{
    if let Control::Button(b) = control {
        last_button_press_counts(state.buttons, b, first, second);
        reveal(pressing);
    }
}

/// Presses and releases of different controls can be exchanged.
pub proof fn different_controls_commute(
    state: GamepadState,
    one: Control,
    first: bool,
    other: Control,
    second: bool,
)
    requires
        one != other,
    ensures
        state.with_control(one, first).with_control(other, second) == state.with_control(
            other,
            second,
        ).with_control(one, first),
{
    if let Control::Button(b) = one {
        if let Control::Button(c) = other {
            different_buttons_commute(state.buttons, b, first, c, second);
            reveal(pressing);
        }
    }
}

/// No packet is newer than itself, so a repeated packet is never taken.
pub proof fn repeated_packet_is_not_newer(sequence: u16)
    ensures
        !newer(sequence, sequence),
{
}

/// A packet that is taken is not taken again.
pub proof fn packet_is_taken_once(player: PlayerController, sequence: u16, now: u64)
    ensures
        !player.counted(sequence, now).takes(sequence),
{
    repeated_packet_is_not_newer(sequence);
}

/// Once a packet was taken, an older one is not, unless the two numbers lie exactly half
/// of the number space apart.
pub proof fn older_packet_is_not_newer(last: u16, sequence: u16)
    requires
        newer(last, sequence),
        sequence_gap(last, sequence) != 0x8000,
    ensures
        !newer(sequence, last),
{
}

/// Of two different sequence numbers at least one is newer than the other.
pub proof fn one_of_two_is_newer(a: u16, b: u16)
    requires
        a != b,
    ensures
        newer(a, b) || newer(b, a),
{
}

/// Packets that are numbered one after another are all taken, also where the numbers
/// start over.
pub proof fn packets_in_order_are_taken(player: PlayerController)
    ensures
        player.takes(player.last_sequence.wrapping_add(1)),
{
}

/// The bytes of an input packet, as a phone writes them.
pub open spec fn packet_bytes(player_id: u8, packet: Packet) -> Seq<u8> {
    seq![
        player_id,
        (packet.sequence / 256) as u8,
        (packet.sequence % 256) as u8,
        packet.msg_type,
        (packet.buttons / 256) as u8,
        (packet.buttons % 256) as u8,
        packet.left_trigger,
        packet.right_trigger,
        packet.lx as u8,
        packet.ly as u8,
        packet.rx as u8,
        packet.ry as u8,
    ]
}

/// A byte holds an axis in two's complement.
proof fn axis_survives_its_byte(axis: i8)
    ensures
        (axis as u8) as i8 == axis,
{
    assert((axis as u8) as i8 == axis) by (bit_vector);
}

/// What a phone wrote into a packet is what the server reads, whatever follows the fixed
/// part.
pub proof fn packet_survives_the_wire(player_id: u8, packet: Packet, rest: Seq<u8>)
    requires
        rest.len() <= 52,
    ensures
        reading(packet_bytes(player_id, packet) + rest, player_id as usize) == Ok::<
            Packet,
            PacketFault,
        >(packet),
{
    axis_survives_its_byte(packet.lx);
    axis_survives_its_byte(packet.ly);
    axis_survives_its_byte(packet.rx);
    axis_survives_its_byte(packet.ry);
}

/// A message that names another slot than the sender's is no packet.
pub proof fn foreign_slot_is_refused(bin: Seq<u8>, player_id: usize)
    requires
        bin.len() > 0,
        bin[0] != player_id,
    ensures
        reading(bin, player_id) is Err,
{
}

/// The gamepad after a state packet depends on the packet alone: a packet that was lost
/// leaves nothing behind.
pub proof fn state_packet_replaces_the_gamepad(
    one: PlayerController,
    other: PlayerController,
    packet: Packet,
    left: (i16, i16),
    right: (i16, i16),
)
    requires
        packet.msg_type == GAMEPAD_STATE,
    ensures
        one.steered(packet, left, right).gamepad == other.steered(packet, left, right).gamepad,
{
}

/// The generation of a slot after a number of attachments and detachments.
pub open spec fn generation_after(generation: u64, changes: nat) -> u64
    decreases changes,
{
    if changes == 0 {
        generation
    } else {
        next_generation(generation_after(generation, (changes - 1) as nat))
    }
}

/// Counting on from a generation.
proof fn generation_counts_up(generation: u64, changes: nat)
    requires
        1 <= generation,
        changes < u64::MAX,
    ensures
        generation_after(generation, changes) == (if generation + changes <= u64::MAX {
            generation + changes
        } else {
            generation + changes - u64::MAX
        }),
    decreases changes,
{
    if changes > 0 {
        generation_counts_up(generation, (changes - 1) as nat);
    }
}

/// A generation that ended does not come back before all the others were used: a late
/// message of an old connection is never taken for one of its successors.
pub proof fn generation_does_not_return(generation: u64, changes: nat)
    requires
        1 <= generation,
        0 < changes < u64::MAX,
    ensures
        generation_after(generation, changes) != generation,
{
    generation_counts_up(generation, changes);
}

/// A generation is never zero.
pub proof fn generation_is_positive(generation: u64, changes: nat)
    requires
        changes > 0,
    ensures
        generation_after(generation, changes) >= 1,
{
}

/// The latency of a player is the time from a probe to its echo, and measuring it changes
/// nothing else about the slot.
pub proof fn latency_is_the_time_to_the_echo(player: PlayerController, now: u64, later: u64)
    requires
        now <= later,
    ensures
        player.probed(now).echoed(later) == (PlayerController {
            probed_at: None,
            latency: Some((later - now) as u64),
            ..player
        }),
{
}

/// A slot that was vacated is free, its gamepad is neutral, its virtual controller is
/// unplugged, and the connection that held it owns it no more.
pub proof fn vacated_slot_is_clean(player: PlayerController)
    ensures
        !player.detached().connected,
        player.detached().gamepad == neutral(),
        !(player.detached().xbox is Plugged),
        player.detached().rumble_tx is None,
        !player.detached().owned_by(player.connection_generation),
        player.detached().wf(),
{
}

/// A new connection starts with a neutral gamepad, with counters at zero and with a
/// generation that differs from the slot's last one.
pub proof fn attached_slot_is_fresh(player: PlayerController, now: u64)
    ensures
        player.attached(now).connected,
        player.attached(now).gamepad == neutral(),
        player.attached(now).packet_count == 0,
        player.attached(now).dropped_packets == 0,
        player.attached(now).invalid_packets == 0,
        player.attached(now).connection_generation != player.connection_generation,
        !player.attached(now).silent(now),
        forall|sequence: u16| player.attached(now).takes(sequence),
{
}

/// Whoever joins and leaves a slot leaves the virtual controller as it was, unplugged
/// after a neutral report.
pub proof fn joining_and_leaving_restores_the_target(player: PlayerController, now: u64)
    requires
        player.wf(),
        !player.connected,
    ensures
        player.attached(now).detached().xbox == player.xbox,
        player.attached(now).detach_duties() == (Detached {
            report: if player.xbox is Unplugged {
                Some(neutral_report())
            } else {
                None
            },
            unplug: player.xbox is Unplugged,
        }),
{
    neutral_gamepad_reports_zeros();
}

/// The log holds the latest of all entries ever made: letting go of old ones early makes
/// no difference.
pub proof fn log_holds_the_latest(entries: Seq<Seq<char>>, entry: Seq<char>)
    ensures
        latest(latest(entries).push(entry)) == latest(entries.push(entry)),
        latest(entries).len() <= crate::events::MAX_EVENTS,
        latest(entries.push(entry)).last() == entry,
{
    assert(latest(latest(entries).push(entry)) =~= latest(entries.push(entry)));
}

} // verus!
