//! What a phone's input comes to: from names and bytes to the report of the virtual
//! controller.

use vstd::prelude::*;

use crate::gamepad::{
    mask_of, named_control, neutral, Button, Control, GamepadButtons, GamepadState,
};
use crate::laws::{mask_is_made_of_weights, packet_bytes};
use crate::packet::{newer, reading, Packet, PacketFault};

verus! {

/// A bit of the report is set exactly while its button is held.
proof fn bit_shows_button(buttons: GamepadButtons, button: Button)
    ensures
        0 <= buttons.mask() <= 0xf7ff,
        ((buttons.mask() as u16) & mask_of(button) != 0) == buttons.holds(button),
{
    mask_is_made_of_weights(buttons, button);
}

/// Every button has a bit of its own in the report, which is set exactly while the button
/// is held; one bit belongs to none.
pub proof fn report_has_a_bit_for_every_button(state: GamepadState)
    ensures
        ({
            let bits = state.as_report().buttons;
            let held = state.buttons;
            &&& (bits & 0x0001 != 0) == held.dpad_up
            &&& (bits & 0x0002 != 0) == held.dpad_down
            &&& (bits & 0x0004 != 0) == held.dpad_left
            &&& (bits & 0x0008 != 0) == held.dpad_right
            &&& (bits & 0x0010 != 0) == held.start
            &&& (bits & 0x0020 != 0) == held.back
            &&& (bits & 0x0040 != 0) == held.lthumb
            &&& (bits & 0x0080 != 0) == held.rthumb
            &&& (bits & 0x0100 != 0) == held.lb
            &&& (bits & 0x0200 != 0) == held.rb
            &&& (bits & 0x0400 != 0) == held.guide
            &&& bits & 0x0800 == 0
            &&& (bits & 0x1000 != 0) == held.a
            &&& (bits & 0x2000 != 0) == held.b
            &&& (bits & 0x4000 != 0) == held.x
            &&& (bits & 0x8000 != 0) == held.y
        }),
        state.buttons.mask() == state.as_report().buttons,
{
    let buttons = state.buttons;
    bit_shows_button(buttons, Button::DpadUp);
    bit_shows_button(buttons, Button::DpadDown);
    bit_shows_button(buttons, Button::DpadLeft);
    bit_shows_button(buttons, Button::DpadRight);
    bit_shows_button(buttons, Button::Start);
    bit_shows_button(buttons, Button::Back);
    bit_shows_button(buttons, Button::LeftThumb);
    bit_shows_button(buttons, Button::RightThumb);
    bit_shows_button(buttons, Button::LeftBumper);
    bit_shows_button(buttons, Button::RightBumper);
    bit_shows_button(buttons, Button::Guide);
    bit_shows_button(buttons, Button::A);
    bit_shows_button(buttons, Button::B);
    bit_shows_button(buttons, Button::X);
    bit_shows_button(buttons, Button::Y);
    mask_is_made_of_weights(buttons, Button::A);
}

/// The buttons that are read from a mask are those whose bits are set in it.
pub proof fn mask_names_buttons_bit_by_bit(raw: u16)
    ensures
        ({
            let held = GamepadButtons::of_mask(raw);
            &&& held.dpad_up == (raw & 0x0001 != 0)
            &&& held.dpad_down == (raw & 0x0002 != 0)
            &&& held.dpad_left == (raw & 0x0004 != 0)
            &&& held.dpad_right == (raw & 0x0008 != 0)
            &&& held.start == (raw & 0x0010 != 0)
            &&& held.back == (raw & 0x0020 != 0)
            &&& held.lthumb == (raw & 0x0040 != 0)
            &&& held.rthumb == (raw & 0x0080 != 0)
            &&& held.lb == (raw & 0x0100 != 0)
            &&& held.rb == (raw & 0x0200 != 0)
            &&& held.guide == (raw & 0x0400 != 0)
            &&& held.a == (raw & 0x1000 != 0)
            &&& held.b == (raw & 0x2000 != 0)
            &&& held.x == (raw & 0x4000 != 0)
            &&& held.y == (raw & 0x8000 != 0)
        }),
{
}

/// Two button masks are equal that agree on every bit.
proof fn bits_determine_the_mask(one: u16, other: u16)
    by (bit_vector)
    requires
        one & 0x0001 == other & 0x0001,
        one & 0x0002 == other & 0x0002,
        one & 0x0004 == other & 0x0004,
        one & 0x0008 == other & 0x0008,
        one & 0x0010 == other & 0x0010,
        one & 0x0020 == other & 0x0020,
        one & 0x0040 == other & 0x0040,
        one & 0x0080 == other & 0x0080,
        one & 0x0100 == other & 0x0100,
        one & 0x0200 == other & 0x0200,
        one & 0x0400 == other & 0x0400,
        one & 0x0800 == other & 0x0800,
        one & 0x1000 == other & 0x1000,
        one & 0x2000 == other & 0x2000,
        one & 0x4000 == other & 0x4000,
        one & 0x8000 == other & 0x8000,
    ensures
        one == other,
{
}

/// Setting or clearing one bit leaves the others.
proof fn one_bit_changes(mask: u16, bit: u16, other: u16)
    by (bit_vector)
    requires
        bit == 0x0001 || bit == 0x0002 || bit == 0x0004 || bit == 0x0008 || bit == 0x0010 || bit
            == 0x0020 || bit == 0x0040 || bit == 0x0080 || bit == 0x0100 || bit == 0x0200 || bit
            == 0x0400 || bit == 0x1000 || bit == 0x2000 || bit == 0x4000 || bit == 0x8000,
        other == 0x0001 || other == 0x0002 || other == 0x0004 || other == 0x0008 || other == 0x0010
            || other == 0x0020 || other == 0x0040 || other == 0x0080 || other == 0x0100 || other
            == 0x0200 || other == 0x0400 || other == 0x0800 || other == 0x1000 || other == 0x2000
            || other == 0x4000 || other == 0x8000,
    ensures
        (mask | bit) & other == if other == bit {
            bit
        } else {
            mask & other
        },
        (mask & !bit) & other == if other == bit {
            0
        } else {
            mask & other
        },
{
}

/// A button mask with one bit set or cleared.
pub open spec fn with_bit(mask: u16, bit: u16, set: bool) -> u16 {
    if set {
        mask | bit
    } else {
        mask & !bit
    }
}

/// The button mask of a report, kept folded.
#[verifier::opaque]
spec fn bits(buttons: GamepadButtons) -> u16 {
    buttons.mask() as u16
}

/// The bits of the mask, one by one.
proof fn bits_one_by_one(buttons: GamepadButtons, button: Button)
    ensures
        bits(buttons) & mask_of(button) == if buttons.holds(button) {
            mask_of(button)
        } else {
            0
        },
        bits(buttons) & 0x0800 == 0,
{
    reveal(bits);
    mask_is_made_of_weights(buttons, button);
}

/// What a press or release does to one bit of the mask.
proof fn press_and_one_bit(
    before: GamepadButtons,
    after: GamepadButtons,
    button: Button,
    pressed: bool,
    k: Button,
)
    requires
        forall|other: Button| #[trigger]
            after.holds(other) == (if other == button {
                pressed
            } else {
                before.holds(other)
            }),
    ensures
        bits(after) & mask_of(k) == with_bit(bits(before), mask_of(button), pressed) & mask_of(k),
{
    one_bit_changes(bits(before), mask_of(button), mask_of(k));
    bits_one_by_one(before, k);
    bits_one_by_one(after, k);
    assert((button == k) == (mask_of(button) == mask_of(k)));
}

/// A press sets the bit of the button, and a release clears it.
proof fn press_changes_one_bit(
    before: GamepadButtons,
    after: GamepadButtons,
    button: Button,
    pressed: bool,
)
    requires
        forall|other: Button| #[trigger]
            after.holds(other) == (if other == button {
                pressed
            } else {
                before.holds(other)
            }),
    ensures
        bits(after) == with_bit(bits(before), mask_of(button), pressed),
{
    press_and_one_bit(before, after, button, pressed, Button::DpadUp);
    press_and_one_bit(before, after, button, pressed, Button::DpadDown);
    press_and_one_bit(before, after, button, pressed, Button::DpadLeft);
    press_and_one_bit(before, after, button, pressed, Button::DpadRight);
    press_and_one_bit(before, after, button, pressed, Button::Start);
    press_and_one_bit(before, after, button, pressed, Button::Back);
    press_and_one_bit(before, after, button, pressed, Button::LeftThumb);
    press_and_one_bit(before, after, button, pressed, Button::RightThumb);
    press_and_one_bit(before, after, button, pressed, Button::LeftBumper);
    press_and_one_bit(before, after, button, pressed, Button::RightBumper);
    press_and_one_bit(before, after, button, pressed, Button::Guide);
    press_and_one_bit(before, after, button, pressed, Button::A);
    press_and_one_bit(before, after, button, pressed, Button::B);
    press_and_one_bit(before, after, button, pressed, Button::X);
    press_and_one_bit(before, after, button, pressed, Button::Y);
    bits_one_by_one(before, button);
    bits_one_by_one(after, button);
    one_bit_changes(bits(before), mask_of(button), 0x0800);
    bits_determine_the_mask(bits(after), with_bit(bits(before), mask_of(button), pressed));
}

/// A press or release of a button, as the report shows it.
proof fn press_in_the_report(state: GamepadState, button: Button, pressed: bool)
    ensures
        state.with_control(Control::Button(button), pressed).as_report().buttons == with_bit(
            state.as_report().buttons,
            mask_of(button),
            pressed,
        ),
{
    let before = state.buttons;
    let after = before.with_button(button, pressed);
    assert forall|other: Button| #[trigger]
        after.holds(other) == (if other == button {
            pressed
        } else {
            before.holds(other)
        }) by {
        crate::laws::button_press_is_local(before, button, pressed, other);
    }
    press_changes_one_bit(before, after, button, pressed);
    reveal(bits);
}

/// The names by which a phone presses the button that has a bit of the report.
pub open spec fn names_of_bit(bit: u16) -> Set<Seq<char>> {
    if bit == 0x0001 {
        set!["DPAD_UP"@]
    } else if bit == 0x0002 {
        set!["DPAD_DOWN"@]
    } else if bit == 0x0004 {
        set!["DPAD_LEFT"@]
    } else if bit == 0x0008 {
        set!["DPAD_RIGHT"@]
    } else if bit == 0x0010 {
        set!["START"@]
    } else if bit == 0x0020 {
        set!["BACK"@]
    } else if bit == 0x0040 {
        set!["LS"@]
    } else if bit == 0x0080 {
        set!["RS"@]
    } else if bit == 0x0100 {
        set!["LB"@]
    } else if bit == 0x0200 {
        set!["RB"@, "R"@]
    } else if bit == 0x0400 {
        set!["GUIDE"@]
    } else if bit == 0x1000 {
        set!["A"@, "JUMP"@]
    } else if bit == 0x2000 {
        set!["B"@]
    } else if bit == 0x4000 {
        set!["X"@, "COMBAT_X"@, "RACING_X"@]
    } else if bit == 0x8000 {
        set!["Y"@, "H"@]
    } else {
        set![]
    }
}

/// The names by which a phone pulls the left trigger.
pub open spec fn left_trigger_names() -> Set<Seq<char>> {
    set!["LT"@, "COMBAT_TARGET"@, "BRAKE"@]
}

/// The names by which a phone pulls the right trigger.
pub open spec fn right_trigger_names() -> Set<Seq<char>> {
    set!["RT"@, "FIRE"@, "ACCELERATE"@]
}

/// No two names of controls are the same.
proof fn names_of_controls()
    ensures
        named_control("DPAD_UP"@) == Some(Control::Button(Button::DpadUp)),
        named_control("DPAD_DOWN"@) == Some(Control::Button(Button::DpadDown)),
        named_control("DPAD_LEFT"@) == Some(Control::Button(Button::DpadLeft)),
        named_control("DPAD_RIGHT"@) == Some(Control::Button(Button::DpadRight)),
        named_control("A"@) == Some(Control::Button(Button::A)),
        named_control("JUMP"@) == Some(Control::Button(Button::A)),
        named_control("B"@) == Some(Control::Button(Button::B)),
        named_control("X"@) == Some(Control::Button(Button::X)),
        named_control("COMBAT_X"@) == Some(Control::Button(Button::X)),
        named_control("RACING_X"@) == Some(Control::Button(Button::X)),
        named_control("Y"@) == Some(Control::Button(Button::Y)),
        named_control("H"@) == Some(Control::Button(Button::Y)),
        named_control("LB"@) == Some(Control::Button(Button::LeftBumper)),
        named_control("RB"@) == Some(Control::Button(Button::RightBumper)),
        named_control("R"@) == Some(Control::Button(Button::RightBumper)),
        named_control("LS"@) == Some(Control::Button(Button::LeftThumb)),
        named_control("RS"@) == Some(Control::Button(Button::RightThumb)),
        named_control("BACK"@) == Some(Control::Button(Button::Back)),
        named_control("START"@) == Some(Control::Button(Button::Start)),
        named_control("GUIDE"@) == Some(Control::Button(Button::Guide)),
        named_control("LT"@) == Some(Control::LeftTrigger),
        named_control("COMBAT_TARGET"@) == Some(Control::LeftTrigger),
        named_control("BRAKE"@) == Some(Control::LeftTrigger),
        named_control("RT"@) == Some(Control::RightTrigger),
        named_control("FIRE"@) == Some(Control::RightTrigger),
        named_control("ACCELERATE"@) == Some(Control::RightTrigger),
{
    reveal_strlit("DPAD_UP");
    reveal_strlit("DPAD_DOWN");
    reveal_strlit("DPAD_LEFT");
    reveal_strlit("DPAD_RIGHT");
    reveal_strlit("A");
    reveal_strlit("JUMP");
    reveal_strlit("B");
    reveal_strlit("X");
    reveal_strlit("COMBAT_X");
    reveal_strlit("RACING_X");
    reveal_strlit("Y");
    reveal_strlit("H");
    reveal_strlit("LB");
    reveal_strlit("RB");
    reveal_strlit("R");
    reveal_strlit("LS");
    reveal_strlit("RS");
    reveal_strlit("BACK");
    reveal_strlit("START");
    reveal_strlit("GUIDE");
    reveal_strlit("LT");
    reveal_strlit("COMBAT_TARGET");
    reveal_strlit("BRAKE");
    reveal_strlit("RT");
    reveal_strlit("FIRE");
    reveal_strlit("ACCELERATE");
    assert("DPAD_UP"@.len() == 7);
    assert("DPAD_DOWN"@.len() == 9);
    assert("DPAD_LEFT"@.len() == 9);
    assert("DPAD_RIGHT"@.len() == 10);
    assert("A"@.len() == 1);
    assert("JUMP"@.len() == 4);
    assert("B"@.len() == 1);
    assert("X"@.len() == 1);
    assert("COMBAT_X"@.len() == 8);
    assert("RACING_X"@.len() == 8);
    assert("Y"@.len() == 1);
    assert("H"@.len() == 1);
    assert("LB"@.len() == 2);
    assert("RB"@.len() == 2);
    assert("R"@.len() == 1);
    assert("LS"@.len() == 2);
    assert("RS"@.len() == 2);
    assert("BACK"@.len() == 4);
    assert("START"@.len() == 5);
    assert("GUIDE"@.len() == 5);
    assert("LT"@.len() == 2);
    assert("COMBAT_TARGET"@.len() == 13);
    assert("BRAKE"@.len() == 5);
    assert("RT"@.len() == 2);
    assert("FIRE"@.len() == 4);
    assert("ACCELERATE"@.len() == 10);
    assert("DPAD_DOWN"@[5] == 'D' && "DPAD_LEFT"@[5] == 'L');
    assert("DPAD_RIGHT"@[0] == 'D' && "ACCELERATE"@[0] == 'A');
    assert("A"@[0] == 'A' && "B"@[0] == 'B' && "X"@[0] == 'X' && "Y"@[0] == 'Y' && "H"@[0] == 'H'
        && "R"@[0] == 'R');
    assert("JUMP"@[0] == 'J' && "BACK"@[0] == 'B' && "FIRE"@[0] == 'F');
    assert("COMBAT_X"@[0] == 'C' && "RACING_X"@[0] == 'R');
    assert("LB"@[0] == 'L' && "LS"@[0] == 'L' && "LT"@[0] == 'L');
    assert("RB"@[0] == 'R' && "RS"@[0] == 'R' && "RT"@[0] == 'R');
    assert("LB"@[1] == 'B' && "LS"@[1] == 'S' && "LT"@[1] == 'T');
    assert("RB"@[1] == 'B' && "RS"@[1] == 'S' && "RT"@[1] == 'T');
    assert("START"@[0] == 'S' && "GUIDE"@[0] == 'G' && "BRAKE"@[0] == 'B');
}

/// A press by name sets the bit of that button in the report, a release clears it, and the
/// rest of the report stays as it is.
pub proof fn named_button_moves_its_bit(
    state: GamepadState,
    name: Seq<char>,
    bit: u16,
    pressed: bool,
)
    requires
        names_of_bit(bit).contains(name),
    ensures
        ({
            let before = state.as_report();
            let after = state.with_named(name, pressed).as_report();
            &&& after.buttons == (if pressed {
                before.buttons | bit
            } else {
                before.buttons & !bit
            })
            &&& after.left_trigger == before.left_trigger
            &&& after.right_trigger == before.right_trigger
            &&& after.thumb_lx == before.thumb_lx
            &&& after.thumb_ly == before.thumb_ly
            &&& after.thumb_rx == before.thumb_rx
            &&& after.thumb_ry == before.thumb_ry
        }),
{
    names_of_controls();
    let control = named_control(name);
    assert(control matches Some(Control::Button(button)) && mask_of(button) == bit);
    if let Some(Control::Button(button)) = control {
        press_in_the_report(state, button, pressed);
    }
}

/// A press by name pulls that trigger to the end, a release lets it go, and the rest of the
/// report stays as it is.
pub proof fn named_trigger_goes_all_the_way(state: GamepadState, name: Seq<char>, pressed: bool)
    requires
        left_trigger_names().contains(name) || right_trigger_names().contains(name),
    ensures
        ({
            let before = state.as_report();
            let after = state.with_named(name, pressed).as_report();
            let travel: u8 = if pressed {
                255
            } else {
                0
            };
            &&& after.left_trigger == (if left_trigger_names().contains(name) {
                travel
            } else {
                before.left_trigger
            })
            &&& after.right_trigger == (if right_trigger_names().contains(name) {
                travel
            } else {
                before.right_trigger
            })
            &&& after.buttons == before.buttons
            &&& after.thumb_lx == before.thumb_lx
            &&& after.thumb_ly == before.thumb_ly
            &&& after.thumb_rx == before.thumb_rx
            &&& after.thumb_ry == before.thumb_ry
        }),
{
    names_of_controls();
}

/// Any other name moves nothing.
pub proof fn unknown_name_moves_nothing(state: GamepadState, name: Seq<char>, pressed: bool)
    requires
        forall|bit: u16| !(#[trigger] names_of_bit(bit)).contains(name),
        !left_trigger_names().contains(name),
        !right_trigger_names().contains(name),
    ensures
        state.with_named(name, pressed) == state,
{
    assert(!names_of_bit(0x0001).contains(name));
    assert(!names_of_bit(0x0002).contains(name));
    assert(!names_of_bit(0x0004).contains(name));
    assert(!names_of_bit(0x0008).contains(name));
    assert(!names_of_bit(0x0010).contains(name));
    assert(!names_of_bit(0x0020).contains(name));
    assert(!names_of_bit(0x0040).contains(name));
    assert(!names_of_bit(0x0080).contains(name));
    assert(!names_of_bit(0x0100).contains(name));
    assert(!names_of_bit(0x0200).contains(name));
    assert(!names_of_bit(0x0400).contains(name));
    assert(!names_of_bit(0x1000).contains(name));
    assert(!names_of_bit(0x2000).contains(name));
    assert(!names_of_bit(0x4000).contains(name));
    assert(!names_of_bit(0x8000).contains(name));
}

/// The triggers and sticks of the report are those of the gamepad.
pub proof fn report_shows_triggers_and_sticks(state: GamepadState)
    ensures
        state.as_report().left_trigger == state.left_trigger,
        state.as_report().right_trigger == state.right_trigger,
        state.as_report().thumb_lx == state.thumb_lx,
        state.as_report().thumb_ly == state.thumb_ly,
        state.as_report().thumb_rx == state.thumb_rx,
        state.as_report().thumb_ry == state.thumb_ry,
{
}

/// At rest no bit of the report is set, and triggers and sticks are at zero.
pub proof fn rest_is_all_zeros()
    ensures
        neutral().as_report().buttons == 0,
        neutral().left_trigger == 0,
        neutral().right_trigger == 0,
        neutral().thumb_lx == 0,
        neutral().thumb_ly == 0,
        neutral().thumb_rx == 0,
        neutral().thumb_ry == 0,
{
    crate::laws::neutral_gamepad_reports_zeros();
}

/// A binary message is a packet of a player exactly if it has between twelve and sixty-four
/// bytes and its first byte is the player's number. A wrong length is noticed first.
pub proof fn length_and_number_make_a_packet(bin: Seq<u8>, player_id: usize)
    ensures
        (reading(bin, player_id) is Ok) == (12 <= bin.len() <= 64 && bin[0] == player_id),
        (reading(bin, player_id) == Err::<Packet, PacketFault>(PacketFault::BadLength)) == (
        bin.len() < 12 || bin.len() > 64),
        (reading(bin, player_id) == Err::<Packet, PacketFault>(PacketFault::WrongPlayer)) == (12
            <= bin.len() <= 64 && bin[0] != player_id),
{
}

/// The fields of a packet are the bytes that the phone sent: nothing is lost or changed.
pub proof fn fields_of_a_packet_are_its_bytes(bin: Seq<u8>, player_id: usize, packet: Packet)
    requires
        reading(bin, player_id) == Ok::<Packet, PacketFault>(packet),
    ensures
        packet.sequence == bin[1] * 256 + bin[2],
        packet.msg_type == bin[3],
        packet.buttons == bin[4] * 256 + bin[5],
        packet.left_trigger == bin[6],
        packet.right_trigger == bin[7],
        packet_bytes(bin[0], packet) == bin.take(12),
{
    let (lx, ly, rx, ry) = (bin[8], bin[9], bin[10], bin[11]);
    assert((lx as i8) as u8 == lx) by (bit_vector);
    assert((ly as i8) as u8 == ly) by (bit_vector);
    assert((rx as i8) as u8 == rx) by (bit_vector);
    assert((ry as i8) as u8 == ry) by (bit_vector);
    assert(packet_bytes(bin[0], packet) =~= bin.take(12));
}

/// A packet is newer than the last one exactly if it is between one and 0x8000 numbers
/// ahead, counting on from 65535 to 0.
pub proof fn newer_is_up_to_half_ahead(last: u16, ahead: u16)
    ensures
        newer(last, last.wrapping_add(ahead)) == (1 <= ahead <= 0x8000),
{
}

} // verus!
