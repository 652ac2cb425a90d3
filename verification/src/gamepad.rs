//! The state of one gamepad and the report that a virtual Xbox 360 controller takes.

use vstd::prelude::*;

use crate::text::same_text;

verus! {

/// The digital buttons of a gamepad.
#[derive(Clone, Copy, Debug, PartialEq, Eq, Structural)]
pub struct GamepadButtons {
    pub dpad_up: bool,
    pub dpad_down: bool,
    pub dpad_left: bool,
    pub dpad_right: bool,
    pub start: bool,
    pub back: bool,
    pub lthumb: bool,
    pub rthumb: bool,
    pub lb: bool,
    pub rb: bool,
    pub guide: bool,
    pub a: bool,
    pub b: bool,
    pub x: bool,
    pub y: bool,
}

/// Everything that a player can hold down or move.
#[derive(Clone, Copy, Debug, PartialEq, Eq, Structural)]
pub struct GamepadState {
    pub buttons: GamepadButtons,
    pub left_trigger: u8,
    pub right_trigger: u8,
    pub thumb_lx: i16,
    pub thumb_ly: i16,
    pub thumb_rx: i16,
    pub thumb_ry: i16,
}

/// The input report of a virtual Xbox 360 controller.
#[derive(Clone, Copy, Debug, PartialEq, Eq, Structural)]
pub struct XGamepad {
    pub buttons: u16,
    pub left_trigger: u8,
    pub right_trigger: u8,
    pub thumb_lx: i16,
    pub thumb_ly: i16,
    pub thumb_rx: i16,
    pub thumb_ry: i16,
}

/// A button of the Xbox 360 controller.
#[derive(Clone, Copy, Debug, PartialEq, Eq, Structural)]
pub enum Button {
    DpadUp,
    DpadDown,
    DpadLeft,
    DpadRight,
    Start,
    Back,
    LeftThumb,
    RightThumb,
    LeftBumper,
    RightBumper,
    Guide,
    A,
    B,
    X,
    Y,
}

/// A button or a trigger that a phone can address by name.
#[derive(Clone, Copy, Debug, PartialEq, Eq, Structural)]
pub enum Control {
    Button(Button),
    LeftTrigger,
    RightTrigger,
}

/// The bit of the report's button mask that belongs to a button.
pub open spec fn mask_of(button: Button) -> u16 {
    match button {
        Button::DpadUp => 0x0001,
        Button::DpadDown => 0x0002,
        Button::DpadLeft => 0x0004,
        Button::DpadRight => 0x0008,
        Button::Start => 0x0010,
        Button::Back => 0x0020,
        Button::LeftThumb => 0x0040,
        Button::RightThumb => 0x0080,
        Button::LeftBumper => 0x0100,
        Button::RightBumper => 0x0200,
        Button::Guide => 0x0400,
        Button::A => 0x1000,
        Button::B => 0x2000,
        Button::X => 0x4000,
        Button::Y => 0x8000,
    }
}

/// No button held.
pub open spec fn released() -> GamepadButtons {
    GamepadButtons {
        dpad_up: false,
        dpad_down: false,
        dpad_left: false,
        dpad_right: false,
        start: false,
        back: false,
        lthumb: false,
        rthumb: false,
        lb: false,
        rb: false,
        guide: false,
        a: false,
        b: false,
        x: false,
        y: false,
    }
}

/// No button held, no trigger pulled, both sticks centred.
pub open spec fn neutral() -> GamepadState {
    GamepadState {
        buttons: released(),
        left_trigger: 0,
        right_trigger: 0,
        thumb_lx: 0,
        thumb_ly: 0,
        thumb_rx: 0,
        thumb_ry: 0,
    }
}

/// The report of a gamepad that nobody touches.
pub open spec fn neutral_report() -> XGamepad {
    XGamepad {
        buttons: 0,
        left_trigger: 0,
        right_trigger: 0,
        thumb_lx: 0,
        thumb_ly: 0,
        thumb_rx: 0,
        thumb_ry: 0,
    }
}

/// Two sets of buttons are equal that hold the same ones.
pub proof fn equal_buttons(one: GamepadButtons, other: GamepadButtons)
    requires
        forall|button: Button| #[trigger] one.holds(button) == other.holds(button),
    ensures
        one == other,
{
    assert(one.holds(Button::DpadUp) == other.holds(Button::DpadUp));
    assert(one.holds(Button::DpadDown) == other.holds(Button::DpadDown));
    assert(one.holds(Button::DpadLeft) == other.holds(Button::DpadLeft));
    assert(one.holds(Button::DpadRight) == other.holds(Button::DpadRight));
    assert(one.holds(Button::Start) == other.holds(Button::Start));
    assert(one.holds(Button::Back) == other.holds(Button::Back));
    assert(one.holds(Button::LeftThumb) == other.holds(Button::LeftThumb));
    assert(one.holds(Button::RightThumb) == other.holds(Button::RightThumb));
    assert(one.holds(Button::LeftBumper) == other.holds(Button::LeftBumper));
    assert(one.holds(Button::RightBumper) == other.holds(Button::RightBumper));
    assert(one.holds(Button::Guide) == other.holds(Button::Guide));
    assert(one.holds(Button::A) == other.holds(Button::A));
    assert(one.holds(Button::B) == other.holds(Button::B));
    assert(one.holds(Button::X) == other.holds(Button::X));
    assert(one.holds(Button::Y) == other.holds(Button::Y));
}

impl GamepadButtons {
    /// Whether a button is held.
    pub open spec fn holds(self, button: Button) -> bool {
        match button {
            Button::DpadUp => self.dpad_up,
            Button::DpadDown => self.dpad_down,
            Button::DpadLeft => self.dpad_left,
            Button::DpadRight => self.dpad_right,
            Button::Start => self.start,
            Button::Back => self.back,
            Button::LeftThumb => self.lthumb,
            Button::RightThumb => self.rthumb,
            Button::LeftBumper => self.lb,
            Button::RightBumper => self.rb,
            Button::Guide => self.guide,
            Button::A => self.a,
            Button::B => self.b,
            Button::X => self.x,
            Button::Y => self.y,
        }
    }

    /// What a button adds to the mask of a report: its bit while it is held.
    pub open spec fn weight(self, button: Button) -> int {
        if self.holds(button) {
            mask_of(button) as int
        } else {
            0
        }
    }

    /// [`GamepadButtons::weight`], kept folded.
    #[verifier::opaque]
    spec fn folded_weight(self, button: Button) -> int {
        self.weight(button)
    }

    /// The button mask of a report: the bits of the buttons held.
    pub open spec fn mask(self) -> int {
        self.weight(Button::DpadUp)
            + self.weight(Button::DpadDown)
            + self.weight(Button::DpadLeft)
            + self.weight(Button::DpadRight)
            + self.weight(Button::Start)
            + self.weight(Button::Back)
            + self.weight(Button::LeftThumb)
            + self.weight(Button::RightThumb)
            + self.weight(Button::LeftBumper)
            + self.weight(Button::RightBumper)
            + self.weight(Button::Guide)
            + self.weight(Button::A)
            + self.weight(Button::B)
            + self.weight(Button::X)
            + self.weight(Button::Y)
    }

    /// The buttons whose bits are set in a mask.
    pub open spec fn of_mask(raw: u16) -> GamepadButtons {
        GamepadButtons {
            dpad_up: raw & 0x0001 != 0,
            dpad_down: raw & 0x0002 != 0,
            dpad_left: raw & 0x0004 != 0,
            dpad_right: raw & 0x0008 != 0,
            start: raw & 0x0010 != 0,
            back: raw & 0x0020 != 0,
            lthumb: raw & 0x0040 != 0,
            rthumb: raw & 0x0080 != 0,
            lb: raw & 0x0100 != 0,
            rb: raw & 0x0200 != 0,
            guide: raw & 0x0400 != 0,
            a: raw & 0x1000 != 0,
            b: raw & 0x2000 != 0,
            x: raw & 0x4000 != 0,
            y: raw & 0x8000 != 0,
        }
    }

    /// The buttons with one of them held or released.
    pub open spec fn with_button(self, button: Button, pressed: bool) -> GamepadButtons {
        GamepadButtons {
            dpad_up: if button is DpadUp {
                pressed
            } else {
                self.dpad_up
            },
            dpad_down: if button is DpadDown {
                pressed
            } else {
                self.dpad_down
            },
            dpad_left: if button is DpadLeft {
                pressed
            } else {
                self.dpad_left
            },
            dpad_right: if button is DpadRight {
                pressed
            } else {
                self.dpad_right
            },
            start: if button is Start {
                pressed
            } else {
                self.start
            },
            back: if button is Back {
                pressed
            } else {
                self.back
            },
            lthumb: if button is LeftThumb {
                pressed
            } else {
                self.lthumb
            },
            rthumb: if button is RightThumb {
                pressed
            } else {
                self.rthumb
            },
            lb: if button is LeftBumper {
                pressed
            } else {
                self.lb
            },
            rb: if button is RightBumper {
                pressed
            } else {
                self.rb
            },
            guide: if button is Guide {
                pressed
            } else {
                self.guide
            },
            a: if button is A {
                pressed
            } else {
                self.a
            },
            b: if button is B {
                pressed
            } else {
                self.b
            },
            x: if button is X {
                pressed
            } else {
                self.x
            },
            y: if button is Y {
                pressed
            } else {
                self.y
            },
        }
    }

    /// Sets the field of a button.
    fn assign(&mut self, button: Button, pressed: bool)
        ensures
            final(self).dpad_up == (if button is DpadUp {
                pressed
            } else {
                old(self).dpad_up
            }),
            final(self).dpad_down == (if button is DpadDown {
                pressed
            } else {
                old(self).dpad_down
            }),
            final(self).dpad_left == (if button is DpadLeft {
                pressed
            } else {
                old(self).dpad_left
            }),
            final(self).dpad_right == (if button is DpadRight {
                pressed
            } else {
                old(self).dpad_right
            }),
            final(self).start == (if button is Start {
                pressed
            } else {
                old(self).start
            }),
            final(self).back == (if button is Back {
                pressed
            } else {
                old(self).back
            }),
            final(self).lthumb == (if button is LeftThumb {
                pressed
            } else {
                old(self).lthumb
            }),
            final(self).rthumb == (if button is RightThumb {
                pressed
            } else {
                old(self).rthumb
            }),
            final(self).lb == (if button is LeftBumper {
                pressed
            } else {
                old(self).lb
            }),
            final(self).rb == (if button is RightBumper {
                pressed
            } else {
                old(self).rb
            }),
            final(self).guide == (if button is Guide {
                pressed
            } else {
                old(self).guide
            }),
            final(self).a == (if button is A {
                pressed
            } else {
                old(self).a
            }),
            final(self).b == (if button is B {
                pressed
            } else {
                old(self).b
            }),
            final(self).x == (if button is X {
                pressed
            } else {
                old(self).x
            }),
            final(self).y == (if button is Y {
                pressed
            } else {
                old(self).y
            }),
    {
        match button {
            Button::DpadUp => self.dpad_up = pressed,
            Button::DpadDown => self.dpad_down = pressed,
            Button::DpadLeft => self.dpad_left = pressed,
            Button::DpadRight => self.dpad_right = pressed,
            Button::Start => self.start = pressed,
            Button::Back => self.back = pressed,
            Button::LeftThumb => self.lthumb = pressed,
            Button::RightThumb => self.rthumb = pressed,
            Button::LeftBumper => self.lb = pressed,
            Button::RightBumper => self.rb = pressed,
            Button::Guide => self.guide = pressed,
            Button::A => self.a = pressed,
            Button::B => self.b = pressed,
            Button::X => self.x = pressed,
            Button::Y => self.y = pressed,
        }
    }

    /// Holds or releases one button and leaves the others alone.
    pub fn set_button(&mut self, button: Button, pressed: bool)
        ensures
            *final(self) == old(self).with_button(button, pressed),
    {
        self.assign(button, pressed);
        proof {
            equal_buttons(*self, old(self).with_button(button, pressed));
        }
    }

    /// Adds the bit of a button held to a mask whose bits are all lower.
    fn with_bit(&self, v: u16, button: Button) -> (r: u16)
        requires
            v < mask_of(button),
        ensures
            r == v + self.folded_weight(button),
            r < mask_of(button) + mask_of(button),
    {
        reveal(GamepadButtons::folded_weight);
        let (held, mask): (bool, u16) = match button {
            Button::DpadUp => (self.dpad_up, 0x0001),
            Button::DpadDown => (self.dpad_down, 0x0002),
            Button::DpadLeft => (self.dpad_left, 0x0004),
            Button::DpadRight => (self.dpad_right, 0x0008),
            Button::Start => (self.start, 0x0010),
            Button::Back => (self.back, 0x0020),
            Button::LeftThumb => (self.lthumb, 0x0040),
            Button::RightThumb => (self.rthumb, 0x0080),
            Button::LeftBumper => (self.lb, 0x0100),
            Button::RightBumper => (self.rb, 0x0200),
            Button::Guide => (self.guide, 0x0400),
            Button::A => (self.a, 0x1000),
            Button::B => (self.b, 0x2000),
            Button::X => (self.x, 0x4000),
            Button::Y => (self.y, 0x8000),
        };
        assert(v | mask == v + mask) by (bit_vector)
            requires
                v < mask,
                mask == 0x0001 || mask == 0x0002 || mask == 0x0004 || mask == 0x0008 || mask == 0x0010 || mask == 0x0020 || mask == 0x0040 || mask == 0x0080 || mask == 0x0100 || mask == 0x0200 || mask == 0x0400 || mask == 0x1000 || mask == 0x2000 || mask == 0x4000 || mask == 0x8000,
        ;
        if held {
            v | mask
        } else {
            v
        }
    }

    /// The button mask as the report carries it.
    pub fn raw(&self) -> (v: u16)
        ensures
            v == self.mask(),
    {
        let v: u16 = 0;
        let v: u16 = self.with_bit(v, Button::DpadUp);
        let v: u16 = self.with_bit(v, Button::DpadDown);
        let v: u16 = self.with_bit(v, Button::DpadLeft);
        let v: u16 = self.with_bit(v, Button::DpadRight);
        let v: u16 = self.with_bit(v, Button::Start);
        let v: u16 = self.with_bit(v, Button::Back);
        let v: u16 = self.with_bit(v, Button::LeftThumb);
        let v: u16 = self.with_bit(v, Button::RightThumb);
        let v: u16 = self.with_bit(v, Button::LeftBumper);
        let v: u16 = self.with_bit(v, Button::RightBumper);
        let v: u16 = self.with_bit(v, Button::Guide);
        let v: u16 = self.with_bit(v, Button::A);
        let v: u16 = self.with_bit(v, Button::B);
        let v: u16 = self.with_bit(v, Button::X);
        let v: u16 = self.with_bit(v, Button::Y);
        proof {
            reveal(GamepadButtons::folded_weight);
        }
        v
    }

    /// The buttons that a mask names; bit `0x0800` belongs to none.
    pub fn from_raw(raw: u16) -> (buttons: GamepadButtons)
        ensures
            buttons == GamepadButtons::of_mask(raw),
    {
        GamepadButtons {
            dpad_up: (raw & 0x0001) != 0,
            dpad_down: (raw & 0x0002) != 0,
            dpad_left: (raw & 0x0004) != 0,
            dpad_right: (raw & 0x0008) != 0,
            start: (raw & 0x0010) != 0,
            back: (raw & 0x0020) != 0,
            lthumb: (raw & 0x0040) != 0,
            rthumb: (raw & 0x0080) != 0,
            lb: (raw & 0x0100) != 0,
            rb: (raw & 0x0200) != 0,
            guide: (raw & 0x0400) != 0,
            a: (raw & 0x1000) != 0,
            b: (raw & 0x2000) != 0,
            x: (raw & 0x4000) != 0,
            y: (raw & 0x8000) != 0,
        }
    }
}

impl Default for GamepadButtons {
    fn default() -> (buttons: GamepadButtons)
        ensures
            buttons == released(),
    {
        GamepadButtons {
            dpad_up: false,
            dpad_down: false,
            dpad_left: false,
            dpad_right: false,
            start: false,
            back: false,
            lthumb: false,
            rthumb: false,
            lb: false,
            rb: false,
            guide: false,
            a: false,
            b: false,
            x: false,
            y: false,
        }
    }
}

impl Default for GamepadState {
    fn default() -> (state: GamepadState)
        ensures
            state == neutral(),
    {
        GamepadState {
            buttons: GamepadButtons::default(),
            left_trigger: 0,
            right_trigger: 0,
            thumb_lx: 0,
            thumb_ly: 0,
            thumb_rx: 0,
            thumb_ry: 0,
        }
    }
}

/// The control that a phone means by a name; several names share a control.
pub open spec fn named_control(name: Seq<char>) -> Option<Control> {
    if name == "DPAD_UP"@ {
        Some(Control::Button(Button::DpadUp))
    } else if name == "DPAD_DOWN"@ {
        Some(Control::Button(Button::DpadDown))
    } else if name == "DPAD_LEFT"@ {
        Some(Control::Button(Button::DpadLeft))
    } else if name == "DPAD_RIGHT"@ {
        Some(Control::Button(Button::DpadRight))
    } else if name == "A"@ || name == "JUMP"@ {
        Some(Control::Button(Button::A))
    } else if name == "B"@ {
        Some(Control::Button(Button::B))
    } else if name == "X"@ || name == "COMBAT_X"@ || name == "RACING_X"@ {
        Some(Control::Button(Button::X))
    } else if name == "Y"@ || name == "H"@ {
        Some(Control::Button(Button::Y))
    } else if name == "LB"@ {
        Some(Control::Button(Button::LeftBumper))
    } else if name == "RB"@ || name == "R"@ {
        Some(Control::Button(Button::RightBumper))
    } else if name == "LS"@ {
        Some(Control::Button(Button::LeftThumb))
    } else if name == "RS"@ {
        Some(Control::Button(Button::RightThumb))
    } else if name == "BACK"@ {
        Some(Control::Button(Button::Back))
    } else if name == "START"@ {
        Some(Control::Button(Button::Start))
    } else if name == "GUIDE"@ {
        Some(Control::Button(Button::Guide))
    } else if name == "LT"@ || name == "COMBAT_TARGET"@ || name == "BRAKE"@ {
        Some(Control::LeftTrigger)
    } else if name == "RT"@ || name == "FIRE"@ || name == "ACCELERATE"@ {
        Some(Control::RightTrigger)
    } else {
        None
    }
}

/// Finds the control that a phone means by a name.
pub fn control_of(name: &str) -> (control: Option<Control>)
    ensures
        control == named_control(name@),
{
    if same_text(name, "DPAD_UP") {
        Some(Control::Button(Button::DpadUp))
    } else if same_text(name, "DPAD_DOWN") {
        Some(Control::Button(Button::DpadDown))
    } else if same_text(name, "DPAD_LEFT") {
        Some(Control::Button(Button::DpadLeft))
    } else if same_text(name, "DPAD_RIGHT") {
        Some(Control::Button(Button::DpadRight))
    } else if same_text(name, "A") || same_text(name, "JUMP") {
        Some(Control::Button(Button::A))
    } else if same_text(name, "B") {
        Some(Control::Button(Button::B))
    } else if same_text(name, "X") || same_text(name, "COMBAT_X") || same_text(name, "RACING_X") {
        Some(Control::Button(Button::X))
    } else if same_text(name, "Y") || same_text(name, "H") {
        Some(Control::Button(Button::Y))
    } else if same_text(name, "LB") {
        Some(Control::Button(Button::LeftBumper))
    } else if same_text(name, "RB") || same_text(name, "R") {
        Some(Control::Button(Button::RightBumper))
    } else if same_text(name, "LS") {
        Some(Control::Button(Button::LeftThumb))
    } else if same_text(name, "RS") {
        Some(Control::Button(Button::RightThumb))
    } else if same_text(name, "BACK") {
        Some(Control::Button(Button::Back))
    } else if same_text(name, "START") {
        Some(Control::Button(Button::Start))
    } else if same_text(name, "GUIDE") {
        Some(Control::Button(Button::Guide))
    } else if same_text(name, "LT") || same_text(name, "COMBAT_TARGET") || same_text(name, "BRAKE") {
        Some(Control::LeftTrigger)
    } else if same_text(name, "RT") || same_text(name, "FIRE") || same_text(name, "ACCELERATE") {
        Some(Control::RightTrigger)
    } else {
        None
    }
}

impl GamepadState {
    /// The state with one control fully down or fully up.
    pub open spec fn with_control(self, control: Control, pressed: bool) -> GamepadState {
        let travel: u8 = if pressed {
            255
        } else {
            0
        };
        match control {
            Control::Button(button) => GamepadState {
                buttons: self.buttons.with_button(button, pressed),
                ..self
            },
            Control::LeftTrigger => GamepadState { left_trigger: travel, ..self },
            Control::RightTrigger => GamepadState { right_trigger: travel, ..self },
        }
    }

    /// The state after a phone pressed or released the control of that name;
    /// a name that means no control changes nothing.
    pub open spec fn with_named(self, name: Seq<char>, pressed: bool) -> GamepadState {
        match named_control(name) {
            Some(control) => self.with_control(control, pressed),
            None => self,
        }
    }

    /// Puts one control fully down or fully up and leaves the others alone.
    pub fn set_control(&mut self, control: Control, pressed: bool)
        ensures
            *final(self) == old(self).with_control(control, pressed),
    {
        match control {
            Control::Button(button) => self.buttons.set_button(button, pressed),
            Control::LeftTrigger => {
                self.left_trigger = if pressed { 255 } else { 0 };
            },
            Control::RightTrigger => {
                self.right_trigger = if pressed { 255 } else { 0 };
            },
        }
    }

    /// The report that shows this state to a virtual controller.
    pub open spec fn as_report(self) -> XGamepad {
        XGamepad {
            buttons: self.buttons.mask() as u16,
            left_trigger: self.left_trigger,
            right_trigger: self.right_trigger,
            thumb_lx: self.thumb_lx,
            thumb_ly: self.thumb_ly,
            thumb_rx: self.thumb_rx,
            thumb_ry: self.thumb_ry,
        }
    }

    /// Makes the report that shows this state to a virtual controller.
    pub fn report(&self) -> (report: XGamepad)
        ensures
            report == self.as_report(),
    {
        XGamepad {
            buttons: self.buttons.raw(),
            left_trigger: self.left_trigger,
            right_trigger: self.right_trigger,
            thumb_lx: self.thumb_lx,
            thumb_ly: self.thumb_ly,
            thumb_rx: self.thumb_rx,
            thumb_ry: self.thumb_ry,
        }
    }
}

} // verus!
