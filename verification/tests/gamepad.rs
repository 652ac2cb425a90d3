use web_controller::gamepad::{
    control_of, Button, Control, GamepadButtons, GamepadState, XGamepad,
};
use web_controller::player::{apply_button, PlayerController, XboxTarget};

const MASKS: [u16; 15] = [
    0x0001, 0x0002, 0x0004, 0x0008, 0x0010, 0x0020, 0x0040, 0x0080, 0x0100, 0x0200, 0x0400, 0x1000,
    0x2000, 0x4000, 0x8000,
];

const BUTTONS: [Button; 15] = [
    Button::DpadUp,
    Button::DpadDown,
    Button::DpadLeft,
    Button::DpadRight,
    Button::Start,
    Button::Back,
    Button::LeftThumb,
    Button::RightThumb,
    Button::LeftBumper,
    Button::RightBumper,
    Button::Guide,
    Button::A,
    Button::B,
    Button::X,
    Button::Y,
];

#[test]
fn raw_of_nothing_is_zero() {
    assert_eq!(GamepadButtons::default().raw(), 0);
}

#[test]
fn raw_of_everything_leaves_the_reserved_bit() {
    assert_eq!(GamepadButtons::from_raw(0xffff).raw(), 0xf7ff);
}

#[test]
fn raw_gives_each_button_its_bit() {
    for (button, mask) in BUTTONS.iter().zip(MASKS) {
        let mut buttons = GamepadButtons::default();
        buttons.set_button(*button, true);
        assert_eq!(buttons.raw(), mask);
        buttons.set_button(*button, false);
        assert_eq!(buttons, GamepadButtons::default());
    }
}

#[test]
fn raw_of_a_and_up() {
    let mut buttons = GamepadButtons::default();
    buttons.a = true;
    buttons.dpad_up = true;
    assert_eq!(buttons.raw(), 0x1001);
}

#[test]
fn masks_and_buttons_round_trip() {
    for raw in 0..=0xffffu16 {
        let buttons = GamepadButtons::from_raw(raw);
        assert_eq!(buttons.raw(), raw & 0xf7ff);
        assert_eq!(GamepadButtons::from_raw(buttons.raw()), buttons);
    }
}

#[test]
fn from_raw_reads_single_bits() {
    let buttons = GamepadButtons::from_raw(0x8020);
    assert!(buttons.y && buttons.back);
    assert!(!buttons.x && !buttons.start && !buttons.a);
    assert_eq!(GamepadButtons::from_raw(0x0800), GamepadButtons::default());
}

#[test]
fn every_name_means_its_control() {
    let names = [
        ("DPAD_UP", Control::Button(Button::DpadUp)),
        ("DPAD_DOWN", Control::Button(Button::DpadDown)),
        ("DPAD_LEFT", Control::Button(Button::DpadLeft)),
        ("DPAD_RIGHT", Control::Button(Button::DpadRight)),
        ("A", Control::Button(Button::A)),
        ("JUMP", Control::Button(Button::A)),
        ("B", Control::Button(Button::B)),
        ("X", Control::Button(Button::X)),
        ("COMBAT_X", Control::Button(Button::X)),
        ("RACING_X", Control::Button(Button::X)),
        ("Y", Control::Button(Button::Y)),
        ("H", Control::Button(Button::Y)),
        ("LB", Control::Button(Button::LeftBumper)),
        ("RB", Control::Button(Button::RightBumper)),
        ("R", Control::Button(Button::RightBumper)),
        ("LS", Control::Button(Button::LeftThumb)),
        ("RS", Control::Button(Button::RightThumb)),
        ("BACK", Control::Button(Button::Back)),
        ("START", Control::Button(Button::Start)),
        ("GUIDE", Control::Button(Button::Guide)),
        ("LT", Control::LeftTrigger),
        ("COMBAT_TARGET", Control::LeftTrigger),
        ("BRAKE", Control::LeftTrigger),
        ("RT", Control::RightTrigger),
        ("FIRE", Control::RightTrigger),
        ("ACCELERATE", Control::RightTrigger),
    ];
    for (name, control) in names {
        assert_eq!(control_of(name), Some(control));
    }
    for name in ["", "a", "DPAD", "LTT", "jump", "Ä"] {
        assert_eq!(control_of(name), None);
    }
}

#[test]
fn triggers_go_all_the_way() {
    let mut state = GamepadState::default();
    state.set_control(Control::LeftTrigger, true);
    assert_eq!(state.left_trigger, 255);
    assert_eq!(state.right_trigger, 0);
    state.set_control(Control::RightTrigger, true);
    state.set_control(Control::LeftTrigger, false);
    assert_eq!(state.left_trigger, 0);
    assert_eq!(state.right_trigger, 255);
}

#[test]
fn the_last_press_counts() {
    let mut once = GamepadState::default();
    once.set_control(Control::Button(Button::Guide), false);
    let mut twice = GamepadState::default();
    twice.set_control(Control::Button(Button::Guide), true);
    twice.set_control(Control::Button(Button::Guide), false);
    assert_eq!(once, twice);
}

#[test]
fn different_controls_can_be_exchanged() {
    let mut one = GamepadState::default();
    one.set_control(Control::Button(Button::LeftBumper), true);
    one.set_control(Control::RightTrigger, true);
    let mut other = GamepadState::default();
    other.set_control(Control::RightTrigger, true);
    other.set_control(Control::Button(Button::LeftBumper), true);
    assert_eq!(one, other);
}

#[test]
fn report_shows_the_state() {
    let state = GamepadState {
        buttons: GamepadButtons::from_raw(0x2004),
        left_trigger: 1,
        right_trigger: 2,
        thumb_lx: 3,
        thumb_ly: -4,
        thumb_rx: 32767,
        thumb_ry: -32767,
    };
    assert_eq!(
        state.report(),
        XGamepad {
            buttons: 0x2004,
            left_trigger: 1,
            right_trigger: 2,
            thumb_lx: 3,
            thumb_ly: -4,
            thumb_rx: 32767,
            thumb_ry: -32767,
        }
    );
}

#[test]
fn apply_button_by_name() {
    let mut controller = PlayerController::new(1, XboxTarget::Unplugged, 0);
    assert_eq!(controller.attach(true, 0), Ok(1));
    let report = apply_button(&mut controller, "JUMP", true).unwrap();
    assert_eq!(report.buttons, 0x1000);
    let report = apply_button(&mut controller, "BRAKE", true).unwrap();
    assert_eq!((report.buttons, report.left_trigger), (0x1000, 255));
    let report = apply_button(&mut controller, "NO_SUCH_BUTTON", true).unwrap();
    assert_eq!((report.buttons, report.left_trigger), (0x1000, 255));
    let report = apply_button(&mut controller, "A", false).unwrap();
    assert_eq!((report.buttons, report.left_trigger), (0, 255));
}
