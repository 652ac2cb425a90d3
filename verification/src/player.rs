//! One player slot: the connection that owns it and the gamepad it drives.

use vstd::prelude::*;

use crate::gamepad::{control_of, neutral, GamepadButtons, GamepadState, XGamepad};
use crate::packet::{is_newer, newer, Packet, GAMEPAD_STATE};

verus! {

/// How long a connected player may stay silent, in nanoseconds.
pub const CONNECTION_TIMEOUT: u64 = 8_000_000_000;

/// The virtual Xbox controller of a slot.
#[derive(Clone, Copy, Debug, PartialEq, Eq, Structural)]
pub enum XboxTarget {
    /// The platform has no virtual controllers.
    Unsupported,
    /// None is plugged in.
    Unplugged,
    /// One is plugged in and takes reports.
    Plugged,
}

/// What is left to do for the virtual controller of a slot that was vacated.
#[derive(Clone, Copy, Debug, PartialEq, Eq, Structural)]
pub struct Detached {
    /// The report to send first.
    pub report: Option<XGamepad>,
    /// Whether the controller is to be unplugged after that.
    pub unplug: bool,
}

/// One player slot. Points in time are nanoseconds since the server started.
#[derive(Clone, Copy, Debug)]
pub struct PlayerController {
    pub player_id: usize,
    pub connected: bool,
    pub connection_generation: u64,
    pub last_sequence: u16,
    pub has_received_packet: bool,
    pub gamepad: GamepadState,
    pub last_packet_at: u64,
    pub connected_at: u64,
    pub packet_count: u64,
    pub dropped_packets: u64,
    pub invalid_packets: u64,
    pub xbox: XboxTarget,
    /// The generation of the connection that rumble goes to.
    pub rumble_tx: Option<u64>,
    /// When the probe was sent that the phone has not echoed yet.
    pub probed_at: Option<u64>,
    /// How long the phone took for the last echo, in nanoseconds.
    pub latency: Option<u64>,
}

/// The generation that follows another; it is never zero.
pub open spec fn next_generation(generation: u64) -> u64 {
    if generation == u64::MAX {
        1
    } else {
        (generation + 1) as u64
    }
}

/// The time since a point in time, or zero if that point is still to come.
pub open spec fn elapsed_since(then: u64, now: u64) -> int {
    if now < then {
        0
    } else {
        now - then
    }
}

/// The text of the error for a virtual controller that could not be made.
pub open spec fn no_controller_text() -> Seq<char> {
    "failed to create virtual controller"@
}

/// Counts a generation up.
fn advance_generation(generation: u64) -> (next: u64)
    ensures
        next == next_generation(generation),
{
    let next: u64 = generation.wrapping_add(1);
    if next < 1 {
        1
    } else {
        next
    }
}

/// The time since a point in time.
pub fn elapsed(then: u64, now: u64) -> (nanos: u64)
    ensures
        nanos == elapsed_since(then, now),
{
    now.saturating_sub(then)
}

impl PlayerController {
    /// A slot that nobody has used yet.
    pub open spec fn vacant(player_id: usize, xbox: XboxTarget, now: u64) -> PlayerController {
        PlayerController {
            player_id,
            connected: false,
            connection_generation: 0,
            last_sequence: 0,
            has_received_packet: false,
            gamepad: neutral(),
            last_packet_at: now,
            connected_at: now,
            packet_count: 0,
            dropped_packets: 0,
            invalid_packets: 0,
            xbox,
            rumble_tx: None,
            probed_at: None,
            latency: None,
        }
    }

    /// What holds of every slot between two events.
    pub open spec fn wf(self) -> bool {
        &&& self.connected ==> self.connection_generation >= 1
        &&& self.connected ==> !(self.xbox is Unplugged)
        &&& self.xbox is Plugged ==> self.connected
        &&& !self.connected ==> self.gamepad == neutral()
        &&& self.rumble_tx == (if self.connected {
            Some(self.connection_generation)
        } else {
            None
        })
    }

    /// Whether a connection owns the slot.
    pub open spec fn owned_by(self, generation: u64) -> bool {
        self.connected && self.connection_generation == generation
    }

    /// Whether a player can be attached: `created` tells whether a virtual
    /// controller could be plugged in for a slot that lacks one.
    pub open spec fn attachable(self, created: bool) -> bool {
        self.xbox is Unplugged ==> created
    }

    /// The slot after a player was attached.
    pub open spec fn attached(self, now: u64) -> PlayerController {
        let generation = next_generation(self.connection_generation);
        PlayerController {
            player_id: self.player_id,
            connected: true,
            connection_generation: generation,
            last_sequence: 0,
            has_received_packet: false,
            gamepad: neutral(),
            last_packet_at: now,
            connected_at: now,
            packet_count: 0,
            dropped_packets: 0,
            invalid_packets: 0,
            xbox: if self.xbox is Unplugged {
                XboxTarget::Plugged
            } else {
                self.xbox
            },
            rumble_tx: Some(generation),
            probed_at: None,
            latency: None,
        }
    }

    /// The slot after its player was detached.
    pub open spec fn detached(self) -> PlayerController {
        PlayerController {
            connected: false,
            connection_generation: next_generation(self.connection_generation),
            last_sequence: 0,
            has_received_packet: false,
            gamepad: neutral(),
            xbox: if self.xbox is Plugged {
                XboxTarget::Unplugged
            } else {
                self.xbox
            },
            rumble_tx: None,
            probed_at: None,
            latency: None,
            ..self
        }
    }

    /// The report that the virtual controller is owed, if there is one.
    pub open spec fn update(self) -> Option<XGamepad> {
        if self.xbox is Plugged {
            Some(self.gamepad.as_report())
        } else {
            None
        }
    }

    /// What the virtual controller is owed when the player is detached.
    pub open spec fn detach_duties(self) -> Detached {
        Detached {
            report: if self.xbox is Plugged {
                Some(neutral().as_report())
            } else {
                None
            },
            unplug: self.xbox is Plugged,
        }
    }

    /// Whether the next packet is taken: the first one of a connection always is.
    pub open spec fn takes(self, sequence: u16) -> bool {
        self.has_received_packet ==> newer(self.last_sequence, sequence)
    }

    /// The slot after a packet was taken.
    pub open spec fn counted(self, sequence: u16, now: u64) -> PlayerController {
        PlayerController {
            last_sequence: sequence,
            has_received_packet: true,
            packet_count: if self.packet_count == u64::MAX {
                u64::MAX
            } else {
                (self.packet_count + 1) as u64
            },
            last_packet_at: now,
            ..self
        }
    }

    /// The slot after a packet was dropped.
    pub open spec fn dropping(self) -> PlayerController {
        PlayerController {
            dropped_packets: if self.dropped_packets == u64::MAX {
                u64::MAX
            } else {
                (self.dropped_packets + 1) as u64
            },
            ..self
        }
    }

    /// The slot after an invalid packet; the count wraps.
    pub open spec fn faulted(self) -> PlayerController {
        PlayerController { invalid_packets: self.invalid_packets.wrapping_add(1), ..self }
    }

    /// The slot after a packet with these stick positions was applied. Only a
    /// packet that carries a gamepad state changes the gamepad.
    pub open spec fn steered(self, packet: Packet, left: (i16, i16), right: (i16, i16)) -> PlayerController {
        if packet.msg_type == GAMEPAD_STATE {
            PlayerController {
                gamepad: GamepadState {
                    buttons: GamepadButtons::of_mask(packet.buttons),
                    left_trigger: packet.left_trigger,
                    right_trigger: packet.right_trigger,
                    thumb_lx: left.0,
                    thumb_ly: left.1,
                    thumb_rx: right.0,
                    thumb_ry: right.1,
                },
                ..self
            }
        } else {
            self
        }
    }

    /// The slot after a control was pressed or released by name.
    pub open spec fn pressing(self, button: Seq<char>, pressed: bool) -> PlayerController {
        PlayerController { gamepad: self.gamepad.with_named(button, pressed), ..self }
    }

    /// The slot after a stick was moved; every name but `right` means the left one.
    pub open spec fn leaning(self, stick: Seq<char>, thumb: (i16, i16)) -> PlayerController {
        if stick == "right"@ {
            PlayerController {
                gamepad: GamepadState { thumb_rx: thumb.0, thumb_ry: thumb.1, ..self.gamepad },
                ..self
            }
        } else {
            PlayerController {
                gamepad: GamepadState { thumb_lx: thumb.0, thumb_ly: thumb.1, ..self.gamepad },
                ..self
            }
        }
    }

    /// The slot after a sign of life.
    pub open spec fn seen(self, now: u64) -> PlayerController {
        PlayerController { last_packet_at: now, ..self }
    }

    /// The slot after the phone was probed.
    pub open spec fn probed(self, now: u64) -> PlayerController {
        PlayerController { probed_at: Some(now), ..self }
    }

    /// The slot after the phone's echo; one that answers no probe changes nothing.
    pub open spec fn echoed(self, now: u64) -> PlayerController {
        match self.probed_at {
            Some(then) => PlayerController {
                probed_at: None,
                latency: Some(elapsed_since(then, now) as u64),
                ..self
            },
            None => self,
        }
    }

    /// Whether the player has been silent for too long.
    pub open spec fn silent(self, now: u64) -> bool {
        self.connected && elapsed_since(self.last_packet_at, now) > CONNECTION_TIMEOUT
    }

    /// Makes a slot that nobody uses.
    pub fn new(player_id: usize, xbox: XboxTarget, now: u64) -> (controller: PlayerController)
        ensures
            controller == PlayerController::vacant(player_id, xbox, now),
            !(xbox is Plugged) ==> controller.wf(),
    {
        PlayerController {
            player_id,
            connected: false,
            connection_generation: 0,
            last_sequence: 0,
            has_received_packet: false,
            gamepad: GamepadState::default(),
            last_packet_at: now,
            connected_at: now,
            packet_count: 0,
            dropped_packets: 0,
            invalid_packets: 0,
            xbox,
            rumble_tx: None,
            probed_at: None,
            latency: None,
        }
    }

    /// Gives the slot to a new connection and returns the generation of that
    /// connection. Fails, with nothing changed, if the slot lacks a virtual
    /// controller and none could be created.
    pub fn attach(&mut self, created: bool, now: u64) -> (result: Result<u64, String>)
        ensures
            match result {
                Ok(generation) => {
                    &&& old(self).attachable(created)
                    &&& *final(self) == old(self).attached(now)
                    &&& generation == final(self).connection_generation
                },
                Err(error) => {
                    &&& !old(self).attachable(created)
                    &&& *final(self) == *old(self)
                    &&& error@ == no_controller_text()
                },
            },
            old(self).wf() ==> final(self).wf(),
    {
        if let XboxTarget::Unplugged = self.xbox {
            if !created {
                return Err("failed to create virtual controller".to_owned());
            }
            self.xbox = XboxTarget::Plugged;
        }
        self.connection_generation = advance_generation(self.connection_generation);
        self.connected = true;
        self.last_sequence = 0;
        self.has_received_packet = false;
        self.last_packet_at = now;
        self.connected_at = now;
        self.packet_count = 0;
        self.dropped_packets = 0;
        self.invalid_packets = 0;
        self.rumble_tx = Some(self.connection_generation);
        self.probed_at = None;
        self.latency = None;
        self.gamepad = GamepadState::default();
        Ok(self.connection_generation)
    }

    /// Vacates the slot: the gamepad goes back to neutral, the virtual controller
    /// is told so and unplugged, and the old connection's generation ends.
    pub fn detach(&mut self) -> (duties: Detached)
        ensures
            *final(self) == old(self).detached(),
            duties == old(self).detach_duties(),
            final(self).wf(),
    {
        self.connection_generation = advance_generation(self.connection_generation);
        self.connected = false;
        self.rumble_tx = None;
        self.probed_at = None;
        self.latency = None;
        self.last_sequence = 0;
        self.has_received_packet = false;
        self.gamepad = GamepadState::default();
        let report = push_gamepad_update(self);
        let mut unplug: bool = false;
        if let XboxTarget::Plugged = self.xbox {
            self.xbox = XboxTarget::Unplugged;
            unplug = true;
        }
        Detached { report, unplug }
    }

    /// Takes a packet if its number is newer than the last one, or counts it as
    /// dropped.
    pub fn accept(&mut self, sequence: u16, now: u64) -> (taken: bool)
        ensures
            taken == old(self).takes(sequence),
            *final(self) == (if taken {
                old(self).counted(sequence, now)
            } else {
                old(self).dropping()
            }),
    {
        if self.has_received_packet && !is_newer(self.last_sequence, sequence) {
            self.dropped_packets = self.dropped_packets.saturating_add(1);
            return false;
        }
        self.last_sequence = sequence;
        self.has_received_packet = true;
        self.packet_count = self.packet_count.saturating_add(1);
        self.last_packet_at = now;
        true
    }

    /// Applies the gamepad state that a packet carries and returns the report that
    /// the virtual controller is owed.
    pub fn steer(&mut self, packet: Packet, left: (i16, i16), right: (i16, i16)) -> (report: Option<XGamepad>)
        ensures
            *final(self) == old(self).steered(packet, left, right),
            report == (if packet.msg_type == GAMEPAD_STATE {
                final(self).update()
            } else {
                None
            }),
    {
        if packet.msg_type != GAMEPAD_STATE {
            return None;
        }
        self.gamepad = GamepadState {
            buttons: GamepadButtons::from_raw(packet.buttons),
            left_trigger: packet.left_trigger,
            right_trigger: packet.right_trigger,
            thumb_lx: left.0,
            thumb_ly: left.1,
            thumb_rx: right.0,
            thumb_ry: right.1,
        };
        push_gamepad_update(self)
    }

    /// Moves a stick and returns the report that the virtual controller is owed.
    pub fn lean(&mut self, stick: &str, thumb: (i16, i16)) -> (report: Option<XGamepad>)
        ensures
            *final(self) == old(self).leaning(stick@, thumb),
            report == final(self).update(),
    {
        if crate::text::same_text(stick, "right") {
            self.gamepad.thumb_rx = thumb.0;
            self.gamepad.thumb_ry = thumb.1;
        } else {
            self.gamepad.thumb_lx = thumb.0;
            self.gamepad.thumb_ly = thumb.1;
        }
        push_gamepad_update(self)
    }

    /// Notes that the phone is probed, unless an echo is still to come, and tells
    /// whether the probe is to be sent.
    pub fn probe(&mut self, now: u64) -> (due: bool)
        ensures
            due == (old(self).probed_at is None),
            *final(self) == (if due {
                old(self).probed(now)
            } else {
                *old(self)
            }),
    {
        match self.probed_at {
            Some(_) => false,
            None => {
                self.probed_at = Some(now);
                true
            },
        }
    }

    /// Measures the latency when the echo of a probe arrives.
    pub fn echo(&mut self, now: u64)
        ensures
            *final(self) == old(self).echoed(now),
    {
        if let Some(then) = self.probed_at {
            self.probed_at = None;
            self.latency = Some(elapsed(then, now));
        }
    }

    /// Whether a connection owns the slot.
    pub fn is_owned_by(&self, generation: u64) -> (owned: bool)
        ensures
            owned == self.owned_by(generation),
    {
        self.connected && self.connection_generation == generation
    }

    /// Whether the player has been silent for too long.
    pub fn timed_out(&self, now: u64) -> (late: bool)
        ensures
            late == self.silent(now),
    {
        self.connected && elapsed(self.last_packet_at, now) > CONNECTION_TIMEOUT
    }
}

/// The report that the virtual controller of a slot is owed, if one is plugged in.
pub fn push_gamepad_update(controller: &PlayerController) -> (report: Option<XGamepad>)
    ensures
        report == controller.update(),
{
    match controller.xbox {
        XboxTarget::Plugged => Some(controller.gamepad.report()),
        _ => None,
    }
}

/// Presses or releases a control by name and returns the report that the virtual
/// controller is owed. A name that means no control changes nothing, and the
/// report is owed all the same.
pub fn apply_button(controller: &mut PlayerController, button: &str, pressed: bool) -> (report: Option<XGamepad>)
    ensures
        *final(controller) == old(controller).pressing(button@, pressed),
        report == final(controller).update(),
{
    if let Some(control) = control_of(button) {
        controller.gamepad.set_control(control, pressed);
    }
    push_gamepad_update(controller)
}

} // verus!
