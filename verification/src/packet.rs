//! The binary input packets that a phone sends.
//!
//! A packet is at least twelve bytes long: the player slot, the sequence number
//! (big endian), the packet type, the button mask (big endian), the two triggers
//! and the four stick axes (two's complement). Bytes beyond the twelfth are ignored.

use vstd::prelude::*;

verus! {

/// The length of the fixed part of a packet.
pub const MIN_BINARY_MESSAGE: usize = 12;

/// The longest binary message that a phone may send.
pub const MAX_BINARY_MESSAGE: usize = 64;

/// The packet type that carries a full gamepad state.
pub const GAMEPAD_STATE: u8 = 1;

/// The fields of an input packet.
#[derive(Clone, Copy, Debug, PartialEq, Eq, Structural)]
pub struct Packet {
    pub sequence: u16,
    pub msg_type: u8,
    pub buttons: u16,
    pub left_trigger: u8,
    pub right_trigger: u8,
    pub lx: i8,
    pub ly: i8,
    pub rx: i8,
    pub ry: i8,
}

/// Why a binary message is not an input packet of a player.
#[derive(Clone, Copy, Debug, PartialEq, Eq, Structural)]
pub enum PacketFault {
    /// The message is too short or too long.
    BadLength,
    /// The message names a slot that the server did not assign to the sender.
    WrongPlayer,
}

/// A big-endian number of two bytes.
pub open spec fn big_endian(high: u8, low: u8) -> u16 {
    (high * 256 + low) as u16
}

/// The fields of a message that is long enough to hold them.
pub open spec fn packet_of(bin: Seq<u8>) -> Packet {
    Packet {
        sequence: big_endian(bin[1], bin[2]),
        msg_type: bin[3],
        buttons: big_endian(bin[4], bin[5]),
        left_trigger: bin[6],
        right_trigger: bin[7],
        lx: bin[8] as i8,
        ly: bin[9] as i8,
        rx: bin[10] as i8,
        ry: bin[11] as i8,
    }
}

/// What a message of a player is: a packet, or a fault.
pub open spec fn reading(bin: Seq<u8>, player_id: usize) -> Result<Packet, PacketFault> {
    if !(MIN_BINARY_MESSAGE <= bin.len() <= MAX_BINARY_MESSAGE) {
        Err(PacketFault::BadLength)
    } else if bin[0] != player_id {
        Err(PacketFault::WrongPlayer)
    } else {
        Ok(packet_of(bin))
    }
}

/// Joins two bytes, the higher one first.
fn join_bytes(high: u8, low: u8) -> (n: u16)
    ensures
        n == big_endian(high, low),
{
    high as u16 * 256 + low as u16
}

/// Reads a binary message as an input packet of the player.
///
/// The message has to name the slot that the server assigned: a number that the
/// phone made up never addresses another controller.
pub fn read_packet(bin: &[u8], player_id: usize) -> (result: Result<Packet, PacketFault>)
    ensures
        result == reading(bin@, player_id),
{
    if bin.len() < MIN_BINARY_MESSAGE || bin.len() > MAX_BINARY_MESSAGE {
        return Err(PacketFault::BadLength);
    }
    if bin[0] as usize != player_id {
        return Err(PacketFault::WrongPlayer);
    }
    Ok(
        Packet {
            sequence: join_bytes(bin[1], bin[2]),
            msg_type: bin[3],
            buttons: join_bytes(bin[4], bin[5]),
            left_trigger: bin[6],
            right_trigger: bin[7],
            lx: bin[8] as i8,
            ly: bin[9] as i8,
            rx: bin[10] as i8,
            ry: bin[11] as i8,
        },
    )
}

/// How far a sequence number lies ahead of another, modulo 65536.
pub open spec fn sequence_gap(last: u16, sequence: u16) -> int {
    (sequence - last) % 0x10000
}

/// Whether a packet is newer than the last one taken: ahead of it by at most half
/// of the number space. A repeated number and one from behind are not.
pub open spec fn newer(last: u16, sequence: u16) -> bool {
    0 < sequence_gap(last, sequence) <= 0x8000
}

/// Tells a newer packet from a repeated or a late one.
pub fn is_newer(last: u16, sequence: u16) -> (fresh: bool)
    ensures
        fresh == newer(last, sequence),
{
    let delta: u16 = sequence.wrapping_sub(last);
    delta != 0 && delta <= 0x8000
}

} // verus!
