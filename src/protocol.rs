//! The XPT2046 conversion protocol: the command byte that selects a channel,
//! and the 12-bit reading clocked back in two bytes.
//!
//! After the command byte the controller shifts out one idle bit, the twelve
//! bits of the conversion, most significant first, and three trailing zeros.

use vstd::prelude::*;

verus! {

/// Command byte: start bit, X position channel, 12-bit differential mode.
pub const CMD_READ_X: u8 = 0xD0;

/// Command byte: start bit, Y position channel, 12-bit differential mode.
pub const CMD_READ_Y: u8 = 0x90;

/// Largest 12-bit reading.
pub const READING_MAX: u16 = 4095;

/// An ADC channel of the controller.
#[derive(Clone, Copy, Debug, PartialEq, Eq, Structural)]
pub enum Channel {
    X,
    Y,
}

/// The command byte that starts a conversion on `channel`.
pub fn command_for(channel: Channel) -> (r: u8)
    ensures
        channel == Channel::X ==> r == CMD_READ_X,
        channel == Channel::Y ==> r == CMD_READ_Y,
{
    match channel {
        Channel::X => CMD_READ_X,
        Channel::Y => CMD_READ_Y,
    }
}

/// The 12-bit reading held in the two bytes clocked in after a command:
/// the big-endian word without its three trailing bits, idle bit masked off.
pub open spec fn reading_of(hi: u8, lo: u8) -> int {
    ((hi * 256 + lo) / 8) % 4096
}

/// Decodes the two bytes of one conversion.
pub fn decode_reading(frame: [u8; 2]) -> (r: u16)
    ensures
        r as int == reading_of(frame[0], frame[1]),
        r <= READING_MAX,
{
    let word = frame[0] as u16 * 256 + frame[1] as u16;
    (word / 8) % 4096
}

/// The raw sample from the two conversions of one X/Y pair.
pub fn sample_from_frames(x_frame: [u8; 2], y_frame: [u8; 2]) -> (r: (u16, u16))
    ensures
        r.0 as int == reading_of(x_frame[0], x_frame[1]),
        r.1 as int == reading_of(y_frame[0], y_frame[1]),
{
    (decode_reading(x_frame), decode_reading(y_frame))
}

} // verus!
