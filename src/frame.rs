//! The 3-byte command frame: a channel selector byte followed by the value,
//! high byte first.

use vstd::prelude::*;
use crate::channel::Channel;

verus! {

/// Fixed upper nibble of every command byte.
pub const COMMAND_PREFIX: u8 = 0b0001_0000;

/// The command byte that addresses `channel`.
pub open spec fn command_byte(channel: Channel) -> u8 {
    COMMAND_PREFIX | channel.code()
}

/// The high byte of a 16-bit value.
pub open spec fn high_byte(value: u16) -> u8 {
    ((value >> 8u16) & 0xFFu16) as u8
}

/// The low byte of a 16-bit value.
pub open spec fn low_byte(value: u16) -> u8 {
    (value & 0xFFu16) as u8
}

/// The frame that sets `channel` to `value`.
pub open spec fn frame_of(channel: Channel, value: u16) -> Seq<u8> {
    seq![command_byte(channel), high_byte(value), low_byte(value)]
}

/// Builds the command frame that sets `channel` to `value`: the prefix OR'd
/// with the channel's selector code, then the high and the low byte of the value.
pub fn get_payload(channel: Channel, value: u16) -> (r: [u8; 3])
    ensures
        r@ == frame_of(channel, value),
{
    let command: u8 = COMMAND_PREFIX | channel.selector();
    let high: u8 = ((value & 0xFF00u16) >> 8u16) as u8;
    let low: u8 = (value & 0xFFu16) as u8;
    assert(((value & 0xFF00u16) >> 8u16) == ((value >> 8u16) & 0xFFu16)) by (bit_vector);
    let r: [u8; 3] = [command, high, low];
    assert(r@ =~= frame_of(channel, value));
    r
}

/// Whatever the channel and the value, the upper nibble of a frame's first
/// byte is the fixed prefix `0b0001`.
pub proof fn lemma_prefix_fixed(channel: Channel, value: u16)
    ensures
        frame_of(channel, value)[0] & 0xF0u8 == 0x10u8,
{
    let code = channel.code();
    assert(code < 16);
    assert(code < 16 ==> (0b0001_0000u8 | code) & 0xF0u8 == 0x10u8) by (bit_vector);
}

/// The second and third bytes of a frame are the value's high and low byte,
/// and put back together they give the value unchanged.
pub proof fn lemma_value_round_trip(channel: Channel, value: u16)
    ensures
        frame_of(channel, value)[1] == ((value >> 8u16) & 0xFFu16) as u8,
        frame_of(channel, value)[2] == (value & 0xFFu16) as u8,
        (frame_of(channel, value)[1] as u16) * 256 + (frame_of(channel, value)[2] as u16)
            == value,
{
    assert((((value >> 8u16) & 0xFFu16) as u8 as u16) * 256u16 + ((value & 0xFFu16) as u8
        as u16) == value) by (bit_vector);
}

} // verus!
