//! Output channels of the converter, and the driver's error type.

use vstd::prelude::*;

verus! {

/// One of the four outputs of the converter, or all of them at once.
#[derive(Clone, Copy, Debug, PartialEq, Eq, Structural)]
pub enum Channel {
    /// Channel A
    A,
    /// Channel B
    B,
    /// Channel C
    C,
    /// Channel D
    D,
    /// All four channels (broadcast)
    All,
}

/// Errors reported by the driver.
#[derive(Clone, Copy, Debug, PartialEq, Eq, Structural)]
#[non_exhaustive]
pub enum DacError {
    /// The SPI bus reported a failure while the command frame was written.
    BusWriteError,
    /// A channel index outside `0..=3` was given.
    InvalidChannelIndex,
}

/// The channel that a zero-based index names, if any.
pub open spec fn channel_at(index: int) -> Option<Channel> {
    if index == 0 {
        Some(Channel::A)
    } else if index == 1 {
        Some(Channel::B)
    } else if index == 2 {
        Some(Channel::C)
    } else if index == 3 {
        Some(Channel::D)
    } else {
        None
    }
}

impl Channel {
    /// The 4-bit selector code that addresses this channel in a command byte.
    pub open spec fn code(self) -> u8 {
        match self {
            Channel::A => 0b0000,
            Channel::B => 0b0010,
            Channel::C => 0b0100,
            Channel::D => 0b0110,
            Channel::All => 0b0111,
        }
    }

    /// The selector code of this channel.
    pub fn selector(self) -> (r: u8)
        ensures
            r == self.code(),
            r < 16,
    {
        match self {
            Channel::A => 0b0000,
            Channel::B => 0b0010,
            Channel::C => 0b0100,
            Channel::D => 0b0110,
            Channel::All => 0b0111,
        }
    }

    /// The channel for a zero-based index: 0, 1, 2 and 3 give A, B, C and D.
    /// Any other index is refused with `DacError::InvalidChannelIndex`.
    pub fn from_index(index: u8) -> (r: Result<Channel, DacError>)
        ensures
            index < 4 ==> r == Ok::<Channel, DacError>(channel_at(index as int).unwrap()),
            index >= 4 ==> r == Err::<Channel, DacError>(DacError::InvalidChannelIndex),
    {
        match index {
            0 => Ok(Channel::A),
            1 => Ok(Channel::B),
            2 => Ok(Channel::C),
            3 => Ok(Channel::D),
            _ => Err(DacError::InvalidChannelIndex),
        }
    }
}

} // verus!
