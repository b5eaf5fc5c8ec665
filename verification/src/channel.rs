//! The sixteen MIDI channels.

use vstd::prelude::*;
use crate::error::MidiError;

verus! {

/// A MIDI channel. It is stored as 0 to 15 and known to people as 1 to 16.
#[derive(Clone, Copy, Debug, PartialEq, Eq, Structural)]
pub enum MidiChannel {
    CH1,
    CH2,
    CH3,
    CH4,
    CH5,
    CH6,
    CH7,
    CH8,
    CH9,
    CH10,
    CH11,
    CH12,
    CH13,
    CH14,
    CH15,
    CH16,
}

impl MidiChannel {
    /// The stored number of the channel, 0 to 15.
    pub open spec fn index(&self) -> u8 {
        match self {
            MidiChannel::CH1 => 0,
            MidiChannel::CH2 => 1,
            MidiChannel::CH3 => 2,
            MidiChannel::CH4 => 3,
            MidiChannel::CH5 => 4,
            MidiChannel::CH6 => 5,
            MidiChannel::CH7 => 6,
            MidiChannel::CH8 => 7,
            MidiChannel::CH9 => 8,
            MidiChannel::CH10 => 9,
            MidiChannel::CH11 => 10,
            MidiChannel::CH12 => 11,
            MidiChannel::CH13 => 12,
            MidiChannel::CH14 => 13,
            MidiChannel::CH15 => 14,
            MidiChannel::CH16 => 15,
        }
    }

    /// The channel stored as `index`, if there is one.
    pub open spec fn of_index(index: u8) -> Option<MidiChannel> {
        match index {
            0 => Some(MidiChannel::CH1),
            1 => Some(MidiChannel::CH2),
            2 => Some(MidiChannel::CH3),
            3 => Some(MidiChannel::CH4),
            4 => Some(MidiChannel::CH5),
            5 => Some(MidiChannel::CH6),
            6 => Some(MidiChannel::CH7),
            7 => Some(MidiChannel::CH8),
            8 => Some(MidiChannel::CH9),
            9 => Some(MidiChannel::CH10),
            10 => Some(MidiChannel::CH11),
            11 => Some(MidiChannel::CH12),
            12 => Some(MidiChannel::CH13),
            13 => Some(MidiChannel::CH14),
            14 => Some(MidiChannel::CH15),
            15 => Some(MidiChannel::CH16),
            _ => None,
        }
    }

    #[verifier::when_used_as_spec(index)]
    pub fn as_u8(&self) -> (r: u8)
        ensures
            r == self.index(),
            r <= 15,
            MidiChannel::of_index(r) == Some(*self),
    {
        match self {
            MidiChannel::CH1 => 0,
            MidiChannel::CH2 => 1,
            MidiChannel::CH3 => 2,
            MidiChannel::CH4 => 3,
            MidiChannel::CH5 => 4,
            MidiChannel::CH6 => 5,
            MidiChannel::CH7 => 6,
            MidiChannel::CH8 => 7,
            MidiChannel::CH9 => 8,
            MidiChannel::CH10 => 9,
            MidiChannel::CH11 => 10,
            MidiChannel::CH12 => 11,
            MidiChannel::CH13 => 12,
            MidiChannel::CH14 => 13,
            MidiChannel::CH15 => 14,
            MidiChannel::CH16 => 15,
        }
    }

    /// The channel stored as `index`: some channel exactly for 0 to 15.
    pub fn from_index(index: u8) -> (r: Option<MidiChannel>)
        ensures
            r == MidiChannel::of_index(index),
            r is Some <==> index <= 15,
            r is Some ==> r->Some_0.index() == index,
    {
        match index {
            0 => Some(MidiChannel::CH1),
            1 => Some(MidiChannel::CH2),
            2 => Some(MidiChannel::CH3),
            3 => Some(MidiChannel::CH4),
            4 => Some(MidiChannel::CH5),
            5 => Some(MidiChannel::CH6),
            6 => Some(MidiChannel::CH7),
            7 => Some(MidiChannel::CH8),
            8 => Some(MidiChannel::CH9),
            9 => Some(MidiChannel::CH10),
            10 => Some(MidiChannel::CH11),
            11 => Some(MidiChannel::CH12),
            12 => Some(MidiChannel::CH13),
            13 => Some(MidiChannel::CH14),
            14 => Some(MidiChannel::CH15),
            15 => Some(MidiChannel::CH16),
            _ => None,
        }
    }
}

/// The channel that people call `ch`, if `ch` is one of 1 to 16.
pub open spec fn channel_spec(ch: u8) -> Result<MidiChannel, MidiError> {
    if 1 <= ch <= 16 {
        Ok(MidiChannel::of_index((ch - 1) as u8)->Some_0)
    } else {
        Err(MidiError::InvalidChannel)
    }
}

/// "Natural" channel builder: takes the numbers 1 to 16, and fails with
/// `InvalidChannel` on any other.
pub fn channel(ch: u8) -> (r: Result<MidiChannel, MidiError>)
    ensures
        r == channel_spec(ch),
        r is Ok <==> 1 <= ch <= 16,
        r is Ok ==> r->Ok_0.index() == ch - 1,
{
    if ch == 0 {
        return Err(MidiError::InvalidChannel);
    }
    match MidiChannel::from_index(ch - 1) {
        Some(found) => Ok(found),
        None => Err(MidiError::InvalidChannel),
    }
}

} // verus!
