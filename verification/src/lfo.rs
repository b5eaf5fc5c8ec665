//! The waveforms of the low-frequency oscillator.

use vstd::prelude::*;
use vstd::std_specs::convert::FromSpecImpl;

verus! {

#[derive(Debug, Copy, Clone, PartialEq, Eq, Structural)]
pub enum Waveform {
    Triangle,
    Sine,
    Saw,
    RevSaw,
    Square,
}

impl Waveform {
    /// The waveform that a number stands for. Numbers that stand for none
    /// give the triangle.
    pub open spec fn of_code(code: u8) -> Waveform {
        match code {
            1 => Waveform::Sine,
            2 => Waveform::Saw,
            3 => Waveform::RevSaw,
            4 => Waveform::Square,
            _ => Waveform::Triangle,
        }
    }
}

impl Default for Waveform {
    fn default() -> (r: Waveform)
        ensures
            r == Waveform::Sine,
    {
        Waveform::Sine
    }
}

impl From<u8> for Waveform {
    fn from(code: u8) -> (r: Waveform) {
        match code {
            1 => Waveform::Sine,
            2 => Waveform::Saw,
            3 => Waveform::RevSaw,
            4 => Waveform::Square,
            _ => Waveform::Triangle,
        }
    }
}

impl FromSpecImpl<u8> for Waveform {
    open spec fn obeys_from_spec() -> bool {
        true
    }

    open spec fn from_spec(code: u8) -> Waveform {
        Waveform::of_code(code)
    }
}

} // verus!
