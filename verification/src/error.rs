//! Errors raised by the protocol engine.

use vstd::prelude::*;
use vstd::std_specs::convert::FromSpecImpl;
use crate::packet::Packet;

verus! {

/// What can go wrong while handling MIDI data.
#[derive(Clone, Copy, Debug, PartialEq, Eq)]
pub enum MidiError {
    SysexInterrupted,
    /// The byte is not a status byte, or no status is known for it.
    InvalidStatus(u8),
    /// The packet's framing code, status and payload do not fit together.
    BadPacket(Packet),
    NoModeForParameter,
    /// A parameter lies outside the system-exclusive dump.
    SysexOutOfBounds,
    InvalidCodeIndexNumber,
    InvalidCableNumber,
    InvalidChannel,
    InvalidProgram,
    InvalidNote,
    InvalidVelocity,
    InvalidInteger,
    /// A system-exclusive end byte arrived outside a system-exclusive run.
    SpuriousSysexEnd,
    TryFromSliceError,
    PortError,
    WriteError,
    ReadError,
    BufferFull,
    TooManyPorts,
    InvalidPort,
    DroppedPacket,
    /// The UART reported an error.
    Stm32UsartError,
}

#[verifier::external_type_specification]
#[verifier::external_body]
#[verifier::reject_recursive_types(E)]
pub struct ExNbError<E>(nb::Error<E>);

#[verifier::external_type_specification]
#[verifier::external_body]
pub struct ExUsbError(usb_device::UsbError);

#[verifier::external_type_specification]
#[verifier::external_body]
pub struct ExTryFromSliceError(core::array::TryFromSliceError);

impl From<usb_device::UsbError> for MidiError {
    /// Whatever went wrong in the USB stack is an error of the port.
    fn from(_err: usb_device::UsbError) -> (r: MidiError) {
        MidiError::PortError
    }
}

impl FromSpecImpl<usb_device::UsbError> for MidiError {
    open spec fn obeys_from_spec() -> bool {
        true
    }

    open spec fn from_spec(_err: usb_device::UsbError) -> MidiError {
        MidiError::PortError
    }
}

impl<E> From<nb::Error<E>> for MidiError {
    /// Whatever went wrong in a non-blocking operation is an error of the
    /// port.
    fn from(_err: nb::Error<E>) -> (r: MidiError) {
        MidiError::PortError
    }
}

impl<E> FromSpecImpl<nb::Error<E>> for MidiError {
    open spec fn obeys_from_spec() -> bool {
        true
    }

    open spec fn from_spec(_err: nb::Error<E>) -> MidiError {
        MidiError::PortError
    }
}

impl From<core::array::TryFromSliceError> for MidiError {
    fn from(_err: core::array::TryFromSliceError) -> (r: MidiError) {
        MidiError::TryFromSliceError
    }
}

impl FromSpecImpl<core::array::TryFromSliceError> for MidiError {
    open spec fn obeys_from_spec() -> bool {
        true
    }

    open spec fn from_spec(_err: core::array::TryFromSliceError) -> MidiError {
        MidiError::TryFromSliceError
    }
}

/// What can go wrong in the display.
#[derive(Clone, Copy, Debug, PartialEq, Eq, Structural)]
pub enum GuiError {
    LvError,
    DisplayError,
}

} // verus!
