//! MIDI protocol engine: message model, USB-MIDI packet framing, serial byte
//! stream parsing, running-status compression and system-exclusive handling,
//! with the messages of two devices and the decisions of a controller
//! application built on them.

pub mod bounded;
pub mod buffer;
pub mod capture;
pub mod channel;
pub mod control;
pub mod devices;
pub mod error;
pub mod lfo;
pub mod list;
pub mod message;
pub mod packet;
pub mod parser;
pub mod saved;
pub mod status;
pub mod sysex;

pub use bounded::{Cull, Fill, U14, U4, U6, U7};
pub use capture::{capture_sysex, SysexCapture, SysexError};
pub use channel::{channel, MidiChannel};
pub use error::MidiError;
pub use list::PacketList;
pub use message::{
    note_off, note_on, program_change, Bend, Control, MidiMessage, Note, Pressure, Program,
    Velocity,
};
pub use packet::{CableNumber, CodeIndexNumber, Packet};
pub use parser::PacketParser;
pub use status::{is_channel_status, is_non_status, Status, StatusPacker};
