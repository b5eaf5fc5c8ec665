//! Gathers the payload of a system-exclusive run from its fragments.

use vstd::prelude::*;
use vstd::std_specs::convert::FromSpecImpl;
use crate::buffer::{bytes_clear, bytes_len, bytes_push_all, pushed, sysex_bytes};
use crate::message::MidiMessage;
use crate::sysex::{after_fragment, closes_at, fragment_at, fragments_from};

verus! {

/// How far a capture has come, with the number of bytes gathered.
#[derive(Clone, Copy, Debug, PartialEq, Eq, Structural)]
pub enum SysexCapture {
    /// The run is complete: the buffer holds its payload.
    Captured(usize),
    /// The run is open: more fragments are to come.
    Pending(usize),
    /// The message was no fragment of a run.
    NotSysex,
}

#[derive(Clone, Copy, Debug, PartialEq, Eq, Structural)]
pub enum SysexError {
    /// The run is longer than the buffer.
    BufferOverflow,
    /// A continuation came with no run open.
    SpuriousContinuation,
    /// An end came with no run open.
    SpuriousEnd,
}

impl From<u8> for SysexError {
    /// A byte that the buffer handed back stands for an overflow.
    fn from(_value: u8) -> (r: SysexError) {
        SysexError::BufferOverflow
    }
}

impl FromSpecImpl<u8> for SysexError {
    open spec fn obeys_from_spec() -> bool {
        true
    }

    open spec fn from_spec(_value: u8) -> SysexError {
        SysexError::BufferOverflow
    }
}

/// The payload bytes that a fragment carries.
pub open spec fn fragment_bytes(m: MidiMessage) -> Seq<u8> {
    match m {
        MidiMessage::SysexBegin(a, b) => seq![a, b],
        MidiMessage::SysexCont(a, b, c) => seq![a, b, c],
        MidiMessage::SysexEnd1(a) => seq![a],
        MidiMessage::SysexEnd2(a, b) => seq![a, b],
        MidiMessage::SysexSingleByte(a) => seq![a],
        _ => Seq::<u8>::empty(),
    }
}

/// A fragment that opens a run: what was gathered before is dropped.
pub open spec fn opens_run(m: MidiMessage) -> bool {
    m is SysexBegin || m is SysexSingleByte || m is SysexEmpty
}

/// A fragment that closes a run.
pub open spec fn closes_run(m: MidiMessage) -> bool {
    m is SysexEnd || m is SysexEnd1 || m is SysexEnd2 || m is SysexSingleByte || m is SysexEmpty
}

/// What the buffer holds after a message, where it held `held` before.
/// A message that is no fragment empties it. A fragment that opens a run
/// replaces what was held by its own bytes. Any other fragment adds its
/// bytes to a run that is open, as far as they fit, and leaves the empty
/// buffer empty.
pub open spec fn capture_buffer(held: Seq<u8>, m: MidiMessage) -> Seq<u8> {
    if !m.is_sysex() {
        Seq::<u8>::empty()
    } else if opens_run(m) {
        pushed(Seq::<u8>::empty(), fragment_bytes(m))
    } else if held.len() == 0 {
        held
    } else {
        pushed(held, fragment_bytes(m))
    }
}

/// What a capture step returns, where the buffer held `held` before.
pub open spec fn capture_result(held: Seq<u8>, m: MidiMessage) -> Result<SysexCapture, SysexError> {
    let base = if opens_run(m) {
        Seq::<u8>::empty()
    } else {
        held
    };
    let total = base.len() + fragment_bytes(m).len();
    if !m.is_sysex() {
        Ok(SysexCapture::NotSysex)
    } else if !opens_run(m) && held.len() == 0 {
        if m is SysexCont {
            Err(SysexError::SpuriousContinuation)
        } else {
            Err(SysexError::SpuriousEnd)
        }
    } else if total > 64 {
        Err(SysexError::BufferOverflow)
    } else if closes_run(m) {
        Ok(SysexCapture::Captured(total as usize))
    } else {
        Ok(SysexCapture::Pending(total as usize))
    }
}

/// Appends the bytes of a fragment and reports the new length, or the
/// overflow.
fn gather(buffer: &mut heapless::Vec<u8, 64>, extra: &[u8]) -> (r: Result<usize, SysexError>)
    ensures
        sysex_bytes(*final(buffer)) == pushed(sysex_bytes(*old(buffer)), extra@),
        r is Ok <==> sysex_bytes(*old(buffer)).len() + extra@.len() <= 64,
        r is Ok ==> r->Ok_0 == sysex_bytes(*old(buffer)).len() + extra@.len(),
        r is Err ==> r->Err_0 == SysexError::BufferOverflow,
{
    if bytes_push_all(buffer, extra) {
        Ok(bytes_len(buffer))
    } else {
        Err(SysexError::BufferOverflow)
    }
}

/// Takes one decoded message into a capture. The buffer is the state of the
/// capture: empty while no run is open, not empty while one is.
pub fn capture_sysex(buffer: &mut heapless::Vec<u8, 64>, message: MidiMessage) -> (r: Result<
    SysexCapture,
    SysexError,
>)
    ensures
        r == capture_result(sysex_bytes(*old(buffer)), message),
        sysex_bytes(*final(buffer)) == capture_buffer(sysex_bytes(*old(buffer)), message),
{
    match message {
        MidiMessage::SysexBegin(byte0, byte1) => {
            bytes_clear(buffer);
            let extra = [byte0, byte1];
            assert(extra@ =~= fragment_bytes(message));
            match gather(buffer, &extra) {
                Ok(len) => Ok(SysexCapture::Pending(len)),
                Err(e) => Err(e),
            }
        },
        MidiMessage::SysexSingleByte(byte0) => {
            bytes_clear(buffer);
            let extra = [byte0];
            assert(extra@ =~= fragment_bytes(message));
            match gather(buffer, &extra) {
                Ok(len) => Ok(SysexCapture::Captured(len)),
                Err(e) => Err(e),
            }
        },
        MidiMessage::SysexEmpty => {
            bytes_clear(buffer);
            assert(sysex_bytes(*buffer) =~= capture_buffer(sysex_bytes(*old(buffer)), message));
            Ok(SysexCapture::Captured(bytes_len(buffer)))
        },
        MidiMessage::SysexCont(byte0, byte1, byte2) => {
            if bytes_len(buffer) == 0 {
                return Err(SysexError::SpuriousContinuation);
            }
            let extra = [byte0, byte1, byte2];
            assert(extra@ =~= fragment_bytes(message));
            match gather(buffer, &extra) {
                Ok(len) => Ok(SysexCapture::Pending(len)),
                Err(e) => Err(e),
            }
        },
        MidiMessage::SysexEnd => {
            let len = bytes_len(buffer);
            if len == 0 {
                return Err(SysexError::SpuriousEnd);
            }
            assert(sysex_bytes(*buffer) =~= capture_buffer(sysex_bytes(*old(buffer)), message));
            Ok(SysexCapture::Captured(len))
        },
        MidiMessage::SysexEnd1(byte0) => {
            if bytes_len(buffer) == 0 {
                return Err(SysexError::SpuriousEnd);
            }
            let extra = [byte0];
            assert(extra@ =~= fragment_bytes(message));
            match gather(buffer, &extra) {
                Ok(len) => Ok(SysexCapture::Captured(len)),
                Err(e) => Err(e),
            }
        },
        MidiMessage::SysexEnd2(byte0, byte1) => {
            if bytes_len(buffer) == 0 {
                return Err(SysexError::SpuriousEnd);
            }
            let extra = [byte0, byte1];
            assert(extra@ =~= fragment_bytes(message));
            match gather(buffer, &extra) {
                Ok(len) => Ok(SysexCapture::Captured(len)),
                Err(e) => Err(e),
            }
        },
        _ => {
            bytes_clear(buffer);
            Ok(SysexCapture::NotSysex)
        },
    }
}

/// What a capture that takes the fragments of `fragments` in order leaves
/// in a buffer that held `held`, and what its last step returns.
pub open spec fn capture_run(held: Seq<u8>, fragments: Seq<MidiMessage>) -> (
    Seq<u8>,
    Option<Result<SysexCapture, SysexError>>,
)
    decreases fragments.len(),
{
    if fragments.len() == 0 {
        (held, None)
    } else if fragments.len() == 1 {
        (capture_buffer(held, fragments[0]), Some(capture_result(held, fragments[0])))
    } else {
        capture_run(capture_buffer(held, fragments[0]), fragments.drop_first())
    }
}

/// With the first `pos` bytes of a payload gathered, the fragments that
/// carry the rest complete the payload.
proof fn lemma_capture_rest(bytes: Seq<u8>, pos: int)
    requires
        2 <= pos <= bytes.len() <= 64,
    ensures
        capture_run(bytes.subrange(0, pos), fragments_from(bytes, pos)) == (
            bytes,
            Some(Ok::<SysexCapture, SysexError>(SysexCapture::Captured(bytes.len() as usize))),
        ),
    decreases bytes.len() - pos,
{
    let held = bytes.subrange(0, pos);
    let first = fragment_at(bytes, pos);
    if closes_at(bytes, pos) {
        assert(fragments_from(bytes, pos) =~= seq![first]);
        assert(capture_buffer(held, first) =~= bytes);
    } else {
        let rest = fragments_from(bytes, pos + 3);
        assert(fragments_from(bytes, pos) =~= seq![first] + rest);
        assert(fragments_from(bytes, pos).drop_first() =~= rest);
        assert(capture_buffer(held, first) =~= bytes.subrange(0, pos + 3));
        lemma_capture_rest(bytes, pos + 3);
        assert(rest.len() >= 1);
    }
}

/// A payload that fits the buffer survives the way through its fragments:
/// whatever the buffer held before, a capture that takes the fragments of
/// the payload in order leaves the payload in the buffer, and its last step
/// reports the payload captured with its length.
pub proof fn lemma_capture_of_fragments(bytes: Seq<u8>, held: Seq<u8>)
    requires
        bytes.len() <= 64,
    ensures
        capture_run(held, fragments_from(bytes, 0)) == (
            bytes,
            Some(Ok::<SysexCapture, SysexError>(SysexCapture::Captured(bytes.len() as usize))),
        ),
{
    let first = fragment_at(bytes, 0);
    if closes_at(bytes, 0) {
        assert(fragments_from(bytes, 0) =~= seq![first]);
        assert(capture_buffer(held, first) =~= bytes);
    } else {
        let rest = fragments_from(bytes, 2);
        assert(fragments_from(bytes, 0) =~= seq![first] + rest);
        assert(fragments_from(bytes, 0).drop_first() =~= rest);
        assert(capture_buffer(held, first) =~= bytes.subrange(0, 2));
        lemma_capture_rest(bytes, 2);
        assert(rest.len() >= 1);
    }
}

} // verus!
