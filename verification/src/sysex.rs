//! Building and matching system-exclusive messages: a byte sequence that is
//! sent as a run of packets, and a small pattern language that describes
//! the layout of a message.

use vstd::prelude::*;
use vstd::slice::slice_subrange;
use crate::bounded::U4;
use crate::buffer::{
    bytes_as_slice, bytes_extend_from_slice, bytes_len, bytes_new, fields_as_slice, fields_push,
    recorded_fields, sysex_bytes,
};
use crate::message::MidiMessage;
use crate::packet::Packet;

verus! {

/// The payload of a system-exclusive message on its way out. It hands out
/// the packets of the run one by one.
#[derive(Debug)]
pub struct SysexSeq {
    pub(crate) bytes: heapless::Vec<u8, 64>,
    pub(crate) pos: usize,
    pub(crate) done: bool,
}

/// The fragment that carries the bytes of `bytes` from `pos` on: the first
/// fragment of the run at 0, the fragment that closes the run where fewer
/// than three bytes remain, a continuation of three bytes otherwise.
pub open spec fn fragment_at(bytes: Seq<u8>, pos: int) -> MidiMessage {
    if pos == 0 {
        if bytes.len() == 0 {
            MidiMessage::SysexEmpty
        } else if bytes.len() == 1 {
            MidiMessage::SysexSingleByte(bytes[0])
        } else {
            MidiMessage::SysexBegin(bytes[0], bytes[1])
        }
    } else if bytes.len() - pos <= 0 {
        MidiMessage::SysexEnd
    } else if bytes.len() - pos == 1 {
        MidiMessage::SysexEnd1(bytes[pos])
    } else if bytes.len() - pos == 2 {
        MidiMessage::SysexEnd2(bytes[pos], bytes[pos + 1])
    } else {
        MidiMessage::SysexCont(bytes[pos], bytes[pos + 1], bytes[pos + 2])
    }
}

/// The position that follows the fragment at `pos`, where that fragment
/// does not close the run.
pub open spec fn after_fragment(bytes: Seq<u8>, pos: int) -> int {
    if pos == 0 {
        2
    } else {
        pos + 3
    }
}

/// The fragment at `pos` closes the run.
pub open spec fn closes_at(bytes: Seq<u8>, pos: int) -> bool {
    if pos == 0 {
        bytes.len() <= 1
    } else {
        bytes.len() - pos <= 2
    }
}

/// The fragments that carry the bytes of `bytes` from `pos` on, in order.
pub open spec fn fragments_from(bytes: Seq<u8>, pos: int) -> Seq<MidiMessage>
    decreases bytes.len() - pos,
{
    if pos < 0 || closes_at(bytes, pos) {
        seq![fragment_at(bytes, pos)]
    } else {
        seq![fragment_at(bytes, pos)] + fragments_from(bytes, after_fragment(bytes, pos))
    }
}

impl SysexSeq {
    /// The bytes of the message.
    pub open(crate) spec fn spec_bytes(self) -> Seq<u8> {
        sysex_bytes(self.bytes)
    }

    /// The number of bytes that have gone out.
    pub open(crate) spec fn spec_pos(self) -> int {
        self.pos as int
    }

    /// The last packet of the run has gone out.
    pub open(crate) spec fn spec_done(self) -> bool {
        self.done
    }

    /// An empty message, nothing of it sent.
    pub fn new() -> (r: SysexSeq)
        ensures
            r.spec_bytes() == Seq::<u8>::empty(),
            r.spec_pos() == 0,
            !r.spec_done(),
    {
        Self::from_vec(bytes_new())
    }

    /// The message that holds the bytes of `bytes`, nothing of it sent.
    pub fn from_vec(bytes: heapless::Vec<u8, 64>) -> (r: SysexSeq)
        ensures
            r.spec_bytes() == sysex_bytes(bytes),
            r.spec_pos() == 0,
            !r.spec_done(),
    {
        SysexSeq { bytes, pos: 0, done: false }
    }

    /// The bytes of the message.
    pub fn as_slice(&self) -> (r: &[u8])
        ensures
            r@ == self.spec_bytes(),
            r@.len() <= 64,
    {
        bytes_as_slice(&self.bytes)
    }

    /// The number of bytes of the message.
    pub fn len(&self) -> (r: usize)
        ensures
            r == self.spec_bytes().len(),
            r <= 64,
    {
        bytes_len(&self.bytes)
    }

    /// Appends the bytes of `slice` where they fit, and says whether they
    /// did. Where they do not fit nothing changes.
    pub fn try_extend_from_slice(&mut self, slice: &[u8]) -> (fitted: bool)
        ensures
            fitted <==> old(self).spec_bytes().len() + slice@.len() <= 64,
            fitted ==> final(self).spec_bytes() == old(self).spec_bytes() + slice@,
            !fitted ==> final(self).spec_bytes() == old(self).spec_bytes(),
            final(self).spec_pos() == old(self).spec_pos(),
            final(self).spec_done() == old(self).spec_done(),
    {
        match bytes_extend_from_slice(&mut self.bytes, slice) {
            Ok(()) => true,
            Err(_) => false,
        }
    }

    /// Appends the bytes of `slice`, which must fit.
    pub fn extend_from_slice(&mut self, slice: &[u8])
        requires
            old(self).spec_bytes().len() + slice@.len() <= 64,
        ensures
            final(self).spec_bytes() == old(self).spec_bytes() + slice@,
            final(self).spec_pos() == old(self).spec_pos(),
            final(self).spec_done() == old(self).spec_done(),
    {
        let _ = self.try_extend_from_slice(slice);
    }

    /// Appends the bytes of each slice in turn. All of them must fit.
    pub fn extend_from_slices(&mut self, slices: &[&[u8]])
        requires
            old(self).spec_bytes().len() + joined(slices@, slices@.len() as int).len() <= 64,
        ensures
            final(self).spec_bytes() == old(self).spec_bytes() + joined(
                slices@,
                slices@.len() as int,
            ),
            final(self).spec_pos() == old(self).spec_pos(),
            final(self).spec_done() == old(self).spec_done(),
    {
        let ghost base = self.spec_bytes();
        let mut i: usize = 0;
        assert(base + joined(slices@, 0) =~= base);
        while i < slices.len()
            invariant
                i <= slices@.len(),
                base == old(self).spec_bytes(),
                base.len() + joined(slices@, slices@.len() as int).len() <= 64,
                self.spec_bytes() == base + joined(slices@, i as int),
                self.spec_pos() == old(self).spec_pos(),
                self.spec_done() == old(self).spec_done(),
            decreases slices@.len() - i,
        {
            proof {
                lemma_joined_grows(slices@, i + 1, slices@.len() as int);
                assert(base + joined(slices@, i + 1) =~= (base + joined(slices@, i as int))
                    + slices@[i as int]@);
            }
            self.extend_from_slice(slices[i]);
            i += 1;
        }
    }

    /// The message that holds the bytes of each slice in turn, nothing of it
    /// sent. All of them must fit.
    pub fn from_slices(slices: &[&[u8]]) -> (r: SysexSeq)
        requires
            joined(slices@, slices@.len() as int).len() <= 64,
        ensures
            r.spec_bytes() == joined(slices@, slices@.len() as int),
            r.spec_pos() == 0,
            !r.spec_done(),
    {
        let mut new = Self::new();
        new.extend_from_slices(slices);
        assert(Seq::<u8>::empty() + joined(slices@, slices@.len() as int) =~= joined(
            slices@,
            slices@.len() as int,
        ));
        new
    }

    /// The message that a pattern describes: the bytes of its `Val` and
    /// `Match` tokens in order. `Skip` and `Cap` tokens give no byte. There
    /// is no such message where the bytes do not fit.
    pub fn from_pattern(pattern: &[PatternExp]) -> (r: Option<SysexSeq>)
        ensures
            r is Some <==> pattern_bytes(pattern@, pattern@.len() as int).len() <= 64,
            r is Some ==> {
                &&& r->Some_0.spec_bytes() == pattern_bytes(pattern@, pattern@.len() as int)
                &&& r->Some_0.spec_pos() == 0
                &&& !r->Some_0.spec_done()
            },
    {
        let mut new = Self::new();
        let mut i: usize = 0;
        while i < pattern.len()
            invariant
                i <= pattern@.len(),
                new.spec_bytes() == pattern_bytes(pattern@, i as int),
                new.spec_bytes().len() <= 64,
                new.spec_pos() == 0,
                !new.spec_done(),
            decreases pattern@.len() - i,
        {
            proof {
                lemma_pattern_bytes_grow(pattern@, i + 1, pattern@.len() as int);
            }
            let fitted = match pattern[i] {
                PatternExp::Val(v) => {
                    let one = [v];
                    assert(one@ =~= seq![v]);
                    new.try_extend_from_slice(&one)
                },
                PatternExp::Match(seq) => new.try_extend_from_slice(seq),
                _ => {
                    assert(new.spec_bytes() + Seq::<u8>::empty() =~= new.spec_bytes());
                    true
                },
            };
            if !fitted {
                return None;
            }
            i += 1;
        }
        Some(new)
    }

    /// Starts the run over: the next packet handed out is its first.
    pub fn restart(&mut self)
        ensures
            final(self).spec_bytes() == old(self).spec_bytes(),
            final(self).spec_pos() == 0,
            !final(self).spec_done(),
    {
        self.pos = 0;
        self.done = false;
    }

    /// Hands out the next packet of the run on cable 0, or nothing once the
    /// run is closed.
    pub fn next(&mut self) -> (r: Option<Packet>)
        ensures
            final(self).spec_bytes() == old(self).spec_bytes(),
            old(self).spec_done() ==> r is None && final(self).spec_pos() == old(self).spec_pos()
                && final(self).spec_done(),
            !old(self).spec_done() ==> {
                let bytes = old(self).spec_bytes();
                let pos = old(self).spec_pos();
                &&& r is Some
                &&& r->Some_0@ == fragment_at(bytes, pos).encoded(0)
                &&& final(self).spec_done() == closes_at(bytes, pos)
                &&& final(self).spec_pos() == if closes_at(bytes, pos) {
                    pos
                } else {
                    after_fragment(bytes, pos)
                }
            },
    {
        if self.done {
            return None;
        }
        let bytes = bytes_as_slice(&self.bytes);
        let len = bytes.len();
        let pos = self.pos;
        let message = if pos == 0 {
            if len == 0 {
                self.done = true;
                MidiMessage::SysexEmpty
            } else if len == 1 {
                self.done = true;
                MidiMessage::SysexSingleByte(bytes[0])
            } else {
                self.pos = 2;
                MidiMessage::SysexBegin(bytes[0], bytes[1])
            }
        } else if len <= pos {
            self.done = true;
            MidiMessage::SysexEnd
        } else if len - pos == 1 {
            self.done = true;
            MidiMessage::SysexEnd1(bytes[pos])
        } else if len - pos == 2 {
            self.done = true;
            MidiMessage::SysexEnd2(bytes[pos], bytes[pos + 1])
        } else {
            self.pos = pos + 3;
            MidiMessage::SysexCont(bytes[pos], bytes[pos + 1], bytes[pos + 2])
        };
        Some(message.encode(U4::min()))
    }
}

/// The bytes of the first `n` slices, in order.
pub open spec fn joined(slices: Seq<&[u8]>, n: int) -> Seq<u8>
    decreases n,
{
    if n <= 0 {
        Seq::<u8>::empty()
    } else {
        joined(slices, n - 1) + slices[n - 1]@
    }
}

proof fn lemma_joined_grows(slices: Seq<&[u8]>, i: int, n: int)
    requires
        0 <= i <= n,
    ensures
        joined(slices, i).len() <= joined(slices, n).len(),
    decreases n - i,
{
    if i < n {
        lemma_joined_grows(slices, i, n - 1);
    }
}

/// The kind of a field that a pattern captures.
#[derive(Debug, Clone, Copy, Eq, PartialEq, Hash, Structural)]
pub enum ExpType {
    Channel,
    Velocity,
    DeviceId,
    /// Parameter code (cutoff, delay, etc.)
    ParamId,
    /// Control code (knob, pad, etc.)
    ControlId,
    /// Value of parameter
    ValueU7,
    /// Value of parameter
    MsbValueU4,
    /// Value of parameter
    LsbValueU4,
    /// Raw data
    Bytes(usize),
}

impl ExpType {
    /// The width of the field in bytes: what `Bytes` declares, and one for
    /// every other kind.
    pub open spec fn spec_len(&self) -> usize {
        match self {
            ExpType::Bytes(len) => *len,
            _ => 1,
        }
    }

    #[verifier::when_used_as_spec(spec_len)]
    pub fn len(&self) -> (r: usize)
        ensures
            r == self.spec_len(),
    {
        match self {
            ExpType::Bytes(len) => *len,
            _ => 1,
        }
    }
}

/// One token of a pattern.
#[derive(Debug, Clone, Copy)]
pub enum PatternExp {
    /// Passes over a number of bytes, whatever they hold.
    Skip(usize),
    /// One byte with a given value.
    Val(u8),
    /// A sequence of bytes with given values.
    Match(&'static [u8]),
    /// A field, which is recorded with the offset at which it starts.
    Cap(ExpType),
}

/// The bytes that a token gives when a message is built from a pattern.
pub open spec fn token_bytes(token: PatternExp) -> Seq<u8> {
    match token {
        PatternExp::Val(v) => seq![v],
        PatternExp::Match(s) => s@,
        _ => Seq::<u8>::empty(),
    }
}

/// The bytes that the first `n` tokens of `pattern` give, in order.
pub open spec fn pattern_bytes(pattern: Seq<PatternExp>, n: int) -> Seq<u8>
    decreases n,
{
    if n <= 0 {
        Seq::<u8>::empty()
    } else {
        pattern_bytes(pattern, n - 1) + token_bytes(pattern[n - 1])
    }
}

proof fn lemma_pattern_bytes_grow(pattern: Seq<PatternExp>, i: int, n: int)
    requires
        0 <= i <= n,
    ensures
        pattern_bytes(pattern, i).len() <= pattern_bytes(pattern, n).len(),
    decreases n - i,
{
    if i < n {
        lemma_pattern_bytes_grow(pattern, i, n - 1);
    }
}

/// The number of fields that the tokens of `pattern` from `i` on capture.
pub open spec fn capture_count(pattern: Seq<PatternExp>, i: int) -> nat
    decreases pattern.len() - i,
{
    if i < 0 || i >= pattern.len() {
        0
    } else if pattern[i] is Cap {
        1 + capture_count(pattern, i + 1)
    } else {
        capture_count(pattern, i + 1)
    }
}

/// Walks `buffer` from `pos` on by the tokens of `pattern` from `i` on.
/// The result says whether the tokens match the rest of the buffer to its
/// last byte, and which fields were recorded on the way, each with its
/// offset.
/// - `Skip` passes over its number of bytes, whatever they hold.
/// - `Val` needs its byte at the position.
/// - `Match` needs its bytes at the position.
/// - `Cap` needs room for its field, records it, and passes over it.
/// The walk ends without a match at the first token that finds the position
/// beyond the end of the buffer or does not find what it needs. Fields
/// recorded up to there stay recorded.
pub open spec fn walk(buffer: Seq<u8>, pattern: Seq<PatternExp>, i: int, pos: int) -> (
    bool,
    Seq<(usize, ExpType)>,
)
    decreases pattern.len() - i,
{
    if i < 0 || i >= pattern.len() {
        (pos == buffer.len(), Seq::<(usize, ExpType)>::empty())
    } else if pos < 0 || pos > buffer.len() {
        (false, Seq::<(usize, ExpType)>::empty())
    } else {
        match pattern[i] {
            PatternExp::Skip(n) => walk(buffer, pattern, i + 1, pos + n),
            PatternExp::Val(v) => if pos < buffer.len() && buffer[pos] == v {
                walk(buffer, pattern, i + 1, pos + 1)
            } else {
                (false, Seq::<(usize, ExpType)>::empty())
            },
            PatternExp::Match(s) => if found_at(buffer, pos, s@) {
                walk(buffer, pattern, i + 1, pos + s@.len())
            } else {
                (false, Seq::<(usize, ExpType)>::empty())
            },
            PatternExp::Cap(t) => if pos + t.spec_len() <= buffer.len() {
                let rest = walk(buffer, pattern, i + 1, pos + t.spec_len());
                (rest.0, seq![(pos as usize, t)] + rest.1)
            } else {
                (false, Seq::<(usize, ExpType)>::empty())
            },
        }
    }
}

/// The bytes of `needle` stand in `buffer` at `pos`.
pub open spec fn found_at(buffer: Seq<u8>, pos: int, needle: Seq<u8>) -> bool {
    &&& 0 <= pos
    &&& pos + needle.len() <= buffer.len()
    &&& buffer.subrange(pos, pos + needle.len()) == needle
}

/// Whether the bytes of `needle` stand in `buffer` at `pos`.
fn is_found_at(buffer: &[u8], pos: usize, needle: &[u8]) -> (r: bool)
    requires
        pos <= buffer@.len(),
    ensures
        r == found_at(buffer@, pos as int, needle@),
{
    if needle.len() > buffer.len() - pos {
        return false;
    }
    let mut k: usize = 0;
    while k < needle.len()
        invariant
            k <= needle@.len(),
            pos + needle@.len() <= buffer@.len() <= usize::MAX,
            forall|j: int| 0 <= j < k ==> buffer@[pos + j] == needle@[j],
        decreases needle@.len() - k,
    {
        if buffer[pos + k] != needle[k] {
            assert(buffer@.subrange(pos as int, pos + needle@.len())[k as int] != needle@[k as int]);
            return false;
        }
        k += 1;
    }
    assert(buffer@.subrange(pos as int, pos + needle@.len()) =~= needle@);
    true
}

/// Beyond the end of the buffer nothing matches and nothing is recorded.
proof fn lemma_walk_beyond(buffer: Seq<u8>, pattern: Seq<PatternExp>, i: int, pos: int)
    requires
        pos > buffer.len(),
    ensures
        walk(buffer, pattern, i, pos) == (false, Seq::<(usize, ExpType)>::empty()),
{
}

/// Matches a system-exclusive payload against a pattern. Returns whether
/// the pattern matches the payload to its last byte, and records the fields
/// that the pattern captures, each with the offset at which it starts. The
/// record must have room for the fields of the pattern.
pub fn pattern_match(
    sysex_buffer: &[u8],
    pattern: &[PatternExp],
    captured: &mut heapless::Vec<(usize, ExpType), 8>,
) -> (matched: bool)
    requires
        recorded_fields(*old(captured)).len() + capture_count(pattern@, 0) <= 8,
    ensures
        matched == walk(sysex_buffer@, pattern@, 0, 0).0,
        recorded_fields(*final(captured)) == recorded_fields(*old(captured)) + walk(
            sysex_buffer@,
            pattern@,
            0,
            0,
        ).1,
{
    let ghost base = recorded_fields(*captured);
    let ghost whole = walk(sysex_buffer@, pattern@, 0, 0);
    let ghost mut sofar = Seq::<(usize, ExpType)>::empty();
    let mut pos: usize = 0;
    let mut i: usize = 0;
    assert(base + sofar =~= base);
    while i < pattern.len()
        invariant
            i <= pattern@.len(),
            base == recorded_fields(*old(captured)),
            whole == walk(sysex_buffer@, pattern@, 0, 0),
            recorded_fields(*captured) == base + sofar,
            whole.0 == walk(sysex_buffer@, pattern@, i as int, pos as int).0,
            whole.1 == sofar + walk(sysex_buffer@, pattern@, i as int, pos as int).1,
            recorded_fields(*captured).len() + capture_count(pattern@, i as int) <= 8,
        decreases pattern@.len() - i,
    {
        let ghost here = walk(sysex_buffer@, pattern@, i as int, pos as int);
        if pos > sysex_buffer.len() {
            assert(sofar + here.1 =~= sofar);
            return false;
        }
        match pattern[i] {
            PatternExp::Skip(len) => match pos.checked_add(len) {
                Some(next) => {
                    pos = next;
                },
                None => {
                    proof {
                        lemma_walk_beyond(sysex_buffer@, pattern@, i + 1, pos + len);
                        assert(sofar + here.1 =~= sofar);
                    }
                    return false;
                },
            },
            PatternExp::Val(token) => {
                if pos < sysex_buffer.len() && sysex_buffer[pos] == token {
                    pos += 1;
                } else {
                    assert(sofar + here.1 =~= sofar);
                    return false;
                }
            },
            PatternExp::Match(seq) => {
                if is_found_at(sysex_buffer, pos, seq) {
                    pos += seq.len();
                } else {
                    assert(sofar + here.1 =~= sofar);
                    return false;
                }
            },
            PatternExp::Cap(exp_type) => {
                let width = exp_type.len();
                if width > sysex_buffer.len() - pos {
                    assert(sofar + here.1 =~= sofar);
                    return false;
                }
                let ghost rest = walk(sysex_buffer@, pattern@, i + 1, pos + width);
                match fields_push(captured, (pos, exp_type)) {
                    Ok(()) => {},
                    Err(_) => {
                        return false;
                    },
                }
                proof {
                    assert(sofar + (seq![(pos, exp_type)] + rest.1) =~= sofar.push((pos, exp_type))
                        + rest.1);
                    sofar = sofar.push((pos, exp_type));
                    assert(base + sofar =~= recorded_fields(*captured));
                }
                pos += width;
            },
        }
        i += 1;
    }
    assert(sofar + walk(sysex_buffer@, pattern@, i as int, pos as int).1 =~= sofar);
    pos == sysex_buffer.len()
}

/// The fields that a match has recorded.
pub fn recorded(captured: &heapless::Vec<(usize, ExpType), 8>) -> (r: &[(usize, ExpType)])
    ensures
        r@ == recorded_fields(*captured),
        r@.len() <= 8,
{
    fields_as_slice(captured)
}

/// The number of bytes that a token stands for in a payload.
pub open spec fn token_width(token: PatternExp) -> int {
    match token {
        PatternExp::Skip(n) => n as int,
        PatternExp::Val(_) => 1,
        PatternExp::Match(s) => s@.len() as int,
        PatternExp::Cap(t) => t.spec_len() as int,
    }
}

/// The number of bytes that the first `n` tokens of `pattern` stand for:
/// the offset of the token that follows them.
pub open spec fn width(pattern: Seq<PatternExp>, n: int) -> int
    decreases n,
{
    if n <= 0 {
        0
    } else {
        width(pattern, n - 1) + token_width(pattern[n - 1])
    }
}

/// The fields that the tokens of `pattern` from `i` on capture, each with
/// the offset of its token.
pub open spec fn layout_from(pattern: Seq<PatternExp>, i: int) -> Seq<(usize, ExpType)>
    decreases pattern.len() - i,
{
    if i < 0 || i >= pattern.len() {
        Seq::<(usize, ExpType)>::empty()
    } else {
        match pattern[i] {
            PatternExp::Cap(t) => seq![(width(pattern, i) as usize, t)] + layout_from(
                pattern,
                i + 1,
            ),
            _ => layout_from(pattern, i + 1),
        }
    }
}

/// The payload is built by the pattern: it is as long as the tokens say,
/// and holds at the offset of each `Val` and `Match` token the bytes of that
/// token. What it holds under `Skip` and `Cap` tokens is free.
pub open spec fn conforms(buffer: Seq<u8>, pattern: Seq<PatternExp>) -> bool {
    &&& buffer.len() == width(pattern, pattern.len() as int)
    &&& forall|i: int|
        0 <= i < pattern.len() ==> match #[trigger] pattern[i] {
            PatternExp::Val(v) => buffer[width(pattern, i)] == v,
            PatternExp::Match(s) => buffer.subrange(width(pattern, i), width(pattern, i + 1)) == s@,
            _ => true,
        }
}

proof fn lemma_width_grows(pattern: Seq<PatternExp>, i: int, n: int)
    requires
        0 <= i <= n,
    ensures
        0 <= width(pattern, i) <= width(pattern, n),
    decreases n,
{
    if n > 0 {
        if i < n {
            lemma_width_grows(pattern, i, n - 1);
        } else {
            lemma_width_grows(pattern, i - 1, n - 1);
        }
    }
}

proof fn lemma_walk_conforming(buffer: Seq<u8>, pattern: Seq<PatternExp>, i: int)
    requires
        conforms(buffer, pattern),
        0 <= i <= pattern.len(),
    ensures
        walk(buffer, pattern, i, width(pattern, i)) == (true, layout_from(pattern, i)),
    decreases pattern.len() - i,
{
    if i < pattern.len() {
        lemma_width_grows(pattern, i + 1, pattern.len() as int);
        lemma_width_grows(pattern, i, i + 1);
        lemma_walk_conforming(buffer, pattern, i + 1);
        assert(width(pattern, i + 1) == width(pattern, i) + token_width(pattern[i]));
    }
}

/// A payload that is built by a pattern matches the pattern, and the match
/// records each field of the pattern at the offset at which the pattern
/// puts it.
pub proof fn lemma_match_of_conforming(buffer: Seq<u8>, pattern: Seq<PatternExp>)
    requires
        conforms(buffer, pattern),
    ensures
        walk(buffer, pattern, 0, 0) == (true, layout_from(pattern, 0)),
{
    lemma_walk_conforming(buffer, pattern, 0);
}

proof fn lemma_pattern_bytes_prefix(pattern: Seq<PatternExp>, i: int, n: int)
    requires
        0 <= i <= n <= pattern.len(),
        forall|k: int| 0 <= k < pattern.len() ==> pattern[k] is Val || pattern[k] is Match,
    ensures
        pattern_bytes(pattern, n).len() == width(pattern, n),
        pattern_bytes(pattern, i).len() == width(pattern, i),
        pattern_bytes(pattern, n).subrange(0, width(pattern, i)) == pattern_bytes(pattern, i),
    decreases n,
{
    if n > 0 {
        if i < n {
            lemma_pattern_bytes_prefix(pattern, i, n - 1);
            lemma_width_grows(pattern, i, n - 1);
            assert(pattern_bytes(pattern, n).subrange(0, width(pattern, i)) =~= pattern_bytes(
                pattern,
                n - 1,
            ).subrange(0, width(pattern, i)));
        } else {
            lemma_pattern_bytes_prefix(pattern, n - 1, n - 1);
            assert(pattern_bytes(pattern, n).subrange(0, width(pattern, n)) =~= pattern_bytes(
                pattern,
                n,
            ));
        }
    } else {
        assert(pattern_bytes(pattern, n).subrange(0, 0) =~= pattern_bytes(pattern, i));
    }
}

/// The message that is built from a pattern of `Val` and `Match` tokens
/// matches the pattern.
pub proof fn lemma_generated_matches(pattern: Seq<PatternExp>)
    requires
        forall|k: int| 0 <= k < pattern.len() ==> pattern[k] is Val || pattern[k] is Match,
    ensures
        conforms(pattern_bytes(pattern, pattern.len() as int), pattern),
        walk(pattern_bytes(pattern, pattern.len() as int), pattern, 0, 0).0,
{
    let n = pattern.len() as int;
    let all = pattern_bytes(pattern, n);
    lemma_pattern_bytes_prefix(pattern, n, n);
    assert forall|i: int| 0 <= i < pattern.len() implies match #[trigger] pattern[i] {
        PatternExp::Val(v) => all[width(pattern, i)] == v,
        PatternExp::Match(s) => all.subrange(width(pattern, i), width(pattern, i + 1)) == s@,
        _ => true,
    } by {
        lemma_pattern_bytes_prefix(pattern, i + 1, n);
        lemma_pattern_bytes_prefix(pattern, i, i + 1);
        lemma_width_grows(pattern, i, i + 1);
        lemma_width_grows(pattern, i + 1, n);
        let upto = pattern_bytes(pattern, i + 1);
        assert(upto == pattern_bytes(pattern, i) + token_bytes(pattern[i]));
        assert(upto == all.subrange(0, width(pattern, i + 1)));
        assert(forall|k: int| 0 <= k < upto.len() ==> upto[k] == all[k]);
        assert(all.subrange(width(pattern, i), width(pattern, i + 1)) =~= upto.subrange(
            width(pattern, i),
            width(pattern, i + 1),
        ));
        assert(upto.subrange(width(pattern, i), width(pattern, i + 1)) =~= token_bytes(pattern[i]));
        match pattern[i] {
            PatternExp::Val(v) => {
                assert(all.subrange(width(pattern, i), width(pattern, i + 1))[0] == v);
            },
            _ => {},
        }
    }
    lemma_match_of_conforming(all, pattern);
}

} // verus!
