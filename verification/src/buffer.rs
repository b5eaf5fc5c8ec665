//! The fixed-capacity byte buffer that holds system-exclusive payloads.
//!
//! The buffer is a `heapless::Vec` of 64 bytes. What it holds is known to the
//! verifier only through the contracts below, which restate what the
//! vector's own code does.

use vstd::prelude::*;
use crate::packet::Packet;
use crate::sysex::ExpType;

verus! {

/// Number of bytes that a system-exclusive buffer can hold.
pub const SYSEX_CAPACITY: usize = 64;

/// A system-exclusive buffer.
pub type SysexBuffer = heapless::Vec<u8, 64>;

#[verifier::external_type_specification]
#[verifier::external_body]
#[verifier::reject_recursive_types(T)]
pub struct ExHeaplessVec<T, const N: usize>(heapless::Vec<T, N>);

/// The bytes that a system-exclusive buffer holds, first pushed first.
pub uninterp spec fn sysex_bytes(v: heapless::Vec<u8, 64>) -> Seq<u8>;

/// `heapless::Vec::new`: the new vector holds nothing.
#[verifier::external_body]
pub(crate) fn bytes_new() -> (v: heapless::Vec<u8, 64>)
    ensures
        sysex_bytes(v) == Seq::<u8>::empty(),
{
    heapless::Vec::new()
}

/// `heapless::Vec::clear`: the vector holds nothing afterwards.
#[verifier::external_body]
pub(crate) fn bytes_clear(v: &mut heapless::Vec<u8, 64>)
    ensures
        sysex_bytes(*final(v)) == Seq::<u8>::empty(),
{
    v.clear()
}

/// `heapless::Vec::push`: appends the byte where fewer than 64 are held;
/// where 64 are held it leaves them as they are and hands the byte back.
#[verifier::external_body]
pub(crate) fn bytes_push(v: &mut heapless::Vec<u8, 64>, byte: u8) -> (r: Result<(), u8>)
    ensures
        r is Ok <==> sysex_bytes(*old(v)).len() < 64,
        r is Ok ==> sysex_bytes(*final(v)) == sysex_bytes(*old(v)).push(byte),
        r is Err ==> r->Err_0 == byte && sysex_bytes(*final(v)) == sysex_bytes(*old(v)),
{
    v.push(byte)
}

/// `heapless::Vec::extend_from_slice`: appends the bytes of `other` in order
/// where all of them fit; where they do not it changes nothing and fails.
#[verifier::external_body]
pub(crate) fn bytes_extend_from_slice(v: &mut heapless::Vec<u8, 64>, other: &[u8]) -> (r: Result<
    (),
    (),
>)
    ensures
        r is Ok <==> sysex_bytes(*old(v)).len() + other@.len() <= 64,
        r is Ok ==> sysex_bytes(*final(v)) == sysex_bytes(*old(v)) + other@,
        r is Err ==> sysex_bytes(*final(v)) == sysex_bytes(*old(v)),
{
    v.extend_from_slice(other)
}

/// `heapless::Vec::as_slice`: the slice holds the vector's bytes in order,
/// and they are never more than 64.
#[verifier::external_body]
pub(crate) fn bytes_as_slice(v: &heapless::Vec<u8, 64>) -> (s: &[u8])
    ensures
        s@ == sysex_bytes(*v),
        s@.len() <= 64,
{
    v.as_slice()
}

/// The packets that a packet list holds, first pushed first.
pub uninterp spec fn listed_packets(v: heapless::Vec<Packet, 16>) -> Seq<Packet>;

/// `heapless::Vec::new`: the new vector holds nothing.
#[verifier::external_body]
pub(crate) fn packets_new() -> (v: heapless::Vec<Packet, 16>)
    ensures
        listed_packets(v) == Seq::<Packet>::empty(),
{
    heapless::Vec::new()
}

/// `heapless::Vec::push`: appends the packet where fewer than 16 are held;
/// where 16 are held it leaves them as they are and hands the packet back.
#[verifier::external_body]
pub(crate) fn packets_push(v: &mut heapless::Vec<Packet, 16>, packet: Packet) -> (r: Result<
    (),
    Packet,
>)
    ensures
        r is Ok <==> listed_packets(*old(v)).len() < 16,
        r is Ok ==> listed_packets(*final(v)) == listed_packets(*old(v)).push(packet),
        r is Err ==> r->Err_0 == packet && listed_packets(*final(v)) == listed_packets(*old(v)),
{
    v.push(packet)
}

/// `heapless::Vec::as_slice`: the slice holds the vector's packets in order,
/// and they are never more than 16.
#[verifier::external_body]
pub(crate) fn packets_as_slice(v: &heapless::Vec<Packet, 16>) -> (s: &[Packet])
    ensures
        s@ == listed_packets(*v),
        s@.len() <= 16,
{
    v.as_slice()
}

/// The fields that a pattern match has recorded, first recorded first: each
/// with the offset at which it starts.
pub uninterp spec fn recorded_fields(v: heapless::Vec<(usize, ExpType), 8>) -> Seq<(usize, ExpType)>;

/// `heapless::Vec::new`: the new vector holds nothing.
#[verifier::external_body]
pub(crate) fn fields_new() -> (v: heapless::Vec<(usize, ExpType), 8>)
    ensures
        recorded_fields(v).len() == 0,
{
    heapless::Vec::new()
}

/// `heapless::Vec::push`: appends the field where fewer than 8 are held;
/// where 8 are held it leaves them as they are and hands the field back.
#[verifier::external_body]
pub(crate) fn fields_push(v: &mut heapless::Vec<(usize, ExpType), 8>, field: (usize, ExpType)) -> (r:
    Result<(), (usize, ExpType)>)
    ensures
        r is Ok <==> recorded_fields(*old(v)).len() < 8,
        r is Ok ==> recorded_fields(*final(v)) == recorded_fields(*old(v)).push(field),
        r is Err ==> r->Err_0 == field && recorded_fields(*final(v)) == recorded_fields(*old(v)),
{
    v.push(field)
}

/// `heapless::Vec::as_slice`: the slice holds the vector's fields in order,
/// and they are never more than 8.
#[verifier::external_body]
pub(crate) fn fields_as_slice(v: &heapless::Vec<(usize, ExpType), 8>) -> (s: &[(usize, ExpType)])
    ensures
        s@ == recorded_fields(*v),
        s@.len() <= 8,
{
    v.as_slice()
}

/// What a buffer that held `base` holds after the bytes of `extra` were
/// pushed one by one until one did not fit.
pub open spec fn pushed(base: Seq<u8>, extra: Seq<u8>) -> Seq<u8> {
    if base.len() + extra.len() <= 64 {
        base + extra
    } else {
        (base + extra).subrange(0, 64)
    }
}

/// The number of bytes held.
pub fn bytes_len(v: &heapless::Vec<u8, 64>) -> (n: usize)
    ensures
        n == sysex_bytes(*v).len(),
        n <= 64,
{
    bytes_as_slice(v).len()
}

/// Pushes the bytes of `extra` one by one and stops at the first that does
/// not fit. Returns whether all of them fitted.
pub fn bytes_push_all(v: &mut heapless::Vec<u8, 64>, extra: &[u8]) -> (fitted: bool)
    ensures
        sysex_bytes(*final(v)) == pushed(sysex_bytes(*old(v)), extra@),
        fitted <==> sysex_bytes(*old(v)).len() + extra@.len() <= 64,
{
    let ghost base = sysex_bytes(*v);
    let held = bytes_len(v);
    let mut i: usize = 0;
    while i < extra.len()
        invariant
            i <= extra@.len(),
            base == sysex_bytes(*old(v)),
            base.len() <= 64,
            base.len() + i <= 64,
            sysex_bytes(*v) == base + extra@.subrange(0, i as int),
        decreases extra@.len() - i,
    {
        match bytes_push(v, extra[i]) {
            Ok(()) => {
                assert(base + extra@.subrange(0, i as int + 1) =~= (base + extra@.subrange(
                    0,
                    i as int,
                )).push(extra@[i as int]));
                i += 1;
            },
            Err(_) => {
                assert(sysex_bytes(*v) =~= (base + extra@).subrange(0, 64));
                return false;
            },
        }
    }
    assert(extra@.subrange(0, i as int) =~= extra@);
    true
}

} // verus!
