//! A bounded list of packets, as handed to a transport for sending.

use vstd::prelude::*;
use vstd::std_specs::convert::FromSpecImpl;
use vstd::array::array_as_slice;
use crate::buffer::{
    bytes_new, bytes_push_all, listed_packets, packets_as_slice, packets_new, packets_push,
    sysex_bytes,
};
use crate::message::MidiMessage;
use crate::packet::Packet;
use crate::sysex::{after_fragment, closes_at, fragment_at, fragments_from, SysexSeq};

verus! {

/// Number of packets that a packet list can hold.
pub const MAX_PACKETS: usize = 16;

/// Up to sixteen packets, in the order in which they are to be sent.
#[derive(Debug)]
pub struct PacketList(pub heapless::Vec<Packet, 16>);

/// The fragments that a message on its way out has yet to hand out.
pub open spec fn fragments_left(seq: SysexSeq) -> Seq<MidiMessage> {
    if seq.spec_done() {
        Seq::<MidiMessage>::empty()
    } else {
        fragments_from(seq.spec_bytes(), seq.spec_pos())
    }
}

impl PacketList {
    /// The packets of the list, in order.
    pub open spec fn view(self) -> Seq<Packet> {
        listed_packets(self.0)
    }

    /// The list holds the packets that carry the first fragments of
    /// `fragments` on cable 0: all of them, or the first sixteen.
    pub open spec fn carries(self, fragments: Seq<MidiMessage>) -> bool {
        &&& self@.len() == if fragments.len() <= 16 {
            fragments.len()
        } else {
            16
        }
        &&& forall|k: int| 0 <= k < self@.len() ==> (#[trigger] self@[k])@ == fragments[k].encoded(0)
    }

    /// The empty list.
    pub fn new() -> (r: PacketList)
        ensures
            r@ == Seq::<Packet>::empty(),
    {
        PacketList(packets_new())
    }

    /// The list of one packet.
    pub fn single(packet: Packet) -> (r: PacketList)
        ensures
            r@ == seq![packet],
    {
        let mut list = packets_new();
        let _ = packets_push(&mut list, packet);
        assert(listed_packets(list) =~= seq![packet]);
        PacketList(list)
    }

    /// Appends a packet where there is room, and says whether there was.
    pub fn push(&mut self, packet: Packet) -> (pushed: bool)
        ensures
            pushed <==> old(self)@.len() < 16,
            pushed ==> final(self)@ == old(self)@.push(packet),
            !pushed ==> final(self)@ == old(self)@,
    {
        match packets_push(&mut self.0, packet) {
            Ok(()) => true,
            Err(_) => false,
        }
    }

    /// The packets of the list, in order.
    pub fn as_slice(&self) -> (r: &[Packet])
        ensures
            r@ == self@,
            r@.len() <= 16,
    {
        packets_as_slice(&self.0)
    }

    /// The number of packets in the list.
    pub fn len(&self) -> (r: usize)
        ensures
            r == self@.len(),
            r <= 16,
    {
        packets_as_slice(&self.0).len()
    }

    /// The first packets of `packets`: all of them, or the first sixteen.
    pub fn from_slice(packets: &[Packet]) -> (r: PacketList)
        ensures
            packets@.len() <= 16 ==> r@ == packets@,
            packets@.len() > 16 ==> r@ == packets@.subrange(0, 16),
    {
        let mut list = PacketList::new();
        let mut i: usize = 0;
        while i < packets.len() && i < MAX_PACKETS
            invariant
                i <= packets@.len(),
                i <= 16,
                list@ == packets@.subrange(0, i as int),
            decreases packets@.len() - i,
        {
            let _ = list.push(packets[i]);
            assert(list@ =~= packets@.subrange(0, i + 1));
            i += 1;
        }
        assert(packets@.len() <= 16 ==> packets@.subrange(0, i as int) =~= packets@);
        list
    }

    /// The packets that a USB transfer holds: one for each full group of
    /// four bytes, in order, up to sixteen. Bytes after the last full group
    /// are left out.
    pub fn from_bytes(bytes: &[u8]) -> (r: PacketList)
        ensures
            r@.len() == if bytes@.len() / 4 <= 16 {
                bytes@.len() / 4
            } else {
                16
            },
            forall|k: int|
                0 <= k < r@.len() ==> (#[trigger] r@[k])@ == bytes@.subrange(4 * k, 4 * k + 4),
    {
        let mut list = PacketList::new();
        let mut n: usize = 0;
        while n < MAX_PACKETS && 4 * n + 4 <= bytes.len()
            invariant
                n <= 16,
                4 * n <= bytes@.len(),
                list@.len() == n,
                forall|k: int|
                    0 <= k < n ==> (#[trigger] list@[k])@ == bytes@.subrange(4 * k, 4 * k + 4),
            decreases 16 - n,
        {
            let at = 4 * n;
            let packet = Packet::from_raw([bytes[at], bytes[at + 1], bytes[at + 2], bytes[at + 3]]);
            assert(packet@ =~= bytes@.subrange(4 * n, 4 * n + 4));
            let _ = list.push(packet);
            n += 1;
        }
        list
    }

    /// The bytes of the packets as they go over USB: four for each packet,
    /// in order.
    pub fn wire_bytes(&self) -> (r: heapless::Vec<u8, 64>)
        ensures
            sysex_bytes(r).len() == 4 * self@.len(),
            forall|k: int|
                0 <= k < self@.len() ==> sysex_bytes(r).subrange(4 * k, 4 * k + 4) == (
                #[trigger] self@[k])@,
    {
        let packets = self.as_slice();
        let mut out = bytes_new();
        let mut n: usize = 0;
        while n < packets.len()
            invariant
                n <= packets@.len() <= 16,
                packets@ == self@,
                sysex_bytes(out).len() == 4 * n,
                forall|k: int|
                    0 <= k < n ==> sysex_bytes(out).subrange(4 * k, 4 * k + 4) == (
                    #[trigger] packets@[k])@,
            decreases packets@.len() - n,
        {
            let ghost before = sysex_bytes(out);
            let four = array_as_slice(packets[n].bytes());
            let _ = bytes_push_all(&mut out, four);
            proof {
                assert(sysex_bytes(out) == before + four@);
                assert(sysex_bytes(out).subrange(4 * n, 4 * n + 4) =~= packets@[n as int]@);
                assert forall|k: int| 0 <= k < n implies sysex_bytes(out).subrange(
                    4 * k,
                    4 * k + 4,
                ) == (#[trigger] packets@[k])@ by {
                    assert(sysex_bytes(out).subrange(4 * k, 4 * k + 4) =~= before.subrange(
                        4 * k,
                        4 * k + 4,
                    ));
                }
            }
            n += 1;
        }
        out
    }

    /// Takes the packets that `seq` has yet to hand out: all of them, or the
    /// first sixteen.
    pub fn from_sysex(seq: SysexSeq) -> (r: PacketList)
        ensures
            r.carries(fragments_left(seq)),
    {
        let mut rest = seq;
        let ghost all = fragments_left(seq);
        let mut list = PacketList::new();
        let mut n: usize = 0;
        while n < MAX_PACKETS
            invariant
                n <= 16,
                list@.len() == n,
                n <= all.len(),
                all == fragments_left(seq),
                forall|k: int| 0 <= k < n ==> (#[trigger] list@[k])@ == all[k].encoded(0),
                fragments_left(rest) == all.subrange(n as int, all.len() as int),
            decreases 16 - n,
        {
            let ghost before = rest;
            let ghost left = fragments_left(before);
            assert(left.len() == all.len() - n);
            match rest.next() {
                None => {
                    return list;
                },
                Some(packet) => {
                    proof {
                        let bytes = before.spec_bytes();
                        let pos = before.spec_pos();
                        assert(left == fragments_from(bytes, pos));
                        if closes_at(bytes, pos) {
                            assert(left =~= seq![fragment_at(bytes, pos)]);
                        } else {
                            assert(left =~= seq![fragment_at(bytes, pos)] + fragments_from(
                                bytes,
                                after_fragment(bytes, pos),
                            ));
                        }
                        assert(left[0] == fragment_at(bytes, pos));
                        assert(all[n as int] == left[0]);
                        assert(fragments_left(rest) =~= left.subrange(1, left.len() as int));
                        assert(fragments_left(rest) =~= all.subrange(n + 1, all.len() as int));
                    }
                    let _ = list.push(packet);
                    n += 1;
                },
            }
        }
        list
    }
}

impl Default for PacketList {
    fn default() -> (r: PacketList)
        ensures
            r@ == Seq::<Packet>::empty(),
    {
        PacketList::new()
    }
}

impl From<SysexSeq> for PacketList {
    /// Takes the packets that `value` has yet to hand out: all of them, or
    /// the first sixteen.
    fn from(value: SysexSeq) -> (r: PacketList)
        ensures
            r.carries(fragments_left(value)),
    {
        PacketList::from_sysex(value)
    }
}

impl FromSpecImpl<SysexSeq> for PacketList {
    /// The conversion is stated by the `ensures` of `from`: a list is known
    /// by the packets it holds, which do not single out one value.
    open spec fn obeys_from_spec() -> bool {
        false
    }

    open spec fn from_spec(value: SysexSeq) -> PacketList {
        choose|list: PacketList| list.carries(fragments_left(value))
    }
}

} // verus!
