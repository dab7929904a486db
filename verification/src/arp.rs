//! ARP packets.

use crate::blob::Blob;
use crate::parse::{agrees, be16, be16_at, Context, Decoded, Failure, Input, Parsed};
use vstd::prelude::*;
use vstd::slice::slice_subrange;

verus! {

/// The width of the fixed part of an ARP packet.
pub const HEADER_LEN: usize = 8;

/// The fixed part of an ARP packet.
#[derive(Clone, Copy, Debug, PartialEq, Eq, Structural)]
pub struct Header {
    pub hardware_type: u16,
    pub protocol_type: u16,
    /// The width of a hardware address in bytes.
    pub hardware_len: u8,
    /// The width of a protocol address in bytes.
    pub protocol_len: u8,
    pub operation: u16,
}

impl Header {
    /// The header that the first eight bytes of `s` encode.
    pub open spec fn of(s: Seq<u8>) -> Header {
        Header {
            hardware_type: be16(s, 0),
            protocol_type: be16(s, 2),
            hardware_len: s[4],
            protocol_len: s[5],
            operation: be16(s, 6),
        }
    }

    /// Decodes the header at the front of `b`.
    pub(crate) fn decode(b: &[u8]) -> (h: Header)
        requires
            b@.len() >= HEADER_LEN,
        ensures
            h == Header::of(b@),
    {
        Header {
            hardware_type: be16_at(b, 0),
            protocol_type: be16_at(b, 2),
            hardware_len: b[4],
            protocol_len: b[5],
            operation: be16_at(b, 6),
        }
    }

    /// The number of bytes that the four addresses take together.
    pub open spec fn addresses_len(self) -> nat {
        (2 * (self.hardware_len + self.protocol_len)) as nat
    }
}

/// A decoded ARP packet. The addresses have the widths that the header
/// declares and are kept as they are.
#[derive(Clone, Debug, PartialEq, Eq)]
pub struct Packet {
    pub header: Header,
    pub sender_hardware: Blob,
    pub sender_protocol: Blob,
    pub target_hardware: Blob,
    pub target_protocol: Blob,
}

/// The model of a [`Packet`].
pub struct PacketView {
    pub header: Header,
    pub sender_hardware: Seq<u8>,
    pub sender_protocol: Seq<u8>,
    pub target_hardware: Seq<u8>,
    pub target_protocol: Seq<u8>,
}

impl View for Packet {
    type V = PacketView;

    open spec fn view(&self) -> PacketView {
        PacketView {
            header: self.header,
            sender_hardware: self.sender_hardware@,
            sender_protocol: self.sender_protocol@,
            target_hardware: self.target_hardware@,
            target_protocol: self.target_protocol@,
        }
    }
}

impl Packet {
    /// What decoding a packet makes of `s`: the header, then the sender's
    /// hardware and protocol address and the target's, each as wide as the
    /// header declares. It fails where the header or the addresses do not
    /// fit in `s`.
    pub open spec fn spec_parse(s: Seq<u8>) -> Decoded<PacketView> {
        if s.len() < HEADER_LEN {
            Err(Failure::short(0).within(Context::ArpPacket))
        } else if s.len() < HEADER_LEN + Header::of(s).addresses_len() {
            Err(Failure::short(HEADER_LEN as nat).within(Context::ArpPacket))
        } else {
            let h = Header::of(s);
            let a = HEADER_LEN as int;
            let b = a + h.hardware_len;
            let c = b + h.protocol_len;
            let d = c + h.hardware_len;
            let e = d + h.protocol_len;
            Ok(
                (
                    PacketView {
                        header: h,
                        sender_hardware: s.subrange(a, b),
                        sender_protocol: s.subrange(b, c),
                        target_hardware: s.subrange(c, d),
                        target_protocol: s.subrange(d, e),
                    },
                    e as nat,
                ),
            )
        }
    }

    /// Decodes the packet at `i`.
    pub fn parse<'a>(i: Input<'a>) -> (r: Parsed<'a, Packet>)
        ensures
            agrees(i, r, Self::spec_parse(i.rest())),
    {
        let (body, block) = match i.read(HEADER_LEN) {
            Ok(x) => x,
            Err(e) => return Err(e.within(Context::ArpPacket)),
        };
        let header = Header::decode(block);
        proof {
            assert(Header::of(block@) == Header::of(i.rest()));
        }
        let hw: usize = header.hardware_len as usize;
        let pr: usize = header.protocol_len as usize;
        let (next, addresses) = match body.read(2 * (hw + pr)) {
            Ok(x) => x,
            Err(e) => return Err(e.within(Context::ArpPacket)),
        };
        let sender_hardware = slice_subrange(addresses, 0, hw);
        let sender_protocol = slice_subrange(addresses, hw, hw + pr);
        let target_hardware = slice_subrange(addresses, hw + pr, 2 * hw + pr);
        let target_protocol = slice_subrange(addresses, 2 * hw + pr, 2 * hw + 2 * pr);
        proof {
            let s = i.rest();
            let a = HEADER_LEN as int;
            assert(sender_hardware@ == s.subrange(a, a + hw));
            assert(sender_protocol@ == s.subrange(a + hw, a + hw + pr));
            assert(target_hardware@ == s.subrange(a + hw + pr, a + hw + pr + hw));
            assert(target_protocol@ == s.subrange(a + hw + pr + hw, a + hw + pr + hw + pr));
            body.lemma_follows_chain(i, HEADER_LEN as nat, next, (2 * (hw + pr)) as nat);
        }
        Ok(
            (
                next,
                Packet {
                    header,
                    sender_hardware: Blob::from_slice(sender_hardware),
                    sender_protocol: Blob::from_slice(sender_protocol),
                    target_hardware: Blob::from_slice(target_hardware),
                    target_protocol: Blob::from_slice(target_protocol),
                },
            ),
        )
    }
}

/// Decoding a packet again from exactly the bytes that a successful decode
/// consumed yields the same packet and consumes the same bytes.
pub proof fn lemma_reparse(s: Seq<u8>)
    requires
        Packet::spec_parse(s) is Ok,
    ensures
        Packet::spec_parse(s)->Ok_0.1 <= s.len(),
        Packet::spec_parse(s.take(Packet::spec_parse(s)->Ok_0.1 as int)) == Packet::spec_parse(s),
{
    let n = Packet::spec_parse(s)->Ok_0.1 as int;
    let t = s.take(n);
    let h = Header::of(s);
    assert(Header::of(t) == h);
    let a = HEADER_LEN as int;
    let b = a + h.hardware_len;
    let c = b + h.protocol_len;
    let d = c + h.hardware_len;
    assert(t.subrange(a, b) == s.subrange(a, b));
    assert(t.subrange(b, c) == s.subrange(b, c));
    assert(t.subrange(c, d) == s.subrange(c, d));
    assert(t.subrange(d, n) == s.subrange(d, n));
}

} // verus!
