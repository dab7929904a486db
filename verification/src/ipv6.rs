//! IPv6 packets.

use crate::blob::Blob;
use crate::parse::{agrees, be16, be16_at, Context, Decoded, Failure, Input, Parsed};
use vstd::prelude::*;

verus! {

/// The width of the IPv6 header.
pub const HEADER_LEN: usize = 40;

/// An IPv6 address as its eight 16 bit groups, in the order they are written.
#[derive(Clone, Copy, Debug, PartialEq, Eq, Structural)]
pub struct Addr(pub u16, pub u16, pub u16, pub u16, pub u16, pub u16, pub u16, pub u16);

impl Addr {
    /// The address that the sixteen bytes at `k` in `s` encode.
    pub open spec fn at(s: Seq<u8>, k: int) -> Addr {
        Addr(
            be16(s, k),
            be16(s, k + 2),
            be16(s, k + 4),
            be16(s, k + 6),
            be16(s, k + 8),
            be16(s, k + 10),
            be16(s, k + 12),
            be16(s, k + 14),
        )
    }

    /// Decodes the address at `k` in `b`.
    pub(crate) fn decode(b: &[u8], k: usize) -> (a: Addr)
        requires
            k + 16 <= b@.len(),
        ensures
            a == Addr::at(b@, k as int),
    {
        let len: usize = b.len();
        assert(k + 16 <= len);
        Addr(
            be16_at(b, k),
            be16_at(b, k + 2),
            be16_at(b, k + 4),
            be16_at(b, k + 6),
            be16_at(b, k + 8),
            be16_at(b, k + 10),
            be16_at(b, k + 12),
            be16_at(b, k + 14),
        )
    }
}

/// The IPv6 header.
#[derive(Clone, Copy, Debug, PartialEq, Eq, Structural)]
pub struct Header {
    /// The high four bits of the first byte.
    pub version: u8,
    /// The eight bits behind the version.
    pub traffic_class: u8,
    /// The twenty bits behind the traffic class.
    pub flow_label: u32,
    /// The number of bytes behind the header that belong to the packet.
    pub payload_length: u16,
    pub next_header: u8,
    pub hop_limit: u8,
    pub source: Addr,
    pub destination: Addr,
}

impl Header {
    /// The header that the first forty bytes of `s` encode.
    pub open spec fn of(s: Seq<u8>) -> Header {
        Header {
            version: (s[0] / 16) as u8,
            traffic_class: ((s[0] % 16) * 16 + s[1] / 16) as u8,
            flow_label: ((s[1] % 16) * 65536 + be16(s, 2)) as u32,
            payload_length: be16(s, 4),
            next_header: s[6],
            hop_limit: s[7],
            source: Addr::at(s, 8),
            destination: Addr::at(s, 24),
        }
    }

    /// Decodes the header at the front of `b`.
    pub(crate) fn decode(b: &[u8]) -> (h: Header)
        requires
            b@.len() >= HEADER_LEN,
        ensures
            h == Header::of(b@),
    {
        let low: u32 = (b[1] % 16) as u32;
        Header {
            version: b[0] / 16,
            traffic_class: (b[0] % 16) * 16 + b[1] / 16,
            flow_label: low * 65536 + be16_at(b, 2) as u32,
            payload_length: be16_at(b, 4),
            next_header: b[6],
            hop_limit: b[7],
            source: Addr::decode(b, 8),
            destination: Addr::decode(b, 24),
        }
    }
}

/// A decoded IPv6 packet. What the packet carries is kept as it is.
#[derive(Clone, Debug, PartialEq, Eq)]
pub struct Packet {
    pub header: Header,
    pub payload: Blob,
}

/// The model of a [`Packet`].
pub struct PacketView {
    pub header: Header,
    pub payload: Seq<u8>,
}

impl View for Packet {
    type V = PacketView;

    open spec fn view(&self) -> PacketView {
        PacketView { header: self.header, payload: self.payload@ }
    }
}

impl Packet {
    /// What decoding a packet makes of `s`: the header, then as many bytes
    /// as the payload length declares. It fails where the header or the
    /// declared payload does not fit in `s`.
    pub open spec fn spec_parse(s: Seq<u8>) -> Decoded<PacketView> {
        if s.len() < HEADER_LEN {
            Err(Failure::short(0).within(Context::Ipv6Packet))
        } else if s.len() < HEADER_LEN + Header::of(s).payload_length {
            Err(Failure::short(HEADER_LEN as nat).within(Context::Ipv6Packet))
        } else {
            let h = Header::of(s);
            let end = HEADER_LEN + h.payload_length;
            Ok(
                (
                    PacketView { header: h, payload: s.subrange(HEADER_LEN as int, end) },
                    end as nat,
                ),
            )
        }
    }

    /// Decodes the packet at `i`.
    pub fn parse<'a>(i: Input<'a>) -> (r: Parsed<'a, Packet>)
        ensures
            agrees(i, r, Self::spec_parse(i.rest())),
    {
        let (body, block) = match i.read(HEADER_LEN) {
            Ok(x) => x,
            Err(e) => return Err(e.within(Context::Ipv6Packet)),
        };
        let header = Header::decode(block);
        proof {
            assert(Header::of(block@) == Header::of(i.rest()));
        }
        let (next, data) = match body.read(header.payload_length as usize) {
            Ok(x) => x,
            Err(e) => return Err(e.within(Context::Ipv6Packet)),
        };
        proof {
            let end = HEADER_LEN + header.payload_length;
            assert(data@ == i.rest().subrange(HEADER_LEN as int, end));
            body.lemma_follows_chain(i, HEADER_LEN as nat, next, header.payload_length as nat);
        }
        Ok((next, Packet { header, payload: Blob::from_slice(data) }))
    }
}

/// Decoding a packet again from exactly the bytes that a successful decode
/// consumed yields the same packet and consumes the same bytes.
pub proof fn lemma_reparse(s: Seq<u8>)
    requires
        Packet::spec_parse(s) is Ok,
    ensures
        Packet::spec_parse(s)->Ok_0.1 <= s.len(),
        Packet::spec_parse(s.take(Packet::spec_parse(s)->Ok_0.1 as int)) == Packet::spec_parse(s),
{
    let n = Packet::spec_parse(s)->Ok_0.1 as int;
    let t = s.take(n);
    assert(Header::of(t) == Header::of(s));
    assert(t.subrange(HEADER_LEN as int, n) == s.subrange(HEADER_LEN as int, n));
}

} // verus!
