//! IPv4 packets and the transport payloads they carry.

use crate::blob::Blob;
use crate::icmp;
use crate::parse::{agrees, be16, be16_at, Context, Cursor, Decoded, Failure, Input, Parsed};
use crate::tcp;
use crate::udp;
use vstd::prelude::*;

verus! {

/// The width of an IPv4 header without options.
pub const HEADER_LEN: usize = 20;

/// An IPv4 address as its four bytes, in the order they are written.
#[derive(Clone, Copy, Debug, PartialEq, Eq, Structural)]
pub struct Addr(pub u8, pub u8, pub u8, pub u8);

impl Addr {
    /// The address that the four bytes at `k` in `s` encode.
    pub open spec fn at(s: Seq<u8>, k: int) -> Addr {
        Addr(s[k], s[k + 1], s[k + 2], s[k + 3])
    }

    /// Decodes the address at `k` in `b`.
    pub(crate) fn decode(b: &[u8], k: usize) -> (a: Addr)
        requires
            k + 4 <= b@.len(),
        ensures
            a == Addr::at(b@, k as int),
    {
        Addr(b[k], b[k + 1], b[k + 2], b[k + 3])
    }
}

/// The transport protocols that have a decoder here.
#[derive(Clone, Copy, Debug, PartialEq, Eq, Structural)]
pub enum Protocol {
    ICMP,
    TCP,
    UDP,
}

impl Protocol {
    /// The protocol that the protocol number `n` stands for, if it is one of
    /// those that have a decoder.
    pub open spec fn of(n: u8) -> Option<Protocol> {
        if n == 1 {
            Some(Protocol::ICMP)
        } else if n == 6 {
            Some(Protocol::TCP)
        } else if n == 17 {
            Some(Protocol::UDP)
        } else {
            None
        }
    }

    /// The protocol that the protocol number `n` stands for, if it is one of
    /// those that have a decoder.
    pub fn from_number(n: u8) -> (p: Option<Protocol>)
        ensures
            p == Protocol::of(n),
    {
        if n == 1 {
            Some(Protocol::ICMP)
        } else if n == 6 {
            Some(Protocol::TCP)
        } else if n == 17 {
            Some(Protocol::UDP)
        } else {
            None
        }
    }
}

/// The fixed part of the IPv4 header.
#[derive(Clone, Copy, Debug, PartialEq, Eq, Structural)]
pub struct Header {
    /// The high four bits of the first byte.
    pub version: u8,
    /// The length of the header in 32 bit words: the low four bits of the
    /// first byte.
    pub ihl: u8,
    /// The high six bits of the second byte.
    pub dscp: u8,
    /// The low two bits of the second byte.
    pub ecn: u8,
    /// The length of header and payload, as the sender declared it.
    pub total_length: u16,
    pub identification: u16,
    /// The high three bits of the seventh byte.
    pub flags: u8,
    /// The thirteen bits behind the flags.
    pub fragment_offset: u16,
    pub ttl: u8,
    /// The protocol number of the payload.
    pub protocol: u8,
    pub checksum: u16,
    pub source: Addr,
    pub destination: Addr,
}

impl Header {
    /// The header that the first twenty bytes of `s` encode.
    pub open spec fn of(s: Seq<u8>) -> Header {
        Header {
            version: (s[0] / 16) as u8,
            ihl: (s[0] % 16) as u8,
            dscp: (s[1] / 4) as u8,
            ecn: (s[1] % 4) as u8,
            total_length: be16(s, 2),
            identification: be16(s, 4),
            flags: (s[6] / 32) as u8,
            fragment_offset: ((s[6] % 32) * 256 + s[7]) as u16,
            ttl: s[8],
            protocol: s[9],
            checksum: be16(s, 10),
            source: Addr::at(s, 12),
            destination: Addr::at(s, 16),
        }
    }

    /// Decodes the header at the front of `b`.
    pub(crate) fn decode(b: &[u8]) -> (h: Header)
        requires
            b@.len() >= HEADER_LEN,
        ensures
            h == Header::of(b@),
    {
        let high: u16 = (b[6] % 32) as u16;
        Header {
            version: b[0] / 16,
            ihl: b[0] % 16,
            dscp: b[1] / 4,
            ecn: b[1] % 4,
            total_length: be16_at(b, 2),
            identification: be16_at(b, 4),
            flags: b[6] / 32,
            fragment_offset: high * 256 + b[7] as u16,
            ttl: b[8],
            protocol: b[9],
            checksum: be16_at(b, 10),
            source: Addr::decode(b, 12),
            destination: Addr::decode(b, 16),
        }
    }

    /// The number of option bytes that the header length announces: none
    /// where it is below the width of the fixed header.
    pub open spec fn options_len(self) -> nat {
        if self.ihl > 5 {
            ((self.ihl - 5) * 4) as nat
        } else {
            0
        }
    }

    /// The number of payload bytes that the total length leaves behind the
    /// header and its options: none where it is less than those.
    pub open spec fn payload_len(self) -> nat {
        let header = HEADER_LEN + self.options_len();
        if self.total_length > header {
            (self.total_length - header) as nat
        } else {
            0
        }
    }

    /// The number of bytes that the packet spans.
    pub open spec fn span(self) -> nat {
        HEADER_LEN as nat + self.options_len() + self.payload_len()
    }

    /// The number of option bytes that the header length announces.
    pub fn option_bytes(&self) -> (n: usize)
        ensures
            n == self.options_len(),
    {
        if self.ihl > 5 {
            (self.ihl as usize - 5) * 4
        } else {
            0
        }
    }

    /// The number of payload bytes that the total length leaves behind the
    /// header and its options.
    pub fn payload_bytes(&self) -> (n: usize)
        ensures
            n == self.payload_len(),
    {
        let header: usize = HEADER_LEN + self.option_bytes();
        if self.total_length as usize > header {
            self.total_length as usize - header
        } else {
            0
        }
    }
}

/// What an IPv4 packet carries.
#[derive(Clone, Debug, PartialEq, Eq)]
pub enum Payload {
    TCP(tcp::Segment),
    UDP(udp::Datagram),
    ICMP(icmp::Packet),
    /// A protocol without a decoder, or bytes that the decoder of the
    /// announced protocol could not make sense of.
    Unknown,
}

/// The model of a [`Payload`].
pub enum PayloadView {
    TCP(tcp::SegmentView),
    UDP(udp::DatagramView),
    ICMP(icmp::PacketView),
    Unknown,
}

impl View for Payload {
    type V = PayloadView;

    open spec fn view(&self) -> PayloadView {
        match self {
            Payload::TCP(s) => PayloadView::TCP(s@),
            Payload::UDP(d) => PayloadView::UDP(d@),
            Payload::ICMP(p) => PayloadView::ICMP(p@),
            Payload::Unknown => PayloadView::Unknown,
        }
    }
}

impl Payload {
    /// What the payload bytes `s` of a packet with protocol number
    /// `protocol` decode to: what the decoder of that protocol makes of
    /// them, and `Unknown` where there is no such decoder or it fails.
    pub open spec fn spec_decode(protocol: u8, s: Seq<u8>) -> PayloadView {
        match Protocol::of(protocol) {
            Some(Protocol::TCP) => match tcp::Segment::spec_parse(s) {
                Ok((segment, _)) => PayloadView::TCP(segment),
                Err(_) => PayloadView::Unknown,
            },
            Some(Protocol::UDP) => match udp::Datagram::spec_parse(s) {
                Ok((datagram, _)) => PayloadView::UDP(datagram),
                Err(_) => PayloadView::Unknown,
            },
            Some(Protocol::ICMP) => match icmp::Packet::spec_parse(s) {
                Ok((packet, _)) => PayloadView::ICMP(packet),
                Err(_) => PayloadView::Unknown,
            },
            None => PayloadView::Unknown,
        }
    }

    /// Decodes the payload bytes at `region` of a packet with protocol
    /// number `protocol`.
    pub fn decode<'a>(protocol: u8, region: Cursor<'a>) -> (p: Payload)
        ensures
            p@ == Payload::spec_decode(protocol, region.rest()),
    {
        match Protocol::from_number(protocol) {
            Some(Protocol::TCP) => match tcp::Segment::parse(region) {
                Ok((_, segment)) => Payload::TCP(segment),
                Err(_) => Payload::Unknown,
            },
            Some(Protocol::UDP) => match udp::Datagram::parse(region) {
                Ok((_, datagram)) => Payload::UDP(datagram),
                Err(_) => Payload::Unknown,
            },
            Some(Protocol::ICMP) => match icmp::Packet::parse(region) {
                Ok((_, packet)) => Payload::ICMP(packet),
                Err(_) => Payload::Unknown,
            },
            None => Payload::Unknown,
        }
    }
}

/// A decoded IPv4 packet.
#[derive(Clone, Debug, PartialEq, Eq)]
pub struct Packet {
    pub header: Header,
    pub options: Blob,
    pub payload: Payload,
}

/// The model of a [`Packet`].
pub struct PacketView {
    pub header: Header,
    pub options: Seq<u8>,
    pub payload: PayloadView,
}

impl View for Packet {
    type V = PacketView;

    open spec fn view(&self) -> PacketView {
        PacketView { header: self.header, options: self.options@, payload: self.payload@ }
    }
}

impl Packet {
    /// What decoding a packet makes of `s`: the fixed header, the options
    /// that the header length announces, and the payload up to the declared
    /// total length, decoded by its protocol number. It fails where the fixed
    /// header, the options or the declared payload do not fit in `s`.
    pub open spec fn spec_parse(s: Seq<u8>) -> Decoded<PacketView> {
        let h = Header::of(s);
        let data = HEADER_LEN + h.options_len();
        if s.len() < HEADER_LEN {
            Err(Failure::short(0).within(Context::Ipv4Packet))
        } else if s.len() < data {
            Err(Failure::short(HEADER_LEN as nat).within(Context::Ipv4Packet))
        } else if s.len() < h.span() {
            Err(Failure::short(data as nat).within(Context::Ipv4Packet))
        } else {
            Ok(
                (
                    PacketView {
                        header: h,
                        options: s.subrange(HEADER_LEN as int, data),
                        payload: Payload::spec_decode(
                            h.protocol,
                            s.subrange(data, h.span() as int),
                        ),
                    },
                    h.span(),
                ),
            )
        }
    }

    /// Decodes the packet at `i`.
    pub fn parse<'a>(i: Input<'a>) -> (r: Parsed<'a, Packet>)
        ensures
            agrees(i, r, Self::spec_parse(i.rest())),
    {
        let (body, block) = match i.read(HEADER_LEN) {
            Ok(x) => x,
            Err(e) => return Err(e.within(Context::Ipv4Packet)),
        };
        let header = Header::decode(block);
        proof {
            assert(Header::of(block@) == Header::of(i.rest()));
        }
        let (body, options) = match body.read(header.option_bytes()) {
            Ok(x) => x,
            Err(e) => return Err(e.within(Context::Ipv4Packet)),
        };
        let (next, region) = match body.split(header.payload_bytes()) {
            Ok(x) => x,
            Err(e) => return Err(e.within(Context::Ipv4Packet)),
        };
        proof {
            let data = HEADER_LEN + header.options_len();
            assert(options@ == i.rest().subrange(HEADER_LEN as int, data));
            assert(region.rest() == i.rest().subrange(data, header.span() as int));
            assert(next.rest() == i.rest().skip(header.span() as int));
        }
        let payload = Payload::decode(header.protocol, region);
        Ok((next, Packet { header, options: Blob::from_slice(options), payload }))
    }
}

/// Decoding a packet succeeds exactly where the fixed header and the bytes
/// that it announces are all there, and then consumes just those.
pub proof fn lemma_parse_succeeds(s: Seq<u8>)
    ensures
        Packet::spec_parse(s) is Ok <==> s.len() >= HEADER_LEN && s.len() >= Header::of(s).span(),
        Packet::spec_parse(s) matches Ok((_, n)) ==> n == Header::of(s).span() && n <= s.len(),
{
}

/// Decoding a packet again from exactly the bytes that a successful decode
/// consumed yields the same packet and consumes the same bytes.
pub proof fn lemma_reparse(s: Seq<u8>)
    requires
        Packet::spec_parse(s) is Ok,
    ensures
        Packet::spec_parse(s)->Ok_0.1 <= s.len(),
        Packet::spec_parse(s.take(Packet::spec_parse(s)->Ok_0.1 as int)) == Packet::spec_parse(s),
{
    let n = Packet::spec_parse(s)->Ok_0.1 as int;
    let t = s.take(n);
    let h = Header::of(s);
    assert(Header::of(t) == h);
    let data = HEADER_LEN + h.options_len();
    assert(t.subrange(HEADER_LEN as int, data) == s.subrange(HEADER_LEN as int, data));
    assert(t.subrange(data, n) == s.subrange(data, n));
}

} // verus!
