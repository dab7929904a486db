//! What the link layers have in common: hardware addresses, the type tag
//! that names the protocol of a frame's payload, and that payload.

use crate::arp;
use crate::ipv4;
use crate::ipv6;
use crate::parse::{agrees, spec_be_u16, Context, Cursor, Decoded, Input, Parsed};
use vstd::prelude::*;

verus! {

/// A 48 bit hardware address as its six bytes, in the order they are written.
#[derive(Clone, Copy, Debug, PartialEq, Eq, Structural)]
pub struct MacAddr(pub u8, pub u8, pub u8, pub u8, pub u8, pub u8);

impl MacAddr {
    /// The address that the six bytes at `k` in `s` encode.
    pub open spec fn at(s: Seq<u8>, k: int) -> MacAddr {
        MacAddr(s[k], s[k + 1], s[k + 2], s[k + 3], s[k + 4], s[k + 5])
    }

    /// Decodes the address at `k` in `b`.
    pub(crate) fn decode(b: &[u8], k: usize) -> (a: MacAddr)
        requires
            k + 6 <= b@.len(),
        ensures
            a == MacAddr::at(b@, k as int),
    {
        MacAddr(b[k], b[k + 1], b[k + 2], b[k + 3], b[k + 4], b[k + 5])
    }
}

/// The network layer protocols that a type tag can name.
#[derive(Clone, Copy, Debug, PartialEq, Eq, Structural)]
pub enum EtherType {
    IPv4,
    IPv6,
    ARP,
    /// A protocol that is named but has no decoder. Decoding a tag never
    /// yields it: a tag outside the table decodes to no type at all.
    Unrecognized,
}

impl EtherType {
    /// The protocol that the tag value `tag` names, if the table has it.
    pub open spec fn of(tag: u16) -> Option<EtherType> {
        if tag == 0x0800 {
            Some(EtherType::IPv4)
        } else if tag == 0x86DD {
            Some(EtherType::IPv6)
        } else if tag == 0x0806 {
            Some(EtherType::ARP)
        } else {
            None
        }
    }

    /// The protocol that the tag value `tag` names, if the table has it.
    pub fn from_tag(tag: u16) -> (t: Option<EtherType>)
        ensures
            t == EtherType::of(tag),
    {
        if tag == 0x0800 {
            Some(EtherType::IPv4)
        } else if tag == 0x86DD {
            Some(EtherType::IPv6)
        } else if tag == 0x0806 {
            Some(EtherType::ARP)
        } else {
            None
        }
    }

    /// What decoding a type tag makes of `s`: the protocol that the
    /// big-endian number in the first two bytes names, or none where the
    /// table does not have it. It fails only where `s` has no two bytes.
    pub open spec fn spec_parse(s: Seq<u8>) -> Decoded<Option<EtherType>> {
        match spec_be_u16(s) {
            Ok((tag, n)) => Ok((EtherType::of(tag), n)),
            Err(f) => Err(f.within(Context::EtherType)),
        }
    }

    /// Decodes the type tag at `i`.
    pub fn parse<'a>(i: Input<'a>) -> (r: Parsed<'a, Option<EtherType>>)
        ensures
            agrees(i, r, Self::spec_parse(i.rest())),
    {
        match i.be_u16() {
            Ok((next, tag)) => Ok((next, EtherType::from_tag(tag))),
            Err(e) => Err(e.within(Context::EtherType)),
        }
    }
}

/// What a frame carries.
#[derive(Clone, Debug, PartialEq, Eq)]
pub enum Payload {
    IPv4(ipv4::Packet),
    IPv6(ipv6::Packet),
    ARP(arp::Packet),
    /// A protocol without a decoder, or bytes that the decoder of the
    /// announced protocol could not make sense of.
    Unknown,
}

/// The model of a [`Payload`].
pub enum PayloadView {
    IPv4(ipv4::PacketView),
    IPv6(ipv6::PacketView),
    ARP(arp::PacketView),
    Unknown,
}

impl View for Payload {
    type V = PayloadView;

    open spec fn view(&self) -> PayloadView {
        match self {
            Payload::IPv4(p) => PayloadView::IPv4(p@),
            Payload::IPv6(p) => PayloadView::IPv6(p@),
            Payload::ARP(p) => PayloadView::ARP(p@),
            Payload::Unknown => PayloadView::Unknown,
        }
    }
}

impl Payload {
    /// What the bytes `s` behind a type tag that named `ether_type` decode
    /// to, and how many of them belong to it: what the decoder of that
    /// protocol makes of them, and `Unknown` with no bytes where the tag
    /// named nothing that has a decoder or that decoder fails.
    pub open spec fn spec_decode(ether_type: Option<EtherType>, s: Seq<u8>) -> (PayloadView, nat) {
        match ether_type {
            Some(EtherType::IPv4) => match ipv4::Packet::spec_parse(s) {
                Ok((packet, n)) => (PayloadView::IPv4(packet), n),
                Err(_) => (PayloadView::Unknown, 0),
            },
            Some(EtherType::IPv6) => match ipv6::Packet::spec_parse(s) {
                Ok((packet, n)) => (PayloadView::IPv6(packet), n),
                Err(_) => (PayloadView::Unknown, 0),
            },
            Some(EtherType::ARP) => match arp::Packet::spec_parse(s) {
                Ok((packet, n)) => (PayloadView::ARP(packet), n),
                Err(_) => (PayloadView::Unknown, 0),
            },
            _ => (PayloadView::Unknown, 0),
        }
    }

    /// Decodes the payload at `i` of a frame whose type tag named
    /// `ether_type`. This never fails: what cannot be decoded is `Unknown`,
    /// and the cursor stays where it was.
    pub fn decode<'a>(ether_type: Option<EtherType>, i: Cursor<'a>) -> (r: (Cursor<'a>, Payload))
        ensures
            r.1@ == Payload::spec_decode(ether_type, i.rest()).0,
            r.0.follows(i, Payload::spec_decode(ether_type, i.rest()).1),
    {
        proof {
            assert(i.rest().skip(0) == i.rest());
        }
        match ether_type {
            Some(EtherType::IPv4) => match ipv4::Packet::parse(i) {
                Ok((next, packet)) => (next, Payload::IPv4(packet)),
                Err(_) => (i, Payload::Unknown),
            },
            Some(EtherType::IPv6) => match ipv6::Packet::parse(i) {
                Ok((next, packet)) => (next, Payload::IPv6(packet)),
                Err(_) => (i, Payload::Unknown),
            },
            Some(EtherType::ARP) => match arp::Packet::parse(i) {
                Ok((next, packet)) => (next, Payload::ARP(packet)),
                Err(_) => (i, Payload::Unknown),
            },
            _ => (i, Payload::Unknown),
        }
    }
}

/// A type tag decodes the same from every prefix of the input that holds
/// the bytes it consumed, in particular from exactly those.
pub proof fn lemma_ether_type_prefix(s: Seq<u8>, k: int)
    requires
        EtherType::spec_parse(s) is Ok,
        EtherType::spec_parse(s)->Ok_0.1 <= k <= s.len(),
    ensures
        EtherType::spec_parse(s.take(k)) == EtherType::spec_parse(s),
{
}

/// Decoding a payload again from exactly the bytes that it took yields the
/// same payload and takes the same bytes.
pub proof fn lemma_payload_reparse(ether_type: Option<EtherType>, s: Seq<u8>)
    ensures
        Payload::spec_decode(ether_type, s).1 <= s.len(),
        Payload::spec_decode(ether_type, s.take(Payload::spec_decode(ether_type, s).1 as int))
            == Payload::spec_decode(ether_type, s),
{
    match ether_type {
        Some(EtherType::IPv4) => {
            if ipv4::Packet::spec_parse(s) is Ok {
                ipv4::lemma_reparse(s);
            }
        },
        Some(EtherType::IPv6) => {
            if ipv6::Packet::spec_parse(s) is Ok {
                ipv6::lemma_reparse(s);
            }
        },
        Some(EtherType::ARP) => {
            if arp::Packet::spec_parse(s) is Ok {
                arp::lemma_reparse(s);
            }
        },
        _ => {},
    }
}

} // verus!
