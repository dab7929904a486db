//! ICMP messages.

use crate::blob::Blob;
use crate::parse::{agrees, be16, be16_at, be32, be32_at, Context, Decoded, Failure, Input, Parsed};
use vstd::prelude::*;

verus! {

/// The width of the ICMP header.
pub const HEADER_LEN: usize = 8;

/// The fields that every ICMP message starts with.
#[derive(Clone, Copy, Debug, PartialEq, Eq, Structural)]
pub struct Header {
    pub message_type: u8,
    pub code: u8,
    pub checksum: u16,
    /// The four bytes whose meaning depends on type and code.
    pub rest_of_header: u32,
}

impl Header {
    /// The header that the first eight bytes of `s` encode.
    pub open spec fn of(s: Seq<u8>) -> Header {
        Header {
            message_type: s[0],
            code: s[1],
            checksum: be16(s, 2),
            rest_of_header: be32(s, 4),
        }
    }

    /// Decodes the header at the front of `b`.
    pub(crate) fn decode(b: &[u8]) -> (h: Header)
        requires
            b@.len() >= HEADER_LEN,
        ensures
            h == Header::of(b@),
    {
        Header {
            message_type: b[0],
            code: b[1],
            checksum: be16_at(b, 2),
            rest_of_header: be32_at(b, 4),
        }
    }
}

/// A decoded ICMP message.
#[derive(Clone, Debug, PartialEq, Eq)]
pub struct Packet {
    pub header: Header,
    pub payload: Blob,
}

/// The model of a [`Packet`].
pub struct PacketView {
    pub header: Header,
    pub payload: Seq<u8>,
}

impl View for Packet {
    type V = PacketView;

    open spec fn view(&self) -> PacketView {
        PacketView { header: self.header, payload: self.payload@ }
    }
}

impl Packet {
    /// What decoding a message makes of `s`: the header, then everything
    /// behind it as data. It fails where the header does not fit in `s`.
    pub open spec fn spec_parse(s: Seq<u8>) -> Decoded<PacketView> {
        if s.len() < HEADER_LEN {
            Err(Failure::short(0).within(Context::IcmpPacket))
        } else {
            Ok((PacketView { header: Header::of(s), payload: s.skip(8) }, s.len()))
        }
    }

    /// Decodes the message at `i`, which reaches to the end of the input.
    pub fn parse<'a>(i: Input<'a>) -> (r: Parsed<'a, Packet>)
        ensures
            agrees(i, r, Self::spec_parse(i.rest())),
    {
        let (body, block) = match i.read(HEADER_LEN) {
            Ok(x) => x,
            Err(e) => return Err(e.within(Context::IcmpPacket)),
        };
        let header = Header::decode(block);
        proof {
            assert(Header::of(block@) == Header::of(i.rest()));
        }
        let (next, data) = body.finish();
        proof {
            body.lemma_follows_chain(i, 8, next, data@.len());
        }
        Ok((next, Packet { header, payload: Blob::from_slice(data) }))
    }
}

/// Decoding a message again from exactly the bytes that a successful decode
/// consumed yields the same message and consumes the same bytes.
pub proof fn lemma_reparse(s: Seq<u8>)
    requires
        Packet::spec_parse(s) is Ok,
    ensures
        Packet::spec_parse(s)->Ok_0.1 <= s.len(),
        Packet::spec_parse(s.take(Packet::spec_parse(s)->Ok_0.1 as int)) == Packet::spec_parse(s),
{
    assert(s.take(s.len() as int) == s);
}

} // verus!
