//! UDP datagrams.

use crate::blob::Blob;
use crate::parse::{agrees, be16, be16_at, Context, Decoded, Failure, Input, Parsed};
use vstd::prelude::*;

verus! {

/// The width of the UDP header.
pub const HEADER_LEN: usize = 8;

/// The four fields of the UDP header.
#[derive(Clone, Copy, Debug, PartialEq, Eq, Structural)]
pub struct Header {
    pub source_port: u16,
    pub destination_port: u16,
    /// The length of header and data, as the sender declared it.
    pub length: u16,
    pub checksum: u16,
}

impl Header {
    /// The header that the first eight bytes of `s` encode.
    pub open spec fn of(s: Seq<u8>) -> Header {
        Header {
            source_port: be16(s, 0),
            destination_port: be16(s, 2),
            length: be16(s, 4),
            checksum: be16(s, 6),
        }
    }

    /// Decodes the header at the front of `b`.
    pub(crate) fn decode(b: &[u8]) -> (h: Header)
        requires
            b@.len() >= HEADER_LEN,
        ensures
            h == Header::of(b@),
    {
        Header {
            source_port: be16_at(b, 0),
            destination_port: be16_at(b, 2),
            length: be16_at(b, 4),
            checksum: be16_at(b, 6),
        }
    }

    /// The number of bytes that header and data span: the declared length,
    /// or the width of the header where the declared length is less.
    pub open spec fn span(self) -> nat {
        if self.length as nat > HEADER_LEN as nat {
            self.length as nat
        } else {
            HEADER_LEN as nat
        }
    }
}

/// A decoded UDP datagram.
#[derive(Clone, Debug, PartialEq, Eq)]
pub struct Datagram {
    pub header: Header,
    pub payload: Blob,
}

/// The model of a [`Datagram`].
pub struct DatagramView {
    pub header: Header,
    pub payload: Seq<u8>,
}

impl View for Datagram {
    type V = DatagramView;

    open spec fn view(&self) -> DatagramView {
        DatagramView { header: self.header, payload: self.payload@ }
    }
}

impl Datagram {
    /// What decoding a datagram makes of `s`: the header, then the data up to
    /// the declared length. It fails where the header or the declared data
    /// does not fit in `s`.
    pub open spec fn spec_parse(s: Seq<u8>) -> Decoded<DatagramView> {
        if s.len() < HEADER_LEN {
            Err(Failure::short(0).within(Context::UdpDatagram))
        } else if s.len() < Header::of(s).span() {
            Err(Failure::short(HEADER_LEN as nat).within(Context::UdpDatagram))
        } else {
            let h = Header::of(s);
            Ok(
                (
                    DatagramView {
                        header: h,
                        payload: s.subrange(HEADER_LEN as int, h.span() as int),
                    },
                    h.span(),
                ),
            )
        }
    }

    /// Decodes the datagram at `i`.
    pub fn parse<'a>(i: Input<'a>) -> (r: Parsed<'a, Datagram>)
        ensures
            agrees(i, r, Self::spec_parse(i.rest())),
    {
        let (body, block) = match i.read(HEADER_LEN) {
            Ok(x) => x,
            Err(e) => return Err(e.within(Context::UdpDatagram)),
        };
        let header = Header::decode(block);
        proof {
            assert(Header::of(block@) == Header::of(i.rest()));
        }
        let data_len: usize = if header.length as usize > HEADER_LEN {
            header.length as usize - HEADER_LEN
        } else {
            0
        };
        let (next, data) = match body.read(data_len) {
            Ok(x) => x,
            Err(e) => return Err(e.within(Context::UdpDatagram)),
        };
        proof {
            assert(data@ == i.rest().subrange(HEADER_LEN as int, header.span() as int));
            assert(next.rest() == i.rest().skip(header.span() as int));
        }
        Ok((next, Datagram { header, payload: Blob::from_slice(data) }))
    }
}

/// Decoding a datagram again from exactly the bytes that a successful
/// decode consumed yields the same datagram and consumes the same bytes.
pub proof fn lemma_reparse(s: Seq<u8>)
    requires
        Datagram::spec_parse(s) is Ok,
    ensures
        Datagram::spec_parse(s)->Ok_0.1 <= s.len(),
        Datagram::spec_parse(s.take(Datagram::spec_parse(s)->Ok_0.1 as int))
            == Datagram::spec_parse(s),
{
    let n = Datagram::spec_parse(s)->Ok_0.1 as int;
    let t = s.take(n);
    assert(Header::of(t) == Header::of(s));
    assert(t.subrange(HEADER_LEN as int, n) == s.subrange(HEADER_LEN as int, n));
}

} // verus!
