//! TCP segments.

use crate::blob::Blob;
use crate::parse::{agrees, be16, be16_at, be32, be32_at, Context, Decoded, Failure, Input, Parsed};
use vstd::prelude::*;

verus! {

/// The width of a TCP header without options.
pub const HEADER_LEN: usize = 20;

/// The fixed part of the TCP header.
#[derive(Clone, Copy, Debug, PartialEq, Eq, Structural)]
pub struct Header {
    pub source_port: u16,
    pub destination_port: u16,
    pub sequence: u32,
    pub acknowledgment: u32,
    /// The length of the header in 32 bit words: the high four bits of the
    /// thirteenth byte.
    pub data_offset: u8,
    /// The low four bits of the thirteenth byte.
    pub reserved: u8,
    /// The eight flag bits, CWR highest and FIN lowest.
    pub flags: u8,
    pub window: u16,
    pub checksum: u16,
    pub urgent_pointer: u16,
}

impl Header {
    /// The header that the first twenty bytes of `s` encode.
    pub open spec fn of(s: Seq<u8>) -> Header {
        Header {
            source_port: be16(s, 0),
            destination_port: be16(s, 2),
            sequence: be32(s, 4),
            acknowledgment: be32(s, 8),
            data_offset: (s[12] / 16) as u8,
            reserved: (s[12] % 16) as u8,
            flags: s[13],
            window: be16(s, 14),
            checksum: be16(s, 16),
            urgent_pointer: be16(s, 18),
        }
    }

    /// Decodes the header at the front of `b`.
    pub(crate) fn decode(b: &[u8]) -> (h: Header)
        requires
            b@.len() >= HEADER_LEN,
        ensures
            h == Header::of(b@),
    {
        Header {
            source_port: be16_at(b, 0),
            destination_port: be16_at(b, 2),
            sequence: be32_at(b, 4),
            acknowledgment: be32_at(b, 8),
            data_offset: b[12] / 16,
            reserved: b[12] % 16,
            flags: b[13],
            window: be16_at(b, 14),
            checksum: be16_at(b, 16),
            urgent_pointer: be16_at(b, 18),
        }
    }

    /// The number of option bytes that the data offset announces: none where
    /// it is below the width of the fixed header.
    pub open spec fn options_len(self) -> nat {
        if self.data_offset > 5 {
            ((self.data_offset - 5) * 4) as nat
        } else {
            0
        }
    }

    /// The number of option bytes that the data offset announces.
    pub fn option_bytes(&self) -> (n: usize)
        ensures
            n == self.options_len(),
    {
        if self.data_offset > 5 {
            (self.data_offset as usize - 5) * 4
        } else {
            0
        }
    }
}

/// A decoded TCP segment.
#[derive(Clone, Debug, PartialEq, Eq)]
pub struct Segment {
    pub header: Header,
    pub options: Blob,
    pub payload: Blob,
}

/// The model of a [`Segment`].
pub struct SegmentView {
    pub header: Header,
    pub options: Seq<u8>,
    pub payload: Seq<u8>,
}

impl View for Segment {
    type V = SegmentView;

    open spec fn view(&self) -> SegmentView {
        SegmentView { header: self.header, options: self.options@, payload: self.payload@ }
    }
}

impl Segment {
    /// What decoding a segment makes of `s`: the fixed header, the options
    /// that the data offset announces, then everything behind them as data.
    /// It fails where the fixed header or the options do not fit in `s`.
    pub open spec fn spec_parse(s: Seq<u8>) -> Decoded<SegmentView> {
        if s.len() < HEADER_LEN {
            Err(Failure::short(0).within(Context::TcpSegment))
        } else if s.len() < HEADER_LEN + Header::of(s).options_len() {
            Err(Failure::short(HEADER_LEN as nat).within(Context::TcpSegment))
        } else {
            let h = Header::of(s);
            let data = HEADER_LEN + h.options_len();
            Ok(
                (
                    SegmentView {
                        header: h,
                        options: s.subrange(HEADER_LEN as int, data),
                        payload: s.skip(data),
                    },
                    s.len(),
                ),
            )
        }
    }

    /// Decodes the segment at `i`, which reaches to the end of the input.
    pub fn parse<'a>(i: Input<'a>) -> (r: Parsed<'a, Segment>)
        ensures
            agrees(i, r, Self::spec_parse(i.rest())),
    {
        let (body, block) = match i.read(HEADER_LEN) {
            Ok(x) => x,
            Err(e) => return Err(e.within(Context::TcpSegment)),
        };
        let header = Header::decode(block);
        proof {
            assert(Header::of(block@) == Header::of(i.rest()));
        }
        let (body, options) = match body.read(header.option_bytes()) {
            Ok(x) => x,
            Err(e) => return Err(e.within(Context::TcpSegment)),
        };
        let (next, data) = body.finish();
        proof {
            let at = HEADER_LEN + header.options_len();
            assert(options@ == i.rest().subrange(HEADER_LEN as int, at));
            assert(data@ == i.rest().skip(at));
            assert(next.rest() == i.rest().skip(i.rest().len() as int));
        }
        Ok(
            (
                next,
                Segment {
                    header,
                    options: Blob::from_slice(options),
                    payload: Blob::from_slice(data),
                },
            ),
        )
    }
}

/// Decoding a segment again from exactly the bytes that a successful decode
/// consumed yields the same segment and consumes the same bytes.
pub proof fn lemma_reparse(s: Seq<u8>)
    requires
        Segment::spec_parse(s) is Ok,
    ensures
        Segment::spec_parse(s)->Ok_0.1 <= s.len(),
        Segment::spec_parse(s.take(Segment::spec_parse(s)->Ok_0.1 as int)) == Segment::spec_parse(
            s,
        ),
{
    assert(s.take(s.len() as int) == s);
}

} // verus!
