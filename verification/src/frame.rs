//! Whole captured frames: the link layer header and what it carries.

use crate::datalink::{
    lemma_ether_type_prefix, lemma_payload_reparse, EtherType, MacAddr, Payload, PayloadView,
};
use crate::parse::{agrees, Context, Decoded, Failure, Input, Parsed};
use crate::wifi::data::{lemma_reparse as lemma_body_reparse, DataFrameBody, DataFrameBodyView};
use crate::wifi::header::{lemma_header_prefix, FrameType, Header};
use vstd::prelude::*;

verus! {

/// The framing that a capture source delivers.
#[derive(Clone, Copy, Debug, PartialEq, Eq, Structural)]
pub enum LinkType {
    Ethernet,
    Dot11,
}

/// The header of an Ethernet II frame.
#[derive(Clone, Copy, Debug, PartialEq, Eq, Structural)]
pub struct EthernetHeader {
    pub destination: MacAddr,
    pub source: MacAddr,
    /// The protocol that the type tag names, or none where the tag is
    /// outside the table.
    pub ether_type: Option<EtherType>,
}

impl View for EthernetHeader {
    type V = EthernetHeader;

    open spec fn view(&self) -> EthernetHeader {
        *self
    }
}

impl EthernetHeader {
    /// What decoding an Ethernet II header makes of `s`: destination and
    /// source address, then the type tag. It fails where `s` does not hold
    /// the two addresses, at its start, and where it does not hold the tag,
    /// behind them.
    pub open spec fn spec_parse(s: Seq<u8>) -> Decoded<EthernetHeader> {
        if s.len() < 12 {
            Err(Failure::short(0).within(Context::EthernetFrame))
        } else {
            match EtherType::spec_parse(s.skip(12)) {
                Ok((ether_type, n)) => Ok(
                    (
                        EthernetHeader {
                            destination: MacAddr::at(s, 0),
                            source: MacAddr::at(s, 6),
                            ether_type,
                        },
                        12 + n,
                    ),
                ),
                Err(f) => Err(f.shifted(12).within(Context::EthernetFrame)),
            }
        }
    }

    /// Decodes the Ethernet II header at `i`.
    pub fn parse<'a>(i: Input<'a>) -> (r: Parsed<'a, EthernetHeader>)
        ensures
            agrees(i, r, Self::spec_parse(i.rest())),
    {
        let (tag, block) = match i.read(12) {
            Ok(x) => x,
            Err(e) => return Err(e.within(Context::EthernetFrame)),
        };
        let destination = MacAddr::decode(block, 0);
        let source = MacAddr::decode(block, 6);
        let (next, ether_type) = match EtherType::parse(tag) {
            Ok(x) => x,
            Err(e) => return Err(e.within(Context::EthernetFrame)),
        };
        proof {
            assert(MacAddr::at(block@, 0) == MacAddr::at(i.rest(), 0));
            assert(MacAddr::at(block@, 6) == MacAddr::at(i.rest(), 6));
            tag.lemma_follows_chain(i, 12, next, 2);
        }
        Ok((next, EthernetHeader { destination, source, ether_type }))
    }
}

/// A decoded frame.
#[derive(Clone, Debug, PartialEq, Eq)]
pub enum Frame {
    /// An Ethernet II frame.
    Ethernet { header: EthernetHeader, payload: Payload },
    /// An 802.11 data frame.
    Dot11Data { header: Header, body: DataFrameBody },
    /// An 802.11 frame of another kind, of which only the start of the
    /// header is decoded.
    Dot11Other { header: Header },
}

/// The model of a [`Frame`].
pub enum FrameView {
    Ethernet { header: EthernetHeader, payload: PayloadView },
    Dot11Data { header: Header, body: DataFrameBodyView },
    Dot11Other { header: Header },
}

impl View for Frame {
    type V = FrameView;

    open spec fn view(&self) -> FrameView {
        match self {
            Frame::Ethernet { header, payload } => FrameView::Ethernet {
                header: *header,
                payload: payload@,
            },
            Frame::Dot11Data { header, body } => FrameView::Dot11Data {
                header: *header,
                body: body@,
            },
            Frame::Dot11Other { header } => FrameView::Dot11Other { header: *header },
        }
    }
}

impl Frame {
    /// What decoding an Ethernet II frame makes of `s`: the header, then the
    /// payload that its type tag names. It fails exactly where the header
    /// does; a payload that cannot be decoded is `Unknown` and takes no
    /// bytes.
    pub open spec fn spec_parse_ethernet(s: Seq<u8>) -> Decoded<FrameView> {
        match EthernetHeader::spec_parse(s) {
            Err(f) => Err(f),
            Ok((header, a)) => {
                let (payload, b) = Payload::spec_decode(header.ether_type, s.skip(a as int));
                Ok((FrameView::Ethernet { header, payload }, a + b))
            },
        }
    }

    /// What decoding an 802.11 frame makes of `s`: the MAC header, and for a
    /// data frame the body behind it. It fails where the header does and
    /// where the body of a data frame does.
    pub open spec fn spec_parse_dot11(s: Seq<u8>) -> Decoded<FrameView> {
        match Header::spec_parse(s) {
            Err(f) => Err(f),
            Ok((header, a)) => if header.frame_control.frame_type == FrameType::Data {
                match DataFrameBody::spec_parse(s.skip(a as int)) {
                    Err(f) => Err(f.shifted(a).within(Context::Dot11Frame)),
                    Ok((body, b)) => Ok((FrameView::Dot11Data { header, body }, a + b)),
                }
            } else {
                Ok((FrameView::Dot11Other { header }, a))
            },
        }
    }

    /// What decoding a frame with the framing `link` makes of `s`.
    pub open spec fn spec_parse(link: LinkType, s: Seq<u8>) -> Decoded<FrameView> {
        match link {
            LinkType::Ethernet => Self::spec_parse_ethernet(s),
            LinkType::Dot11 => Self::spec_parse_dot11(s),
        }
    }

    /// Decodes the Ethernet II frame at `i`.
    pub fn parse_ethernet<'a>(i: Input<'a>) -> (r: Parsed<'a, Frame>)
        ensures
            agrees(i, r, Self::spec_parse_ethernet(i.rest())),
    {
        let (i1, header) = match EthernetHeader::parse(i) {
            Ok(x) => x,
            Err(e) => return Err(e),
        };
        let (next, payload) = Payload::decode(header.ether_type, i1);
        proof {
            let b = Payload::spec_decode(header.ether_type, i1.rest()).1;
            i1.lemma_follows_chain(i, 14, next, b);
        }
        Ok((next, Frame::Ethernet { header, payload }))
    }

    /// Decodes the 802.11 frame at `i`.
    pub fn parse_dot11<'a>(i: Input<'a>) -> (r: Parsed<'a, Frame>)
        ensures
            agrees(i, r, Self::spec_parse_dot11(i.rest())),
    {
        let (i1, header) = match Header::parse(i) {
            Ok(x) => x,
            Err(e) => return Err(e),
        };
        match header.frame_control.frame_type {
            FrameType::Data => {
                let ghost a = Header::spec_parse(i.rest())->Ok_0.1;
                match DataFrameBody::parse(i1) {
                    Err(e) => Err(e.within(Context::Dot11Frame)),
                    Ok((next, body)) => {
                        proof {
                            let b = DataFrameBody::spec_parse(i1.rest())->Ok_0.1;
                            i1.lemma_follows_chain(i, a, next, b);
                        }
                        Ok((next, Frame::Dot11Data { header, body }))
                    },
                }
            },
            _ => Ok((i1, Frame::Dot11Other { header })),
        }
    }

    /// Decodes the frame at `i`, which has the framing `link`.
    pub fn parse<'a>(link: LinkType, i: Input<'a>) -> (r: Parsed<'a, Frame>)
        ensures
            agrees(i, r, Self::spec_parse(link, i.rest())),
    {
        match link {
            LinkType::Ethernet => Self::parse_ethernet(i),
            LinkType::Dot11 => Self::parse_dot11(i),
        }
    }

    /// The network layer payload of the frame, if the frame has one.
    pub open spec fn carried(&self) -> Option<Payload> {
        match self {
            Frame::Ethernet { payload, .. } => Some(*payload),
            Frame::Dot11Data { body, .. } => body.payload,
            Frame::Dot11Other { .. } => None,
        }
    }

    /// The network layer payload of the frame, if the frame has one.
    pub fn payload(&self) -> (p: Option<&Payload>)
        ensures
            match p {
                Some(payload) => self.carried() == Some(*payload),
                None => self.carried() is None,
            },
    {
        match self {
            Frame::Ethernet { payload, .. } => Some(payload),
            Frame::Dot11Data { body, .. } => body.payload.as_ref(),
            Frame::Dot11Other { .. } => None,
        }
    }
}

/// An Ethernet II header decodes the same from every prefix of the input
/// that holds the bytes it consumed, in particular from exactly those.
pub proof fn lemma_ethernet_header_prefix(s: Seq<u8>, k: int)
    requires
        EthernetHeader::spec_parse(s) is Ok,
        EthernetHeader::spec_parse(s)->Ok_0.1 <= k <= s.len(),
    ensures
        EthernetHeader::spec_parse(s.take(k)) == EthernetHeader::spec_parse(s),
{
    let t = s.take(k);
    assert(MacAddr::at(t, 0) == MacAddr::at(s, 0));
    assert(MacAddr::at(t, 6) == MacAddr::at(s, 6));
    assert(t.skip(12) == s.skip(12).take(k - 12));
    lemma_ether_type_prefix(s.skip(12), k - 12);
}

/// Decoding a frame again from exactly the bytes that a successful decode
/// consumed yields the same frame and consumes the same bytes.
pub proof fn lemma_reparse(link: LinkType, s: Seq<u8>)
    requires
        Frame::spec_parse(link, s) is Ok,
    ensures
        Frame::spec_parse(link, s)->Ok_0.1 <= s.len(),
        Frame::spec_parse(link, s.take(Frame::spec_parse(link, s)->Ok_0.1 as int))
            == Frame::spec_parse(link, s),
{
    let n = Frame::spec_parse(link, s)->Ok_0.1 as int;
    match link {
        LinkType::Ethernet => {
            let (header, a) = EthernetHeader::spec_parse(s)->Ok_0;
            lemma_payload_reparse(header.ether_type, s.skip(a as int));
            lemma_ethernet_header_prefix(s, n);
            assert(s.take(n).skip(a as int) == s.skip(a as int).take(n - a));
        },
        LinkType::Dot11 => {
            let (header, a) = Header::spec_parse(s)->Ok_0;
            if header.frame_control.frame_type == FrameType::Data {
                lemma_body_reparse(s.skip(a as int));
            }
            lemma_header_prefix(s, n);
            assert(s.take(n).skip(a as int) == s.skip(a as int).take(n - a));
        },
    }
}

} // verus!
