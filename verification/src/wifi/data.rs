//! The body of an 802.11 data frame: an LLC header, a SNAP header and the
//! payload that the SNAP header's type tag names.

use crate::datalink::{lemma_ether_type_prefix, lemma_payload_reparse, EtherType, Payload, PayloadView};
use crate::ipv4;
use crate::parse::{agrees, be16, Context, Decoded, ErrorKind, Failure, Input, Parsed};
use vstd::prelude::*;

verus! {

/// The logical link control header: three bytes, taken as they are.
#[derive(Clone, Copy, Debug, PartialEq, Eq, Structural)]
pub struct LLCHeader {
    pub dsap: u8,
    pub ssap: u8,
    pub ctrl: u8,
}

impl View for LLCHeader {
    type V = LLCHeader;

    open spec fn view(&self) -> LLCHeader {
        *self
    }
}

impl LLCHeader {
    /// What decoding an LLC header makes of `s`: its first three bytes, in
    /// the order destination access point, source access point, control. Any
    /// byte value is taken. It fails only where `s` has no three bytes, at
    /// the first byte that is missing.
    pub open spec fn spec_parse(s: Seq<u8>) -> Decoded<LLCHeader> {
        if s.len() >= 3 {
            Ok((LLCHeader { dsap: s[0], ssap: s[1], ctrl: s[2] }, 3))
        } else {
            Err(Failure::short(s.len()).within(Context::LlcHeader))
        }
    }

    /// Decodes the LLC header at `i`.
    pub fn parse<'a>(i: Input<'a>) -> (r: Parsed<'a, LLCHeader>)
        ensures
            agrees(i, r, Self::spec_parse(i.rest())),
    {
        let (i1, dsap) = match i.u8() {
            Ok(x) => x,
            Err(e) => return Err(e.within(Context::LlcHeader)),
        };
        let (i2, ssap) = match i1.u8() {
            Ok(x) => x,
            Err(e) => return Err(e.within(Context::LlcHeader)),
        };
        let (i3, ctrl) = match i2.u8() {
            Ok(x) => x,
            Err(e) => return Err(e.within(Context::LlcHeader)),
        };
        proof {
            i1.lemma_follows_chain(i, 1, i2, 1);
            i2.lemma_follows_chain(i, 2, i3, 1);
        }
        Ok((i3, LLCHeader { dsap, ssap, ctrl }))
    }
}

/// The SNAP header. Its organisation code is read over and not kept.
#[derive(Clone, Copy, Debug, PartialEq, Eq, Structural)]
pub struct SNAPHeader {
    /// The protocol that the type tag names, or none where the tag is
    /// outside the table.
    pub ether_type: Option<EtherType>,
}

impl View for SNAPHeader {
    type V = SNAPHeader;

    open spec fn view(&self) -> SNAPHeader {
        *self
    }
}

impl SNAPHeader {
    /// What decoding a SNAP header makes of `s`: three bytes of organisation
    /// code are passed over, whatever they hold, and the two bytes behind
    /// them are decoded as a type tag. A tag outside the table is no failure.
    /// It fails where `s` has no three bytes, at its start, and where it has
    /// no two more, behind the code.
    pub open spec fn spec_parse(s: Seq<u8>) -> Decoded<SNAPHeader> {
        if s.len() < 3 {
            Err(Failure::short(0).within(Context::SnapHeader))
        } else {
            match EtherType::spec_parse(s.skip(3)) {
                Ok((ether_type, n)) => Ok((SNAPHeader { ether_type }, 3 + n)),
                Err(f) => Err(f.shifted(3).within(Context::SnapHeader)),
            }
        }
    }

    /// Decodes the SNAP header at `i`.
    pub fn parse<'a>(i: Input<'a>) -> (r: Parsed<'a, SNAPHeader>)
        ensures
            agrees(i, r, Self::spec_parse(i.rest())),
    {
        let (tag, _) = match i.read(3) {
            Ok(x) => x,
            Err(e) => return Err(e.within(Context::SnapHeader)),
        };
        let (next, ether_type) = match EtherType::parse(tag) {
            Ok(x) => x,
            Err(e) => return Err(e.within(Context::SnapHeader)),
        };
        proof {
            tag.lemma_follows_chain(i, 3, next, 2);
        }
        Ok((next, SNAPHeader { ether_type }))
    }
}

/// The decoded body of a data frame. After a successful decode all three
/// parts are present.
#[derive(Clone, Debug, PartialEq, Eq)]
pub struct DataFrameBody {
    pub llc: Option<LLCHeader>,
    pub snap: Option<SNAPHeader>,
    pub payload: Option<Payload>,
}

/// The model of a [`DataFrameBody`].
pub struct DataFrameBodyView {
    pub llc: Option<LLCHeader>,
    pub snap: Option<SNAPHeader>,
    pub payload: Option<PayloadView>,
}

impl View for DataFrameBody {
    type V = DataFrameBodyView;

    open spec fn view(&self) -> DataFrameBodyView {
        DataFrameBodyView {
            llc: self.llc,
            snap: self.snap,
            payload: match self.payload {
                Some(p) => Some(p@),
                None => None,
            },
        }
    }
}

impl DataFrameBody {
    /// What decoding a data frame body makes of `s`: the LLC header, the
    /// SNAP header behind it, and behind that the payload that the SNAP
    /// header's type tag names. It fails exactly where one of the two
    /// headers does; a payload that cannot be decoded is `Unknown` and takes
    /// no bytes.
    pub open spec fn spec_parse(s: Seq<u8>) -> Decoded<DataFrameBodyView> {
        match LLCHeader::spec_parse(s) {
            Err(f) => Err(f.within(Context::DataFrameBody)),
            Ok((llc, a)) => match SNAPHeader::spec_parse(s.skip(a as int)) {
                Err(f) => Err(f.shifted(a).within(Context::DataFrameBody)),
                Ok((snap, b)) => {
                    let (payload, c) = Payload::spec_decode(
                        snap.ether_type,
                        s.skip((a + b) as int),
                    );
                    Ok(
                        (
                            DataFrameBodyView {
                                llc: Some(llc),
                                snap: Some(snap),
                                payload: Some(payload),
                            },
                            a + b + c,
                        ),
                    )
                },
            },
        }
    }

    /// Decodes the data frame body at `i`.
    pub fn parse<'a>(i: Input<'a>) -> (r: Parsed<'a, DataFrameBody>)
        ensures
            agrees(i, r, Self::spec_parse(i.rest())),
    {
        let (i1, llc) = match LLCHeader::parse(i) {
            Ok(x) => x,
            Err(e) => return Err(e.within(Context::DataFrameBody)),
        };
        let (i2, snap) = match SNAPHeader::parse(i1) {
            Ok(x) => x,
            Err(e) => return Err(e.within(Context::DataFrameBody)),
        };
        proof {
            i1.lemma_follows_chain(i, 3, i2, 5);
        }
        let (next, payload) = Payload::decode(snap.ether_type, i2);
        proof {
            let c = Payload::spec_decode(snap.ether_type, i2.rest()).1;
            i2.lemma_follows_chain(i, 8, next, c);
        }
        Ok((next, DataFrameBody { llc: Some(llc), snap: Some(snap), payload: Some(payload) }))
    }
}

/// A body decodes exactly where its two headers fit, that is where it has
/// eight bytes, whatever those and the bytes behind them hold.
pub proof fn lemma_body_decodes(s: Seq<u8>)
    ensures
        DataFrameBody::spec_parse(s) is Ok <==> s.len() >= 8,
        DataFrameBody::spec_parse(s) matches Ok((body, n)) ==> {
            &&& 8 <= n <= s.len()
            &&& body.llc == Some(LLCHeader { dsap: s[0], ssap: s[1], ctrl: s[2] })
            &&& body.snap == Some(SNAPHeader { ether_type: EtherType::of(be16(s, 6)) })
            &&& body.payload is Some
        },
{
    if s.len() >= 8 {
        let t = s.skip(3);
        assert(t.skip(3)[0] == s[6] && t.skip(3)[1] == s[7]);
        let tag = EtherType::of(be16(s, 6));
        let r = s.skip(8);
        assert(Payload::spec_decode(tag, r).1 <= r.len()) by {
            ipv4::lemma_parse_succeeds(r);
        }
    }
}

/// A body whose type tag names IPv4 and whose bytes behind the two headers
/// hold a whole IPv4 packet decodes to that packet, and ends where the
/// packet's declared length ends: what follows is left over.
pub proof fn lemma_ipv4_body(s: Seq<u8>)
    requires
        s.len() >= 8,
        be16(s, 6) == 0x0800,
        ipv4::Packet::spec_parse(s.skip(8)) is Ok,
    ensures
        DataFrameBody::spec_parse(s) matches Ok((body, n)) && {
            &&& body.payload == Some(
                PayloadView::IPv4(ipv4::Packet::spec_parse(s.skip(8))->Ok_0.0),
            )
            &&& n == 8 + ipv4::Header::of(s.skip(8)).span()
            &&& n <= s.len()
        },
{
    lemma_body_decodes(s);
    let t = s.skip(3);
    assert(t.skip(3)[0] == s[6] && t.skip(3)[1] == s[7]);
    ipv4::lemma_parse_succeeds(s.skip(8));
}

/// A SNAP header whose type tag is outside the table decodes, to a header
/// without a type.
pub proof fn lemma_unknown_tag_snap(s: Seq<u8>)
    requires
        s.len() >= 5,
        EtherType::of(be16(s, 3)) is None,
    ensures
        SNAPHeader::spec_parse(s) == Ok::<(SNAPHeader, nat), Failure>(
            (SNAPHeader { ether_type: None }, 5),
        ),
{
    assert(s.skip(3)[0] == s[3] && s.skip(3)[1] == s[4]);
}

/// A body whose type tag is outside the table decodes, to an `Unknown`
/// payload that ends behind the two headers.
pub proof fn lemma_unknown_tag_body(s: Seq<u8>)
    requires
        s.len() >= 8,
        EtherType::of(be16(s, 6)) is None,
    ensures
        DataFrameBody::spec_parse(s) matches Ok((body, n)) && {
            &&& body.snap == Some(SNAPHeader { ether_type: None })
            &&& body.payload == Some(PayloadView::Unknown)
            &&& n == 8
        },
{
    lemma_body_decodes(s);
    let t = s.skip(3);
    assert(t.skip(3)[0] == s[6] && t.skip(3)[1] == s[7]);
}

/// A body of fewer than eight bytes does not decode: it runs out of data
/// inside the first header that does not fit, at or before the end of what
/// is there.
pub proof fn lemma_short_body(s: Seq<u8>)
    requires
        s.len() < 8,
    ensures
        DataFrameBody::spec_parse(s) matches Err(f) && {
            &&& f.kind == ErrorKind::InsufficientData
            &&& f.offset <= s.len()
            &&& s.len() < 3 ==> f.offset == s.len() && f.path == seq![
                Context::LlcHeader,
                Context::DataFrameBody,
            ]
            &&& 3 <= s.len() < 6 ==> f.offset == 3 && f.path == seq![
                Context::SnapHeader,
                Context::DataFrameBody,
            ]
            &&& 6 <= s.len() ==> f.offset == 6 && f.path == seq![
                Context::EtherType,
                Context::SnapHeader,
                Context::DataFrameBody,
            ]
        },
{
}

/// Decoding a body again from exactly the bytes that a successful decode
/// consumed yields the same body and consumes the same bytes.
pub proof fn lemma_reparse(s: Seq<u8>)
    requires
        DataFrameBody::spec_parse(s) is Ok,
    ensures
        DataFrameBody::spec_parse(s)->Ok_0.1 <= s.len(),
        DataFrameBody::spec_parse(s.take(DataFrameBody::spec_parse(s)->Ok_0.1 as int))
            == DataFrameBody::spec_parse(s),
{
    lemma_body_decodes(s);
    let n = DataFrameBody::spec_parse(s)->Ok_0.1 as int;
    let t = s.take(n);
    lemma_body_decodes(t);
    let tag = EtherType::of(be16(s, 6));
    assert(s.skip(3).skip(3)[0] == s[6] && s.skip(3).skip(3)[1] == s[7]);
    assert(t.skip(3).skip(3)[0] == t[6] && t.skip(3).skip(3)[1] == t[7]);
    let r = s.skip(8);
    let c = Payload::spec_decode(tag, r).1 as int;
    assert(n == 8 + c);
    assert(t.skip(8) == r.take(c));
    lemma_payload_reparse(tag, r);
}

/// An LLC header decodes the same from every prefix of the input that
/// holds the bytes it consumed, in particular from exactly those.
pub proof fn lemma_llc_prefix(s: Seq<u8>, k: int)
    requires
        LLCHeader::spec_parse(s) is Ok,
        LLCHeader::spec_parse(s)->Ok_0.1 <= k <= s.len(),
    ensures
        LLCHeader::spec_parse(s.take(k)) == LLCHeader::spec_parse(s),
{
}

/// A SNAP header decodes the same from every prefix of the input that holds
/// the bytes it consumed, in particular from exactly those.
pub proof fn lemma_snap_prefix(s: Seq<u8>, k: int)
    requires
        SNAPHeader::spec_parse(s) is Ok,
        SNAPHeader::spec_parse(s)->Ok_0.1 <= k <= s.len(),
    ensures
        SNAPHeader::spec_parse(s.take(k)) == SNAPHeader::spec_parse(s),
{
    assert(s.take(k).skip(3) == s.skip(3).take(k - 3));
    lemma_ether_type_prefix(s.skip(3), k - 3);
}

} // verus!
