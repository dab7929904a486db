//! The MAC header of an 802.11 frame.

use crate::datalink::MacAddr;
use crate::parse::{agrees, be32, be32_at, le16, le16_at, Context, Decoded, Failure, Input, Parsed};
use vstd::prelude::*;

verus! {

/// The width of what every 802.11 frame starts with: frame control,
/// duration and the first address.
pub const COMMON_LEN: usize = 10;

/// The width of the part of a data frame's header that is always there.
pub const DATA_LEN: usize = 24;

/// The four kinds of 802.11 frame.
#[derive(Clone, Copy, Debug, PartialEq, Eq, Structural)]
pub enum FrameType {
    Management,
    Control,
    Data,
    Extension,
}

impl FrameType {
    /// The kind that the two type bits `bits` stand for.
    pub open spec fn of(bits: u8) -> FrameType {
        if bits % 4 == 0 {
            FrameType::Management
        } else if bits % 4 == 1 {
            FrameType::Control
        } else if bits % 4 == 2 {
            FrameType::Data
        } else {
            FrameType::Extension
        }
    }

    /// The kind that the two type bits `bits` stand for.
    pub fn from_bits(bits: u8) -> (t: FrameType)
        ensures
            t == FrameType::of(bits),
    {
        let low: u8 = bits % 4;
        if low == 0 {
            FrameType::Management
        } else if low == 1 {
            FrameType::Control
        } else if low == 2 {
            FrameType::Data
        } else {
            FrameType::Extension
        }
    }
}

/// The frame control field.
#[derive(Clone, Copy, Debug, PartialEq, Eq, Structural)]
pub struct FrameControl {
    /// The low two bits of the first byte.
    pub version: u8,
    /// The two bits behind the version.
    pub frame_type: FrameType,
    /// The high four bits of the first byte.
    pub subtype: u8,
    /// The second byte: to DS lowest, order highest.
    pub flags: u8,
}

impl FrameControl {
    /// The frame control field that the first two bytes of `s` encode.
    pub open spec fn of(s: Seq<u8>) -> FrameControl {
        FrameControl {
            version: (s[0] % 4) as u8,
            frame_type: FrameType::of((s[0] / 4) as u8),
            subtype: (s[0] / 16) as u8,
            flags: s[1],
        }
    }

    /// Decodes the frame control field at the front of `b`.
    pub(crate) fn decode(b: &[u8]) -> (c: FrameControl)
        requires
            b@.len() >= 2,
        ensures
            c == FrameControl::of(b@),
    {
        FrameControl {
            version: b[0] % 4,
            frame_type: FrameType::from_bits(b[0] / 4),
            subtype: b[0] / 16,
            flags: b[1],
        }
    }

    /// Whether the frame carries a fourth address: both the to DS and the
    /// from DS flag are set.
    pub open spec fn has_address4(self) -> bool {
        self.flags % 4 == 3
    }

    /// Whether the frame carries a QoS control field: the high bit of the
    /// subtype is set.
    pub open spec fn has_qos(self) -> bool {
        self.subtype >= 8
    }

    /// Whether the frame carries an HT control field: it has a QoS control
    /// field and the order flag is set.
    pub open spec fn has_ht(self) -> bool {
        self.has_qos() && self.flags >= 128
    }

    /// The width of a data frame's header with this frame control field.
    pub open spec fn data_header_len(self) -> nat {
        (DATA_LEN + if self.has_address4() {
            6nat
        } else {
            0
        } + if self.has_qos() {
            2nat
        } else {
            0
        } + if self.has_ht() {
            4nat
        } else {
            0
        }) as nat
    }
}

/// What a data frame's header holds behind the part that all frames share.
#[derive(Clone, Copy, Debug, PartialEq, Eq, Structural)]
pub struct DataHeader {
    pub address2: MacAddr,
    pub address3: MacAddr,
    /// Fragment and sequence number, as the little-endian number they are
    /// sent as.
    pub sequence_control: u16,
    pub address4: Option<MacAddr>,
    /// The QoS control field, as the little-endian number it is sent as.
    pub qos_control: Option<u16>,
    /// The four bytes of the HT control field, first byte highest.
    pub ht_control: Option<u32>,
}

/// The MAC header of a frame.
#[derive(Clone, Copy, Debug, PartialEq, Eq, Structural)]
pub struct Header {
    pub frame_control: FrameControl,
    /// The duration or association id, as the little-endian number it is
    /// sent as.
    pub duration: u16,
    pub address1: MacAddr,
    /// The rest of the header, which is decoded for data frames only.
    pub data: Option<DataHeader>,
}

impl View for Header {
    type V = Header;

    open spec fn view(&self) -> Header {
        *self
    }
}

impl Header {
    /// The rest of a data frame's header as `s` encodes it, `s` starting at
    /// the frame and being as long as such a header.
    pub open spec fn data_of(s: Seq<u8>) -> DataHeader {
        let c = FrameControl::of(s);
        let qos_at: int = if c.has_address4() {
            30
        } else {
            24
        };
        let ht_at = qos_at + 2;
        DataHeader {
            address2: MacAddr::at(s, 10),
            address3: MacAddr::at(s, 16),
            sequence_control: le16(s, 22),
            address4: if c.has_address4() {
                Some(MacAddr::at(s, 24))
            } else {
                None
            },
            qos_control: if c.has_qos() {
                Some(le16(s, qos_at))
            } else {
                None
            },
            ht_control: if c.has_ht() {
                Some(be32(s, ht_at))
            } else {
                None
            },
        }
    }

    /// What decoding a MAC header makes of `s`: frame control, duration and
    /// first address, and for a data frame the two further addresses, the
    /// sequence control field and those of fourth address, QoS control and
    /// HT control that the frame control field announces. It fails where `s`
    /// does not hold the first ten bytes, at its start, and where it does not
    /// hold the whole of a data frame's header, behind those ten.
    pub open spec fn spec_parse(s: Seq<u8>) -> Decoded<Header> {
        let c = FrameControl::of(s);
        if s.len() < COMMON_LEN {
            Err(Failure::short(0).within(Context::Dot11Frame))
        } else if c.frame_type != FrameType::Data {
            Ok(
                (
                    Header {
                        frame_control: c,
                        duration: le16(s, 2),
                        address1: MacAddr::at(s, 4),
                        data: None,
                    },
                    COMMON_LEN as nat,
                ),
            )
        } else if s.len() < c.data_header_len() {
            Err(Failure::short(COMMON_LEN as nat).within(Context::Dot11Frame))
        } else {
            Ok(
                (
                    Header {
                        frame_control: c,
                        duration: le16(s, 2),
                        address1: MacAddr::at(s, 4),
                        data: Some(Header::data_of(s)),
                    },
                    c.data_header_len(),
                ),
            )
        }
    }

    /// Decodes the MAC header at `i`.
    pub fn parse<'a>(i: Input<'a>) -> (r: Parsed<'a, Header>)
        ensures
            agrees(i, r, Self::spec_parse(i.rest())),
    {
        let (body, block) = match i.read(COMMON_LEN) {
            Ok(x) => x,
            Err(e) => return Err(e.within(Context::Dot11Frame)),
        };
        let frame_control = FrameControl::decode(block);
        let duration = le16_at(block, 2);
        let address1 = MacAddr::decode(block, 4);
        proof {
            assert(FrameControl::of(block@) == FrameControl::of(i.rest()));
            assert(le16(block@, 2) == le16(i.rest(), 2));
            assert(MacAddr::at(block@, 4) == MacAddr::at(i.rest(), 4));
        }
        match frame_control.frame_type {
            FrameType::Data => {},
            _ => return Ok((body, Header { frame_control, duration, address1, data: None })),
        }
        let address4_len: usize = if frame_control.flags % 4 == 3 {
            6
        } else {
            0
        };
        let qos_len: usize = if frame_control.subtype >= 8 {
            2
        } else {
            0
        };
        let ht_len: usize = if frame_control.subtype >= 8 && frame_control.flags >= 128 {
            4
        } else {
            0
        };
        let more: usize = 14 + address4_len + qos_len + ht_len;
        let (next, tail) = match body.read(more) {
            Ok(x) => x,
            Err(e) => return Err(e.within(Context::Dot11Frame)),
        };
        let qos_at: usize = 14 + address4_len;
        let data = DataHeader {
            address2: MacAddr::decode(tail, 0),
            address3: MacAddr::decode(tail, 6),
            sequence_control: le16_at(tail, 12),
            address4: if address4_len == 6 {
                Some(MacAddr::decode(tail, 14))
            } else {
                None
            },
            qos_control: if qos_len == 2 {
                Some(le16_at(tail, qos_at))
            } else {
                None
            },
            ht_control: if ht_len == 4 {
                Some(be32_at(tail, qos_at + 2))
            } else {
                None
            },
        };
        proof {
            let s = i.rest();
            assert(tail@ == s.subrange(10, 10 + more));
            assert(data == Header::data_of(s));
            body.lemma_follows_chain(i, 10, next, more as nat);
        }
        Ok((next, Header { frame_control, duration, address1, data: Some(data) }))
    }
}

/// A MAC header decodes the same from every prefix of the input that holds
/// the bytes it consumed, in particular from exactly those.
pub proof fn lemma_header_prefix(s: Seq<u8>, k: int)
    requires
        Header::spec_parse(s) is Ok,
        Header::spec_parse(s)->Ok_0.1 <= k <= s.len(),
    ensures
        Header::spec_parse(s.take(k)) == Header::spec_parse(s),
{
    let t = s.take(k);
    assert(FrameControl::of(t) == FrameControl::of(s));
    assert(le16(t, 2) == le16(s, 2));
    assert(MacAddr::at(t, 4) == MacAddr::at(s, 4));
    if FrameControl::of(s).frame_type == FrameType::Data {
        assert(Header::data_of(t) == Header::data_of(s));
    }
}

} // verus!
