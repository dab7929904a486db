//! The substrate that every decoder is built on: a cursor over the bytes that
//! are left, the failure a decoder can report, and the fixed width readers.
//!
//! A decoder is specified by a function from the bytes in front of it to a
//! [`Decoded`] value: either the decoded model together with the number of
//! bytes it spans, or a [`Failure`] that says how far decoding got and inside
//! which structures it stopped. The executable decoders work on a [`Cursor`]
//! and are tied to those functions by [`agrees`].

use vstd::prelude::*;
use vstd::slice::slice_subrange;

verus! {

/// Why a decoder stopped.
#[derive(Clone, Copy, Debug, PartialEq, Eq, Structural)]
pub enum ErrorKind {
    /// Fewer bytes were left than the field being read is wide.
    InsufficientData,
}

/// The structures a decoder can be inside of when it stops.
#[derive(Clone, Copy, Debug, PartialEq, Eq, Structural)]
pub enum Context {
    EthernetFrame,
    Dot11Frame,
    DataFrameBody,
    LlcHeader,
    SnapHeader,
    EtherType,
    ArpPacket,
    Ipv4Packet,
    Ipv6Packet,
    TcpSegment,
    UdpDatagram,
    IcmpPacket,
}

impl Context {
    /// The human readable name of the structure.
    pub open spec fn label_text(self) -> Seq<char> {
        match self {
            Context::EthernetFrame => "Ethernet Frame"@,
            Context::Dot11Frame => "802.11 Frame"@,
            Context::DataFrameBody => "802.11 Data Frame: Data frame body"@,
            Context::LlcHeader => "802.11 LLC Header"@,
            Context::SnapHeader => "802.11 SNAP Header"@,
            Context::EtherType => "EtherType"@,
            Context::ArpPacket => "ARP Packet"@,
            Context::Ipv4Packet => "IPv4 Packet"@,
            Context::Ipv6Packet => "IPv6 Packet"@,
            Context::TcpSegment => "TCP Segment"@,
            Context::UdpDatagram => "UDP Datagram"@,
            Context::IcmpPacket => "ICMP Packet"@,
        }
    }

    /// The human readable name of the structure.
    pub fn label(&self) -> (s: &'static str)
        ensures
            s@ == self.label_text(),
    {
        match self {
            Context::EthernetFrame => "Ethernet Frame",
            Context::Dot11Frame => "802.11 Frame",
            Context::DataFrameBody => "802.11 Data Frame: Data frame body",
            Context::LlcHeader => "802.11 LLC Header",
            Context::SnapHeader => "802.11 SNAP Header",
            Context::EtherType => "EtherType",
            Context::ArpPacket => "ARP Packet",
            Context::Ipv4Packet => "IPv4 Packet",
            Context::Ipv6Packet => "IPv6 Packet",
            Context::TcpSegment => "TCP Segment",
            Context::UdpDatagram => "UDP Datagram",
            Context::IcmpPacket => "ICMP Packet",
        }
    }
}

/// The model of a decoding failure: what went wrong, how many bytes from the
/// start of the input decoding had got to, and the structures it was inside
/// of, innermost first.
pub struct Failure {
    pub kind: ErrorKind,
    pub offset: nat,
    pub path: Seq<Context>,
}

impl Failure {
    /// Running out of bytes at `offset`, outside of any named structure.
    pub open spec fn short(offset: nat) -> Failure {
        Failure { kind: ErrorKind::InsufficientData, offset, path: Seq::empty() }
    }

    /// The same failure seen from the structure `c` that encloses it.
    pub open spec fn within(self, c: Context) -> Failure {
        Failure { path: self.path.push(c), ..self }
    }

    /// The same failure seen from an input that starts `n` bytes earlier.
    pub open spec fn shifted(self, n: nat) -> Failure {
        Failure { offset: self.offset + n, ..self }
    }
}

/// What a decoder makes of a byte sequence: the decoded model and the number
/// of bytes it spans, or the failure.
pub type Decoded<T> = Result<(T, nat), Failure>;

/// The failure a decoder reports.
#[derive(Clone, Debug, PartialEq, Eq)]
pub struct ParseError {
    pub kind: ErrorKind,
    /// Offset into the buffer the cursor was made from.
    pub offset: usize,
    /// The structures decoding was inside of, innermost first.
    pub contexts: Vec<Context>,
}

impl View for ParseError {
    type V = Failure;

    open spec fn view(&self) -> Failure {
        Failure { kind: self.kind, offset: self.offset as nat, path: self.contexts@ }
    }
}

impl ParseError {
    /// Running out of bytes at `offset`, outside of any named structure.
    pub fn insufficient(offset: usize) -> (e: ParseError)
        ensures
            e@ == Failure::short(offset as nat),
    {
        ParseError { kind: ErrorKind::InsufficientData, offset, contexts: Vec::new() }
    }

    /// Records that the failure happened inside `c`.
    pub fn within(self, c: Context) -> (e: ParseError)
        ensures
            e@ == self@.within(c),
    {
        let mut contexts = self.contexts;
        contexts.push(c);
        ParseError { kind: self.kind, offset: self.offset, contexts }
    }

    /// The structure in which decoding actually stopped, if any was named.
    pub fn innermost(&self) -> (c: Option<Context>)
        ensures
            c == if self@.path.len() == 0 {
                None
            } else {
                Some(self@.path[0])
            },
    {
        if self.contexts.len() == 0 {
            None
        } else {
            Some(self.contexts[0])
        }
    }
}

/// `nom::Err`, the failure of a nom parser. Nothing is said of what it
/// holds.
#[verifier::external_type_specification]
#[verifier::external_body]
#[verifier::reject_recursive_types(E)]
pub struct ExNomErr<E>(nom::Err<E>);

/// `nom::error::Error`, the error value of nom's own parsers. Nothing is
/// said of what it holds.
#[verifier::external_type_specification]
#[verifier::external_body]
#[verifier::reject_recursive_types(I)]
pub struct ExNomError<I>(nom::error::Error<I>);

/// The big-endian 16 bit number at `k` in `s`.
pub open spec fn be16(s: Seq<u8>, k: int) -> u16 {
    (s[k] * 256 + s[k + 1]) as u16
}

/// The big-endian 32 bit number at `k` in `s`.
pub open spec fn be32(s: Seq<u8>, k: int) -> u32 {
    (((s[k] * 256 + s[k + 1]) * 256 + s[k + 2]) * 256 + s[k + 3]) as u32
}

/// The big-endian 16 bit number at `k` in a block that is already at hand.
pub(crate) fn be16_at(b: &[u8], k: usize) -> (v: u16)
    requires
        k + 2 <= b@.len(),
    ensures
        v == be16(b@, k as int),
{
    let hi: u16 = b[k] as u16;
    let lo: u16 = b[k + 1] as u16;
    hi * 256 + lo
}

/// The big-endian 32 bit number at `k` in a block that is already at hand.
pub(crate) fn be32_at(b: &[u8], k: usize) -> (v: u32)
    requires
        k + 4 <= b@.len(),
    ensures
        v == be32(b@, k as int),
{
    let b0: u32 = b[k] as u32;
    let b1: u32 = b[k + 1] as u32;
    let b2: u32 = b[k + 2] as u32;
    let b3: u32 = b[k + 3] as u32;
    ((b0 * 256 + b1) * 256 + b2) * 256 + b3
}

/// The little-endian 16 bit number at `k` in `s`.
pub open spec fn le16(s: Seq<u8>, k: int) -> u16 {
    (s[k] + s[k + 1] * 256) as u16
}

/// The little-endian 16 bit number at `k` in a block that is already at hand.
pub(crate) fn le16_at(b: &[u8], k: usize) -> (v: u16)
    requires
        k + 2 <= b@.len(),
    ensures
        v == le16(b@, k as int),
{
    let lo: u16 = b[k] as u16;
    let hi: u16 = b[k + 1] as u16;
    hi * 256 + lo
}

/// `nom::number::complete::be_u8` on a byte slice: with a byte in front it
/// yields that byte and the slice behind it, on an empty slice it fails.
#[verifier::external_body]
fn nom_be_u8<'a>(input: &'a [u8]) -> (r: Result<
    (&'a [u8], u8),
    nom::Err<nom::error::Error<&'a [u8]>>,
>)
    ensures
        r is Ok <==> input@.len() >= 1,
        r matches Ok((rest, v)) ==> rest@ == input@.skip(1) && v == input@[0],
{
    nom::number::complete::be_u8(input)
}

/// `nom::number::complete::be_u16` on a byte slice: with two bytes in front
/// it yields their big-endian value and the slice behind them, with fewer it
/// fails.
#[verifier::external_body]
fn nom_be_u16<'a>(input: &'a [u8]) -> (r: Result<
    (&'a [u8], u16),
    nom::Err<nom::error::Error<&'a [u8]>>,
>)
    ensures
        r is Ok <==> input@.len() >= 2,
        r matches Ok((rest, v)) ==> rest@ == input@.skip(2) && v == input@[0] * 256 + input@[1],
{
    nom::number::complete::be_u16(input)
}

/// `nom::number::complete::be_u32` on a byte slice: with four bytes in front
/// it yields their big-endian value and the slice behind them, with fewer it
/// fails.
#[verifier::external_body]
fn nom_be_u32<'a>(input: &'a [u8]) -> (r: Result<
    (&'a [u8], u32),
    nom::Err<nom::error::Error<&'a [u8]>>,
>)
    ensures
        r is Ok <==> input@.len() >= 4,
        r matches Ok((rest, v)) ==> rest@ == input@.skip(4) && v == ((input@[0] * 256
            + input@[1]) * 256 + input@[2]) * 256 + input@[3],
{
    nom::number::complete::be_u32(input)
}

/// `nom::bytes::complete::take` on a byte slice: with `count` bytes in front
/// it yields the slice behind them and the slice of those bytes, with fewer
/// it fails.
#[verifier::external_body]
fn nom_take<'a>(count: usize, input: &'a [u8]) -> (r: Result<
    (&'a [u8], &'a [u8]),
    nom::Err<nom::error::Error<&'a [u8]>>,
>)
    ensures
        r is Ok <==> input@.len() >= count,
        r matches Ok((rest, taken)) ==> rest@ == input@.skip(count as int) && taken@
            == input@.take(count as int),
{
    nom::bytes::complete::take(count)(input)
}

/// What reading one byte makes of `s`.
pub open spec fn spec_u8(s: Seq<u8>) -> Decoded<u8> {
    if s.len() >= 1 {
        Ok((s[0], 1))
    } else {
        Err(Failure::short(0))
    }
}

/// What reading a big-endian 16 bit number makes of `s`.
pub open spec fn spec_be_u16(s: Seq<u8>) -> Decoded<u16> {
    if s.len() >= 2 {
        Ok((be16(s, 0), 2))
    } else {
        Err(Failure::short(0))
    }
}

/// What reading a big-endian 32 bit number makes of `s`.
pub open spec fn spec_be_u32(s: Seq<u8>) -> Decoded<u32> {
    if s.len() >= 4 {
        Ok((be32(s, 0), 4))
    } else {
        Err(Failure::short(0))
    }
}

/// What reading `n` raw bytes makes of `s`.
pub open spec fn spec_take(s: Seq<u8>, n: nat) -> Decoded<Seq<u8>> {
    if s.len() >= n {
        Ok((s.take(n as int), n))
    } else {
        Err(Failure::short(0))
    }
}

/// A position in a byte buffer: the bytes that are still to be decoded and
/// the number of bytes of the buffer that lie before them. A cursor is a
/// value; reading from one yields another and leaves the buffer untouched.
#[derive(Clone, Copy, Debug)]
pub struct Cursor<'a> {
    rest: &'a [u8],
    offset: usize,
}

impl<'a> Cursor<'a> {
    #[verifier::type_invariant]
    spec fn fits(self) -> bool {
        self.offset + self.rest@.len() <= usize::MAX
    }

    /// The bytes that are still to be decoded.
    pub closed spec fn rest(self) -> Seq<u8> {
        self.rest@
    }

    /// The number of bytes of the buffer that lie before the cursor.
    pub closed spec fn offset(self) -> nat {
        self.offset as nat
    }

    /// `self` is where a decoder that started at `from` and consumed `n`
    /// bytes ends up.
    pub open spec fn follows(self, from: Cursor, n: nat) -> bool {
        &&& n <= from.rest().len()
        &&& self.rest() == from.rest().skip(n as int)
        &&& self.offset() == from.offset() + n
    }

    /// Consuming `m` bytes and then `n` more is consuming `m + n`.
    pub proof fn lemma_follows_chain(self, from: Cursor, m: nat, then: Cursor, n: nat)
        requires
            self.follows(from, m),
            then.follows(self, n),
        ensures
            then.follows(from, m + n),
    {
        assert(from.rest().skip(m as int).skip(n as int) == from.rest().skip((m + n) as int));
    }

    /// A cursor at the start of `buf`.
    pub fn new(buf: &'a [u8]) -> (c: Self)
        ensures
            c.rest() == buf@,
            c.offset() == 0,
    {
        let n: usize = buf.len();
        assert(n == buf@.len());
        Cursor { rest: buf, offset: 0 }
    }

    /// The number of bytes that are still to be decoded.
    pub fn remaining(&self) -> (n: usize)
        ensures
            n == self.rest().len(),
            self.offset() + self.rest().len() <= usize::MAX,
    {
        proof {
            use_type_invariant(self);
        }
        self.rest.len()
    }

    /// The number of bytes of the buffer that lie before the cursor.
    pub fn position(&self) -> (n: usize)
        ensures
            n == self.offset(),
    {
        self.offset
    }

    /// The bytes that are still to be decoded.
    pub fn as_slice(&self) -> (s: &'a [u8])
        ensures
            s@ == self.rest(),
    {
        self.rest
    }

    /// Reads one byte.
    pub fn u8(self) -> (r: Parsed<'a, u8>)
        ensures
            agrees(self, r, spec_u8(self.rest())),
    {
        proof {
            use_type_invariant(self);
        }
        match nom_be_u8(self.rest) {
            Ok((rest, v)) => Ok((Cursor { rest, offset: self.offset + 1 }, v)),
            Err(_) => Err(ParseError::insufficient(self.offset)),
        }
    }

    /// Reads a big-endian 16 bit number.
    pub fn be_u16(self) -> (r: Parsed<'a, u16>)
        ensures
            agrees(self, r, spec_be_u16(self.rest())),
    {
        proof {
            use_type_invariant(self);
        }
        match nom_be_u16(self.rest) {
            Ok((rest, v)) => Ok((Cursor { rest, offset: self.offset + 2 }, v)),
            Err(_) => Err(ParseError::insufficient(self.offset)),
        }
    }

    /// Reads a big-endian 32 bit number.
    pub fn be_u32(self) -> (r: Parsed<'a, u32>)
        ensures
            agrees(self, r, spec_be_u32(self.rest())),
    {
        proof {
            use_type_invariant(self);
        }
        match nom_be_u32(self.rest) {
            Ok((rest, v)) => Ok((Cursor { rest, offset: self.offset + 4 }, v)),
            Err(_) => Err(ParseError::insufficient(self.offset)),
        }
    }

    /// Reads the next `n` bytes as they are.
    pub fn read(self, n: usize) -> (r: Parsed<'a, &'a [u8]>)
        ensures
            agrees(self, r, spec_take(self.rest(), n as nat)),
    {
        proof {
            use_type_invariant(self);
        }
        match nom_take(n, self.rest) {
            Ok((rest, taken)) => Ok((Cursor { rest, offset: self.offset + n }, taken)),
            Err(_) => Err(ParseError::insufficient(self.offset)),
        }
    }

    /// Cuts the next `n` bytes off as a cursor of their own, which ends where
    /// they end; the other cursor continues behind them.
    pub fn split(self, n: usize) -> (r: Parsed<'a, Cursor<'a>>)
        ensures
            r is Ok <==> self.rest().len() >= n,
            r matches Ok((next, front)) ==> next.follows(self, n as nat) && front.rest()
                == self.rest().take(n as int) && front.offset() == self.offset(),
            r matches Err(e) ==> e@ == Failure::short(self.offset()),
    {
        proof {
            use_type_invariant(self);
        }
        match nom_take(n, self.rest) {
            Ok((rest, taken)) => Ok(
                (
                    Cursor { rest, offset: self.offset + n },
                    Cursor { rest: taken, offset: self.offset },
                ),
            ),
            Err(_) => Err(ParseError::insufficient(self.offset)),
        }
    }

    /// Moves to the end of the input.
    pub fn finish(self) -> (r: (Cursor<'a>, &'a [u8]))
        ensures
            r.0.follows(self, self.rest().len()),
            r.1@ == self.rest(),
    {
        proof {
            use_type_invariant(self);
        }
        let n: usize = self.rest.len();
        let tail = slice_subrange(self.rest, n, n);
        (Cursor { rest: tail, offset: self.offset + n }, self.rest)
    }
}

/// What a decoder is handed: the cursor at which it starts.
pub type Input<'a> = Cursor<'a>;

/// What a decoder hands back: the cursor behind what it consumed together
/// with the decoded value, or the failure.
pub type Parsed<'a, T> = Result<(Cursor<'a>, T), ParseError>;

/// The executable result `r` of a decoder started at `i` is what the model
/// `m` says of the bytes at `i`: on success the value's view and the number
/// of bytes consumed, on failure the kind, the context path and the offset,
/// which the cursor counts from the start of its buffer.
pub open spec fn agrees<'a, T: View>(
    i: Cursor<'a>,
    r: Parsed<'a, T>,
    m: Decoded<T::V>,
) -> bool {
    match (r, m) {
        (Ok((next, v)), Ok((model, n))) => v@ == model && next.follows(i, n),
        (Err(e), Err(f)) => e@ == f.shifted(i.offset()),
        _ => false,
    }
}

} // verus!
