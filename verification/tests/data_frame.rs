use netparse::blob::Blob;
use netparse::datalink::{EtherType, Payload};
use netparse::ipv4;
use netparse::parse::{Context, Cursor, ErrorKind, ParseError};
use netparse::udp;
use netparse::wifi::data::{DataFrameBody, LLCHeader, SNAPHeader};

fn llc_snap(tag: [u8; 2]) -> Vec<u8> {
    vec![0xaa, 0xaa, 0x03, 0x00, 0x00, 0x00, tag[0], tag[1]]
}

fn ipv4_header_only() -> Vec<u8> {
    vec![
        0x45, 0x00, 0x00, 0x14, 0x12, 0x34, 0x40, 0x00, 0x40, 0x06, 0xbe, 0xef, 192, 168, 0, 1,
        192, 168, 0, 2,
    ]
}

fn expected_ipv4_header() -> ipv4::Header {
    ipv4::Header {
        version: 4,
        ihl: 5,
        dscp: 0,
        ecn: 0,
        total_length: 20,
        identification: 0x1234,
        flags: 2,
        fragment_offset: 0,
        ttl: 64,
        protocol: 6,
        checksum: 0xbeef,
        source: ipv4::Addr(192, 168, 0, 1),
        destination: ipv4::Addr(192, 168, 0, 2),
    }
}

#[test]
fn llc_header_reads_three_bytes_in_order() {
    let bytes = [0xaau8, 0xbb, 0x03, 0x99];
    let (rest, llc) = LLCHeader::parse(Cursor::new(&bytes)).unwrap();
    assert_eq!(llc, LLCHeader { dsap: 0xaa, ssap: 0xbb, ctrl: 0x03 });
    assert_eq!(rest.position(), 3);
    assert_eq!(rest.as_slice(), &[0x99u8][..]);
}

#[test]
fn llc_header_accepts_any_byte_values() {
    let bytes = [0x00u8, 0xff, 0x80];
    let (_, llc) = LLCHeader::parse(Cursor::new(&bytes)).unwrap();
    assert_eq!(llc, LLCHeader { dsap: 0x00, ssap: 0xff, ctrl: 0x80 });
}

#[test]
fn llc_header_short_input_fails_at_missing_byte() {
    for n in 0..3usize {
        let bytes = vec![0xaau8; n];
        let e = LLCHeader::parse(Cursor::new(&bytes)).unwrap_err();
        assert_eq!(
            e,
            ParseError {
                kind: ErrorKind::InsufficientData,
                offset: n,
                contexts: vec![Context::LlcHeader],
            }
        );
    }
}

#[test]
fn snap_header_skips_organisation_code() {
    let a = [0x00u8, 0x00, 0x00, 0x08, 0x00];
    let b = [0x12u8, 0x34, 0x56, 0x08, 0x00];
    let (ra, sa) = SNAPHeader::parse(Cursor::new(&a)).unwrap();
    let (rb, sb) = SNAPHeader::parse(Cursor::new(&b)).unwrap();
    assert_eq!(sa, SNAPHeader { ether_type: Some(EtherType::IPv4) });
    assert_eq!(sa, sb);
    assert_eq!(ra.position(), 5);
    assert_eq!(rb.position(), 5);
}

#[test]
fn snap_header_known_tags() {
    let v6 = [0u8, 0, 0, 0x86, 0xdd];
    let arp = [0u8, 0, 0, 0x08, 0x06];
    assert_eq!(
        SNAPHeader::parse(Cursor::new(&v6)).unwrap().1.ether_type,
        Some(EtherType::IPv6)
    );
    assert_eq!(
        SNAPHeader::parse(Cursor::new(&arp)).unwrap().1.ether_type,
        Some(EtherType::ARP)
    );
}

#[test]
fn snap_header_unknown_tag_is_success_without_type() {
    for tag in [[0xffu8, 0xff], [0x00, 0x00], [0x08, 0x01], [0x86, 0xdc], [0x00, 0x08]] {
        let bytes = [0u8, 0, 0, tag[0], tag[1]];
        let (rest, snap) = SNAPHeader::parse(Cursor::new(&bytes)).unwrap();
        assert_eq!(snap, SNAPHeader { ether_type: None });
        assert_eq!(rest.remaining(), 0);
    }
}

#[test]
fn snap_header_short_input() {
    let two = [0u8, 0];
    let e = SNAPHeader::parse(Cursor::new(&two)).unwrap_err();
    assert_eq!(e.offset, 0);
    assert_eq!(e.contexts, vec![Context::SnapHeader]);
    let four = [0u8, 0, 0, 8];
    let e = SNAPHeader::parse(Cursor::new(&four)).unwrap_err();
    assert_eq!(e.kind, ErrorKind::InsufficientData);
    assert_eq!(e.offset, 3);
    assert_eq!(e.contexts, vec![Context::EtherType, Context::SnapHeader]);
}

#[test]
fn ether_type_table() {
    assert_eq!(EtherType::from_tag(0x0800), Some(EtherType::IPv4));
    assert_eq!(EtherType::from_tag(0x86dd), Some(EtherType::IPv6));
    assert_eq!(EtherType::from_tag(0x0806), Some(EtherType::ARP));
    assert_eq!(EtherType::from_tag(0xffff), None);
    assert_eq!(EtherType::from_tag(0x0008), None);
}

#[test]
fn ether_type_parse_reads_big_endian_tag() {
    let bytes = [0x08u8, 0x06, 0x01];
    let (rest, t) = EtherType::parse(Cursor::new(&bytes)).unwrap();
    assert_eq!(t, Some(EtherType::ARP));
    assert_eq!(rest.position(), 2);
    let one = [0x08u8];
    let e = EtherType::parse(Cursor::new(&one)).unwrap_err();
    assert_eq!(e.contexts, vec![Context::EtherType]);
    assert_eq!(e.offset, 0);
}

#[test]
fn body_with_ipv4_header_and_nothing_behind_it() {
    let mut bytes = llc_snap([0x08, 0x00]);
    bytes.extend(ipv4_header_only());
    let (rest, body) = DataFrameBody::parse(Cursor::new(&bytes)).unwrap();
    assert_eq!(body.llc, Some(LLCHeader { dsap: 0xaa, ssap: 0xaa, ctrl: 0x03 }));
    assert_eq!(body.snap, Some(SNAPHeader { ether_type: Some(EtherType::IPv4) }));
    assert_eq!(
        body.payload,
        Some(Payload::IPv4(ipv4::Packet {
            header: expected_ipv4_header(),
            options: Blob { bytes: vec![] },
            payload: ipv4::Payload::Unknown,
        }))
    );
    assert_eq!(rest.remaining(), 0);
    assert_eq!(rest.position(), 28);
}

#[test]
fn body_with_ipv4_packet_leaves_trailing_padding() {
    let mut bytes = llc_snap([0x08, 0x00]);
    let mut ip = ipv4_header_only();
    ip[3] = 32;
    ip[9] = 17;
    bytes.extend(ip);
    bytes.extend([0x04, 0xd2, 0x00, 0x35, 0x00, 0x0c, 0xab, 0xcd, 0xde, 0xad, 0xbe, 0xef]);
    bytes.extend([0x00, 0x00, 0x99]);
    let (rest, body) = DataFrameBody::parse(Cursor::new(&bytes)).unwrap();
    let mut header = expected_ipv4_header();
    header.total_length = 32;
    header.protocol = 17;
    assert_eq!(
        body.payload,
        Some(Payload::IPv4(ipv4::Packet {
            header,
            options: Blob { bytes: vec![] },
            payload: ipv4::Payload::UDP(udp::Datagram {
                header: udp::Header {
                    source_port: 1234,
                    destination_port: 53,
                    length: 12,
                    checksum: 0xabcd,
                },
                payload: Blob { bytes: vec![0xde, 0xad, 0xbe, 0xef] },
            }),
        }))
    );
    assert_eq!(rest.position(), 40);
    assert_eq!(rest.as_slice(), &[0x00u8, 0x00, 0x99][..]);
}

#[test]
fn body_with_unknown_ether_type() {
    let bytes = llc_snap([0xff, 0xff]);
    let (rest, body) = DataFrameBody::parse(Cursor::new(&bytes)).unwrap();
    assert_eq!(body.llc, Some(LLCHeader { dsap: 0xaa, ssap: 0xaa, ctrl: 0x03 }));
    assert_eq!(body.snap, Some(SNAPHeader { ether_type: None }));
    assert_eq!(body.payload, Some(Payload::Unknown));
    assert_eq!(rest.remaining(), 0);
}

#[test]
fn body_with_unknown_ether_type_consumes_nothing_behind_headers() {
    let mut bytes = llc_snap([0x12, 0x34]);
    bytes.extend([1, 2, 3, 4]);
    let (rest, body) = DataFrameBody::parse(Cursor::new(&bytes)).unwrap();
    assert_eq!(body.payload, Some(Payload::Unknown));
    assert_eq!(rest.position(), 8);
    assert_eq!(rest.as_slice(), &[1u8, 2, 3, 4][..]);
}

#[test]
fn body_of_five_bytes_fails_in_snap_header() {
    let bytes = [0xaau8, 0xaa, 0x03, 0x00, 0x00];
    let e = DataFrameBody::parse(Cursor::new(&bytes)).unwrap_err();
    assert_eq!(e.kind, ErrorKind::InsufficientData);
    assert_eq!(e.innermost(), Some(Context::SnapHeader));
    assert_eq!(e.innermost().unwrap().label(), "802.11 SNAP Header");
    assert_eq!(e.contexts, vec![Context::SnapHeader, Context::DataFrameBody]);
    assert_eq!(e.offset, 3);
}

#[test]
fn body_shorter_than_eight_bytes_always_fails() {
    let full = llc_snap([0x08, 0x00]);
    for n in 0..8usize {
        let e = DataFrameBody::parse(Cursor::new(&full[..n])).unwrap_err();
        assert_eq!(e.kind, ErrorKind::InsufficientData);
        assert!(e.offset <= n);
        assert_eq!(e.contexts.last(), Some(&Context::DataFrameBody));
        let (first, offset) = if n < 3 {
            (Context::LlcHeader, n)
        } else if n < 6 {
            (Context::SnapHeader, 3)
        } else {
            (Context::EtherType, 6)
        };
        assert_eq!(e.innermost(), Some(first));
        assert_eq!(e.offset, offset);
    }
    assert!(DataFrameBody::parse(Cursor::new(&full)).is_ok());
}

#[test]
fn body_with_truncated_ipv4_packet_is_unknown() {
    let mut bytes = llc_snap([0x08, 0x00]);
    bytes.extend(&ipv4_header_only()[..12]);
    let (rest, body) = DataFrameBody::parse(Cursor::new(&bytes)).unwrap();
    assert_eq!(body.snap, Some(SNAPHeader { ether_type: Some(EtherType::IPv4) }));
    assert_eq!(body.payload, Some(Payload::Unknown));
    assert_eq!(rest.position(), 8);
    assert_eq!(rest.remaining(), 12);
}

#[test]
fn body_error_offsets_count_from_start_of_buffer() {
    let bytes = [0u8, 0, 0, 0, 0xaa, 0xaa, 0x03, 0x00, 0x00];
    let (c, _) = Cursor::new(&bytes).read(4).unwrap();
    let e = DataFrameBody::parse(c).unwrap_err();
    assert_eq!(e.offset, 7);
    assert_eq!(e.contexts, vec![Context::SnapHeader, Context::DataFrameBody]);
}

#[test]
fn reparsing_consumed_bytes_gives_same_body() {
    let mut bytes = llc_snap([0x08, 0x00]);
    let mut ip = ipv4_header_only();
    ip[3] = 32;
    ip[9] = 17;
    bytes.extend(ip);
    bytes.extend([0x04, 0xd2, 0x00, 0x35, 0x00, 0x0c, 0xab, 0xcd, 0xde, 0xad, 0xbe, 0xef]);
    bytes.extend([0x55, 0x66, 0x77]);
    let (rest, first) = DataFrameBody::parse(Cursor::new(&bytes)).unwrap();
    let consumed = rest.position();
    let (rest2, second) = DataFrameBody::parse(Cursor::new(&bytes[..consumed])).unwrap();
    assert_eq!(first, second);
    assert_eq!(rest2.position(), consumed);
    assert_eq!(rest2.remaining(), 0);
}

#[test]
fn reparsing_consumed_bytes_of_unknown_body() {
    let mut bytes = llc_snap([0x08, 0x06]);
    bytes.extend([1, 2, 3]);
    let (rest, first) = DataFrameBody::parse(Cursor::new(&bytes)).unwrap();
    assert_eq!(first.payload, Some(Payload::Unknown));
    let consumed = rest.position();
    assert_eq!(consumed, 8);
    let (_, second) = DataFrameBody::parse(Cursor::new(&bytes[..consumed])).unwrap();
    assert_eq!(first, second);
}

#[test]
fn payload_of_unrecognized_type_is_unknown_and_takes_nothing() {
    let bytes = [0x45u8, 0, 0, 20, 0, 0, 0, 0, 64, 6, 0, 0, 1, 2, 3, 4, 5, 6, 7, 8];
    let (rest, payload) = Payload::decode(Some(EtherType::Unrecognized), Cursor::new(&bytes));
    assert_eq!(payload, Payload::Unknown);
    assert_eq!(rest.position(), 0);
    let (rest, payload) = Payload::decode(None, Cursor::new(&bytes));
    assert_eq!(payload, Payload::Unknown);
    assert_eq!(rest.remaining(), 20);
    let (rest, payload) = Payload::decode(Some(EtherType::IPv4), Cursor::new(&bytes));
    assert!(matches!(payload, Payload::IPv4(_)));
    assert_eq!(rest.position(), 20);
}
