use netparse::arp;
use netparse::blob::Blob;
use netparse::icmp;
use netparse::ipv4;
use netparse::ipv6;
use netparse::parse::{Context, Cursor, ErrorKind, ParseError};
use netparse::tcp;

fn ipv4_with_options_and_icmp() -> Vec<u8> {
    let mut v = vec![
        0x46, 0xb9, 0x00, 0x20, 0xab, 0xcd, 0x3f, 0xff, 0x80, 0x01, 0x11, 0x22, 10, 0, 0, 1, 10,
        0, 0, 2,
    ];
    v.extend([0x94, 0x04, 0x00, 0x00]);
    v.extend([0x00, 0x00, 0x12, 0x34, 0x00, 0x01, 0x00, 0x02]);
    v
}

#[test]
fn ipv4_packet_with_options_and_icmp_payload() {
    let bytes = ipv4_with_options_and_icmp();
    let (rest, packet) = ipv4::Packet::parse(Cursor::new(&bytes)).unwrap();
    assert_eq!(
        packet,
        ipv4::Packet {
            header: ipv4::Header {
                version: 4,
                ihl: 6,
                dscp: 0x2e,
                ecn: 1,
                total_length: 32,
                identification: 0xabcd,
                flags: 1,
                fragment_offset: 0x1fff,
                ttl: 128,
                protocol: 1,
                checksum: 0x1122,
                source: ipv4::Addr(10, 0, 0, 1),
                destination: ipv4::Addr(10, 0, 0, 2),
            },
            options: Blob { bytes: vec![0x94, 0x04, 0x00, 0x00] },
            payload: ipv4::Payload::ICMP(icmp::Packet {
                header: icmp::Header {
                    message_type: 0,
                    code: 0,
                    checksum: 0x1234,
                    rest_of_header: 0x00010002,
                },
                payload: Blob { bytes: vec![] },
            }),
        }
    );
    assert_eq!(rest.position(), 32);
    assert_eq!(rest.remaining(), 0);
}

#[test]
fn ipv4_packet_hands_only_declared_bytes_to_transport() {
    let mut bytes = vec![
        0x45, 0x00, 0x00, 0x2a, 0x00, 0x00, 0x00, 0x00, 0x40, 0x06, 0x00, 0x00, 1, 2, 3, 4, 5, 6,
        7, 8,
    ];
    bytes.extend([
        0x00, 0x14, 0x00, 0x15, 0, 0, 0, 9, 0, 0, 0, 0, 0x50, 0x18, 0x01, 0x00, 0, 0, 0, 0,
    ]);
    bytes.extend([0x41, 0x42]);
    bytes.extend([0xee, 0xee, 0xee]);
    let (rest, packet) = ipv4::Packet::parse(Cursor::new(&bytes)).unwrap();
    assert_eq!(packet.header.total_length, 42);
    assert_eq!(
        packet.payload,
        ipv4::Payload::TCP(tcp::Segment {
            header: tcp::Header {
                source_port: 20,
                destination_port: 21,
                sequence: 9,
                acknowledgment: 0,
                data_offset: 5,
                reserved: 0,
                flags: 0x18,
                window: 256,
                checksum: 0,
                urgent_pointer: 0,
            },
            options: Blob { bytes: vec![] },
            payload: Blob { bytes: vec![0x41, 0x42] },
        })
    );
    assert_eq!(rest.position(), 42);
    assert_eq!(rest.as_slice(), &[0xeeu8, 0xee, 0xee][..]);
}

#[test]
fn ipv4_packet_with_protocol_without_decoder_is_unknown() {
    let mut bytes = ipv4_with_options_and_icmp();
    bytes[9] = 47;
    let (rest, packet) = ipv4::Packet::parse(Cursor::new(&bytes)).unwrap();
    assert_eq!(packet.header.protocol, 47);
    assert_eq!(packet.payload, ipv4::Payload::Unknown);
    assert_eq!(rest.position(), 32);
}

#[test]
fn ipv4_packet_with_malformed_transport_is_unknown() {
    let mut bytes = ipv4_with_options_and_icmp();
    bytes[9] = 6;
    let (rest, packet) = ipv4::Packet::parse(Cursor::new(&bytes)).unwrap();
    assert_eq!(packet.payload, ipv4::Payload::Unknown);
    assert_eq!(rest.position(), 32);
}

#[test]
fn ipv4_packet_small_header_length_means_no_options() {
    let mut bytes = ipv4_with_options_and_icmp();
    bytes[0] = 0x42;
    bytes[9] = 47;
    let (rest, packet) = ipv4::Packet::parse(Cursor::new(&bytes)).unwrap();
    assert_eq!(packet.header.ihl, 2);
    assert_eq!(packet.options, Blob { bytes: vec![] });
    assert_eq!(rest.position(), 32);
}

#[test]
fn ipv4_packet_small_total_length_means_no_payload() {
    let mut bytes = ipv4_with_options_and_icmp();
    bytes[3] = 10;
    let (rest, packet) = ipv4::Packet::parse(Cursor::new(&bytes)).unwrap();
    assert_eq!(packet.header.total_length, 10);
    assert_eq!(packet.options.len(), 4);
    assert_eq!(packet.payload, ipv4::Payload::Unknown);
    assert_eq!(rest.position(), 24);
}

#[test]
fn ipv4_packet_failures() {
    let bytes = ipv4_with_options_and_icmp();
    let short = |n: usize, offset: usize| {
        let e = ipv4::Packet::parse(Cursor::new(&bytes[..n])).unwrap_err();
        assert_eq!(
            e,
            ParseError {
                kind: ErrorKind::InsufficientData,
                offset,
                contexts: vec![Context::Ipv4Packet],
            }
        );
    };
    short(0, 0);
    short(19, 0);
    short(20, 20);
    short(23, 20);
    short(24, 24);
    short(31, 24);
    assert!(ipv4::Packet::parse(Cursor::new(&bytes[..32])).is_ok());
}

#[test]
fn ipv4_length_formulas() {
    let (_, packet) = ipv4::Packet::parse(Cursor::new(&ipv4_with_options_and_icmp())).unwrap();
    let mut h = packet.header;
    assert_eq!(h.option_bytes(), 4);
    assert_eq!(h.payload_bytes(), 8);
    h.ihl = 15;
    h.total_length = 65535;
    assert_eq!(h.option_bytes(), 40);
    assert_eq!(h.payload_bytes(), 65475);
    h.ihl = 5;
    h.total_length = 20;
    assert_eq!(h.option_bytes(), 0);
    assert_eq!(h.payload_bytes(), 0);
    h.total_length = 0;
    assert_eq!(h.payload_bytes(), 0);
}

#[test]
fn ipv4_protocol_table() {
    assert_eq!(ipv4::Protocol::from_number(1), Some(ipv4::Protocol::ICMP));
    assert_eq!(ipv4::Protocol::from_number(6), Some(ipv4::Protocol::TCP));
    assert_eq!(ipv4::Protocol::from_number(17), Some(ipv4::Protocol::UDP));
    assert_eq!(ipv4::Protocol::from_number(0), None);
    assert_eq!(ipv4::Protocol::from_number(255), None);
}

#[test]
fn ipv4_payload_decode_absorbs_failure() {
    let region = [0u8; 7];
    assert_eq!(ipv4::Payload::decode(17, Cursor::new(&region)), ipv4::Payload::Unknown);
    assert_eq!(ipv4::Payload::decode(1, Cursor::new(&region)), ipv4::Payload::Unknown);
    assert_eq!(ipv4::Payload::decode(6, Cursor::new(&region)), ipv4::Payload::Unknown);
    assert_eq!(ipv4::Payload::decode(99, Cursor::new(&region)), ipv4::Payload::Unknown);
}

fn ipv6_bytes() -> Vec<u8> {
    let mut v = vec![0x6a, 0xbc, 0xde, 0xf1, 0x00, 0x04, 0x3a, 0x40];
    v.extend([0x20, 0x01, 0x0d, 0xb8, 0, 0, 0, 0, 0, 0, 0, 0, 0, 0, 0, 1]);
    v.extend([0xfe, 0x80, 0, 0, 0, 0, 0, 0, 0, 0, 0, 0, 0, 0, 0x12, 0x34]);
    v.extend([1, 2, 3, 4]);
    v.extend([9, 9]);
    v
}

#[test]
fn ipv6_packet_fields_and_payload() {
    let bytes = ipv6_bytes();
    let (rest, packet) = ipv6::Packet::parse(Cursor::new(&bytes)).unwrap();
    assert_eq!(
        packet,
        ipv6::Packet {
            header: ipv6::Header {
                version: 6,
                traffic_class: 0xab,
                flow_label: 0xcdef1,
                payload_length: 4,
                next_header: 58,
                hop_limit: 64,
                source: ipv6::Addr(0x2001, 0x0db8, 0, 0, 0, 0, 0, 1),
                destination: ipv6::Addr(0xfe80, 0, 0, 0, 0, 0, 0, 0x1234),
            },
            payload: Blob { bytes: vec![1, 2, 3, 4] },
        }
    );
    assert_eq!(rest.position(), 44);
    assert_eq!(rest.as_slice(), &[9u8, 9][..]);
}

#[test]
fn ipv6_packet_failures() {
    let bytes = ipv6_bytes();
    let e = ipv6::Packet::parse(Cursor::new(&bytes[..39])).unwrap_err();
    assert_eq!(e.offset, 0);
    assert_eq!(e.contexts, vec![Context::Ipv6Packet]);
    let e = ipv6::Packet::parse(Cursor::new(&bytes[..43])).unwrap_err();
    assert_eq!(e.kind, ErrorKind::InsufficientData);
    assert_eq!(e.offset, 40);
    assert_eq!(e.contexts, vec![Context::Ipv6Packet]);
    assert!(ipv6::Packet::parse(Cursor::new(&bytes[..44])).is_ok());
}

fn arp_bytes() -> Vec<u8> {
    let mut v = vec![0x00, 0x01, 0x08, 0x00, 0x06, 0x04, 0x00, 0x02];
    v.extend([0x00, 0x11, 0x22, 0x33, 0x44, 0x55]);
    v.extend([192, 168, 1, 1]);
    v.extend([0x66, 0x77, 0x88, 0x99, 0xaa, 0xbb]);
    v.extend([192, 168, 1, 2]);
    v
}

#[test]
fn arp_packet_for_ethernet_and_ipv4() {
    let mut bytes = arp_bytes();
    bytes.extend([0u8; 18]);
    let (rest, packet) = arp::Packet::parse(Cursor::new(&bytes)).unwrap();
    assert_eq!(
        packet,
        arp::Packet {
            header: arp::Header {
                hardware_type: 1,
                protocol_type: 0x0800,
                hardware_len: 6,
                protocol_len: 4,
                operation: 2,
            },
            sender_hardware: Blob { bytes: vec![0x00, 0x11, 0x22, 0x33, 0x44, 0x55] },
            sender_protocol: Blob { bytes: vec![192, 168, 1, 1] },
            target_hardware: Blob { bytes: vec![0x66, 0x77, 0x88, 0x99, 0xaa, 0xbb] },
            target_protocol: Blob { bytes: vec![192, 168, 1, 2] },
        }
    );
    assert_eq!(rest.position(), 28);
    assert_eq!(rest.remaining(), 18);
}

#[test]
fn arp_packet_address_widths_come_from_header() {
    let bytes = [0x00u8, 0x06, 0x08, 0x00, 0x02, 0x01, 0x00, 0x01, 1, 2, 3, 4, 5, 6, 7];
    let (rest, packet) = arp::Packet::parse(Cursor::new(&bytes)).unwrap();
    assert_eq!(packet.sender_hardware, Blob { bytes: vec![1, 2] });
    assert_eq!(packet.sender_protocol, Blob { bytes: vec![3] });
    assert_eq!(packet.target_hardware, Blob { bytes: vec![4, 5] });
    assert_eq!(packet.target_protocol, Blob { bytes: vec![6] });
    assert_eq!(rest.position(), 14);
    assert_eq!(rest.as_slice(), &[7u8][..]);
}

#[test]
fn arp_packet_failures() {
    let bytes = arp_bytes();
    let e = arp::Packet::parse(Cursor::new(&bytes[..7])).unwrap_err();
    assert_eq!(e.offset, 0);
    assert_eq!(e.contexts, vec![Context::ArpPacket]);
    let e = arp::Packet::parse(Cursor::new(&bytes[..27])).unwrap_err();
    assert_eq!(e.kind, ErrorKind::InsufficientData);
    assert_eq!(e.offset, 8);
    assert_eq!(e.contexts, vec![Context::ArpPacket]);
}

#[test]
fn reparsing_consumed_bytes_of_network_packets() {
    let mut v4 = ipv4_with_options_and_icmp();
    v4.extend([7, 7, 7]);
    let (rest, first) = ipv4::Packet::parse(Cursor::new(&v4)).unwrap();
    let (rest2, second) = ipv4::Packet::parse(Cursor::new(&v4[..rest.position()])).unwrap();
    assert_eq!(first, second);
    assert_eq!(rest2.position(), rest.position());
    let v6 = ipv6_bytes();
    let (rest, first) = ipv6::Packet::parse(Cursor::new(&v6)).unwrap();
    let (_, second) = ipv6::Packet::parse(Cursor::new(&v6[..rest.position()])).unwrap();
    assert_eq!(first, second);
    let mut a = arp_bytes();
    a.extend([0, 0]);
    let (rest, first) = arp::Packet::parse(Cursor::new(&a)).unwrap();
    let (_, second) = arp::Packet::parse(Cursor::new(&a[..rest.position()])).unwrap();
    assert_eq!(first, second);
}
