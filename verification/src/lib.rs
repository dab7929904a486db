//! A passive decoder for captured network frames.
//!
//! Raw bytes are decoded layer by layer: link layer framing (Ethernet II and
//! 802.11 data frames with LLC/SNAP encapsulation), network layer packets
//! (IPv4, IPv6, ARP) and the transport payloads carried by IPv4 (TCP, UDP,
//! ICMP). Every decoder is a function from a cursor over the input to a typed
//! value and the cursor behind it, and each one is specified by a function on
//! byte sequences.

pub mod arp;
pub mod blob;
pub mod datalink;
pub mod frame;
pub mod ipv4;
pub mod ipv6;
pub mod parse;
pub mod select;
pub mod icmp;
pub mod tcp;
pub mod udp;
pub mod wifi;

pub use crate::select::PacketOptions;
