//! Choosing what to show of a decoded frame.

use crate::arp;
use crate::datalink::Payload;
use crate::frame::Frame;
use crate::icmp;
use crate::ipv4;
use crate::ipv6;
use crate::tcp;
use crate::udp;
use vstd::prelude::*;

verus! {

/// The options of which packets to display.
#[derive(Clone, Debug, PartialEq, Eq)]
pub struct PacketOptions {
    /// The name of the interface to capture on.
    pub interface: String,
    pub udp: bool,
    pub tcp: bool,
    pub icmp: bool,
    pub arp: bool,
    pub ipv4: bool,
    pub ipv6: bool,
}

/// The one kind of packet that is shown, or all of them.
#[derive(Clone, Copy, Debug, PartialEq, Eq, Structural)]
pub enum Filter {
    All,
    IPv4,
    IPv6,
    ARP,
    TCP,
    UDP,
    ICMP,
}

impl PacketOptions {
    /// The filter that the options amount to: the first of IPv4, IPv6, ARP,
    /// TCP, UDP and ICMP that is switched on, and all frames where none is.
    pub open spec fn spec_filter(&self) -> Filter {
        if self.ipv4 {
            Filter::IPv4
        } else if self.ipv6 {
            Filter::IPv6
        } else if self.arp {
            Filter::ARP
        } else if self.tcp {
            Filter::TCP
        } else if self.udp {
            Filter::UDP
        } else if self.icmp {
            Filter::ICMP
        } else {
            Filter::All
        }
    }

    /// The filter that the options amount to.
    pub fn filter(&self) -> (f: Filter)
        ensures
            f == self.spec_filter(),
    {
        if self.ipv4 {
            Filter::IPv4
        } else if self.ipv6 {
            Filter::IPv6
        } else if self.arp {
            Filter::ARP
        } else if self.tcp {
            Filter::TCP
        } else if self.udp {
            Filter::UDP
        } else if self.icmp {
            Filter::ICMP
        } else {
            Filter::All
        }
    }
}

/// The part of a frame that a filter lets through.
#[derive(Clone, Debug, PartialEq, Eq)]
pub enum Shown<'a> {
    /// The frame does not hold what the filter asks for.
    Nothing,
    Frame(&'a Frame),
    IPv4(&'a ipv4::Packet),
    IPv6(&'a ipv6::Packet),
    ARP(&'a arp::Packet),
    TCP(&'a tcp::Segment),
    UDP(&'a udp::Datagram),
    ICMP(&'a icmp::Packet),
}

impl Frame {
    /// The frame's network layer payload, with `Unknown` for a frame that
    /// has none.
    pub open spec fn network(&self) -> Payload {
        match self.carried() {
            Some(payload) => payload,
            None => Payload::Unknown,
        }
    }

    /// The IPv4 packet that the frame carries, if it carries one.
    pub fn ipv4(&self) -> (p: Option<&ipv4::Packet>)
        ensures
            match self.network() {
                Payload::IPv4(packet) => p == Some(&packet),
                _ => p is None,
            },
    {
        match self.payload() {
            Some(Payload::IPv4(packet)) => Some(packet),
            _ => None,
        }
    }

    /// The IPv6 packet that the frame carries, if it carries one.
    pub fn ipv6(&self) -> (p: Option<&ipv6::Packet>)
        ensures
            match self.network() {
                Payload::IPv6(packet) => p == Some(&packet),
                _ => p is None,
            },
    {
        match self.payload() {
            Some(Payload::IPv6(packet)) => Some(packet),
            _ => None,
        }
    }

    /// The ARP packet that the frame carries, if it carries one.
    pub fn arp(&self) -> (p: Option<&arp::Packet>)
        ensures
            match self.network() {
                Payload::ARP(packet) => p == Some(&packet),
                _ => p is None,
            },
    {
        match self.payload() {
            Some(Payload::ARP(packet)) => Some(packet),
            _ => None,
        }
    }

    /// The TCP segment that the frame's IPv4 packet carries, if there is
    /// one.
    pub fn tcp(&self) -> (p: Option<&tcp::Segment>)
        ensures
            match self.network() {
                Payload::IPv4(packet) => match packet.payload {
                    ipv4::Payload::TCP(segment) => p == Some(&segment),
                    _ => p is None,
                },
                _ => p is None,
            },
    {
        match self.ipv4() {
            Some(packet) => match &packet.payload {
                ipv4::Payload::TCP(segment) => Some(segment),
                _ => None,
            },
            None => None,
        }
    }

    /// The UDP datagram that the frame's IPv4 packet carries, if there is
    /// one.
    pub fn udp(&self) -> (p: Option<&udp::Datagram>)
        ensures
            match self.network() {
                Payload::IPv4(packet) => match packet.payload {
                    ipv4::Payload::UDP(datagram) => p == Some(&datagram),
                    _ => p is None,
                },
                _ => p is None,
            },
    {
        match self.ipv4() {
            Some(packet) => match &packet.payload {
                ipv4::Payload::UDP(datagram) => Some(datagram),
                _ => None,
            },
            None => None,
        }
    }

    /// The ICMP message that the frame's IPv4 packet carries, if there is
    /// one.
    pub fn icmp(&self) -> (p: Option<&icmp::Packet>)
        ensures
            match self.network() {
                Payload::IPv4(packet) => match packet.payload {
                    ipv4::Payload::ICMP(message) => p == Some(&message),
                    _ => p is None,
                },
                _ => p is None,
            },
    {
        match self.ipv4() {
            Some(packet) => match &packet.payload {
                ipv4::Payload::ICMP(message) => Some(message),
                _ => None,
            },
            None => None,
        }
    }
}

/// What `filter` lets through of `frame`: the whole frame for `All`, and for
/// every other filter the packet of that kind that the frame carries, or
/// nothing where it carries none.
pub open spec fn spec_select<'a>(filter: Filter, frame: &'a Frame) -> Shown<'a> {
    match filter {
        Filter::All => Shown::Frame(frame),
        Filter::IPv4 => match frame.network() {
            Payload::IPv4(packet) => Shown::IPv4(&packet),
            _ => Shown::Nothing,
        },
        Filter::IPv6 => match frame.network() {
            Payload::IPv6(packet) => Shown::IPv6(&packet),
            _ => Shown::Nothing,
        },
        Filter::ARP => match frame.network() {
            Payload::ARP(packet) => Shown::ARP(&packet),
            _ => Shown::Nothing,
        },
        Filter::TCP => match frame.network() {
            Payload::IPv4(packet) => match packet.payload {
                ipv4::Payload::TCP(segment) => Shown::TCP(&segment),
                _ => Shown::Nothing,
            },
            _ => Shown::Nothing,
        },
        Filter::UDP => match frame.network() {
            Payload::IPv4(packet) => match packet.payload {
                ipv4::Payload::UDP(datagram) => Shown::UDP(&datagram),
                _ => Shown::Nothing,
            },
            _ => Shown::Nothing,
        },
        Filter::ICMP => match frame.network() {
            Payload::IPv4(packet) => match packet.payload {
                ipv4::Payload::ICMP(message) => Shown::ICMP(&message),
                _ => Shown::Nothing,
            },
            _ => Shown::Nothing,
        },
    }
}

/// Chooses what `filter` lets through of `frame`.
pub fn select<'a>(filter: Filter, frame: &'a Frame) -> (shown: Shown<'a>)
    ensures
        shown == spec_select(filter, frame),
{
    match filter {
        Filter::All => Shown::Frame(frame),
        Filter::IPv4 => match frame.ipv4() {
            Some(packet) => Shown::IPv4(packet),
            None => Shown::Nothing,
        },
        Filter::IPv6 => match frame.ipv6() {
            Some(packet) => Shown::IPv6(packet),
            None => Shown::Nothing,
        },
        Filter::ARP => match frame.arp() {
            Some(packet) => Shown::ARP(packet),
            None => Shown::Nothing,
        },
        Filter::TCP => match frame.tcp() {
            Some(segment) => Shown::TCP(segment),
            None => Shown::Nothing,
        },
        Filter::UDP => match frame.udp() {
            Some(datagram) => Shown::UDP(datagram),
            None => Shown::Nothing,
        },
        Filter::ICMP => match frame.icmp() {
            Some(message) => Shown::ICMP(message),
            None => Shown::Nothing,
        },
    }
}

} // verus!
