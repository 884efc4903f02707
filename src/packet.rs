use crate::arp::{arp_packet_of, ArpPacket, ArpPacketSpec};
use crate::common::{opt_vec_view, result_view};
use crate::error::DecodeError;
use crate::ether_types;
use crate::ethernet::{EthHeader, EthHeaderSpec};
use crate::ethertype::EtherType;
use crate::frame::{frame_of, split_frame};
use crate::ip::{ipv4_packet_of, IpV4Packet, IpV4PacketSpec};
use crate::vlan::Vlan;
use vstd::prelude::*;

verus! {

/// A decoded frame: ARP, IPv4, or a frame whose EtherType neither decoder takes.
#[derive(Debug, PartialEq)]
pub enum Packet<'a> {
    Arp(ArpPacket<'a>),
    IpV4(IpV4Packet<'a>),
    Unknown { ethernet: EthHeader<'a>, vlans: Option<Vec<Vlan>>, ethertype: EtherType },
}

/// What a [`Packet`] holds.
pub enum PacketSpec {
    Arp(ArpPacketSpec),
    IpV4(IpV4PacketSpec),
    Unknown { ethernet: EthHeaderSpec, vlans: Option<Seq<Vlan>>, ethertype: EtherType },
}

impl<'a> View for Packet<'a> {
    type V = PacketSpec;

    open spec fn view(&self) -> PacketSpec {
        match self {
            Packet::Arp(p) => PacketSpec::Arp(p@),
            Packet::IpV4(p) => PacketSpec::IpV4(p@),
            Packet::Unknown { ethernet, vlans, ethertype } => PacketSpec::Unknown {
                ethernet: ethernet@,
                vlans: opt_vec_view(*vlans),
                ethertype: *ethertype,
            },
        }
    }
}

/// The packet that a frame holds: its EtherType, after any VLAN tags, picks
/// the ARP or the IPv4 decoder, whose errors are the frame's; any other code
/// gives an unknown packet with the layers read so far.
pub open spec fn packet_of(s: Seq<u8>) -> Result<PacketSpec, DecodeError> {
    match frame_of(s) {
        Err(e) => Err(e),
        Ok(f) => if f.ethertype == ether_types::Arp {
            match arp_packet_of(s) {
                Ok(p) => Ok(PacketSpec::Arp(p)),
                Err(e) => Err(e),
            }
        } else if f.ethertype == ether_types::Ipv4 {
            match ipv4_packet_of(s) {
                Ok(p) => Ok(PacketSpec::IpV4(p)),
                Err(e) => Err(e),
            }
        } else {
            Ok(PacketSpec::Unknown { ethernet: f.eth, vlans: f.vlans, ethertype: EtherType(f.ethertype) })
        },
    }
}

/// Decodes a whole Ethernet frame.
pub fn parse_packet<'a>(buf: &'a [u8]) -> (r: Result<Packet<'a>, DecodeError>)
    ensures
        result_view(r) == packet_of(buf@),
{
    let (ethernet, vlans, ethertype, payload) = match split_frame(buf) {
        Ok(parts) => parts,
        Err(e) => return Err(e),
    };
    if ethertype.0 == ether_types::Arp {
        match ArpPacket::from_parts(ethernet, vlans, payload) {
            Ok(p) => Ok(Packet::Arp(p)),
            Err(e) => Err(e),
        }
    } else if ethertype.0 == ether_types::Ipv4 {
        match IpV4Packet::from_parts(ethernet, vlans, payload) {
            Ok(p) => Ok(Packet::IpV4(p)),
            Err(e) => Err(e),
        }
    } else {
        Ok(Packet::Unknown { ethernet, vlans, ethertype })
    }
}

} // verus!
