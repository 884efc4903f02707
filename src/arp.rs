use crate::common::{be16, opt_vec_view, result_view, u16_parse};
use crate::error::DecodeError;
use crate::ether_types;
use crate::ethernet::{EthHeader, EthHeaderSpec};
use crate::frame::{frame_of, split_frame};
use crate::vlan::Vlan;
use vstd::prelude::*;
use vstd::slice::slice_subrange;

verus! {

/// The fixed eight bytes that open an ARP message.
#[derive(Clone, Copy, Debug, PartialEq, Eq, Structural)]
pub struct ArpHdr {
    /// Format of hardware address.
    pub ar_hrd: u16,
    /// Format of protocol address.
    pub ar_pro: u16,
    /// Length of hardware address.
    pub ar_hln: u8,
    /// Length of protocol address.
    pub ar_pln: u8,
    /// ARP opcode (command).
    pub ar_op: u16,
}

/// A hardware address and a protocol address, as views into the frame.
#[derive(Debug, PartialEq)]
pub struct ArpInfo<'a> {
    pub ar_ha: &'a [u8],
    pub addr: &'a [u8],
}

/// The sender's and the target's addresses of an ARP message.
#[derive(Debug, PartialEq)]
pub struct ArpBody<'a> {
    pub source: ArpInfo<'a>,
    pub target: ArpInfo<'a>,
}

/// A decoded ARP frame.
#[derive(Debug, PartialEq)]
pub struct ArpPacket<'a> {
    pub eth_header: EthHeader<'a>,
    pub vlans: Option<Vec<Vlan>>,
    pub arp_hdr: ArpHdr,
    pub arp_body: ArpBody<'a>,
}

/// What an [`ArpInfo`] holds, as byte sequences.
#[verifier::ext_equal]
pub struct ArpInfoSpec {
    pub ar_ha: Seq<u8>,
    pub addr: Seq<u8>,
}

/// What an [`ArpBody`] holds, as byte sequences.
#[verifier::ext_equal]
pub struct ArpBodySpec {
    pub source: ArpInfoSpec,
    pub target: ArpInfoSpec,
}

/// What an [`ArpPacket`] holds, as byte sequences and values.
#[verifier::ext_equal]
pub struct ArpPacketSpec {
    pub eth_header: EthHeaderSpec,
    pub vlans: Option<Seq<Vlan>>,
    pub arp_hdr: ArpHdr,
    pub arp_body: ArpBodySpec,
}

impl<'a> View for ArpInfo<'a> {
    type V = ArpInfoSpec;

    open spec fn view(&self) -> ArpInfoSpec {
        ArpInfoSpec { ar_ha: self.ar_ha@, addr: self.addr@ }
    }
}

impl<'a> View for ArpBody<'a> {
    type V = ArpBodySpec;

    open spec fn view(&self) -> ArpBodySpec {
        ArpBodySpec { source: self.source@, target: self.target@ }
    }
}

impl<'a> View for ArpPacket<'a> {
    type V = ArpPacketSpec;

    open spec fn view(&self) -> ArpPacketSpec {
        ArpPacketSpec {
            eth_header: self.eth_header@,
            vlans: opt_vec_view(self.vlans),
            arp_hdr: self.arp_hdr,
            arp_body: self.arp_body@,
        }
    }
}

/// The header that the first eight bytes of `s` encode, big-endian.
pub open spec fn arp_hdr_of(s: Seq<u8>) -> ArpHdr {
    ArpHdr {
        ar_hrd: be16(s[0], s[1]),
        ar_pro: be16(s[2], s[3]),
        ar_hln: s[4],
        ar_pln: s[5],
        ar_op: be16(s[6], s[7]),
    }
}

/// The width of each protocol address in an ARP body: four bytes for the IPv4
/// protocol format, six for any other. Hardware addresses are always six bytes.
///
/// The widths are chosen by the protocol format alone, on purpose: the
/// header's own `ar_hln` and `ar_pln` fields are decoded but do not steer the
/// body. This keeps the decoding of every frame the same as it has been; a
/// body whose declared lengths differ from these widths is read with these
/// widths all the same.
pub open spec fn arp_proto_addr_len(typ: u16) -> int {
    if typ == ether_types::Ipv4 {
        4
    } else {
        6
    }
}

/// The number of bytes an ARP body takes for the protocol format `typ`.
pub open spec fn arp_body_len(typ: u16) -> int {
    12 + 2 * arp_proto_addr_len(typ)
}

/// The body at the start of `s`: sender hardware address, sender protocol
/// address, target hardware address, target protocol address, in that order.
pub open spec fn arp_body_of(typ: u16, s: Seq<u8>) -> ArpBodySpec {
    let p = arp_proto_addr_len(typ);
    ArpBodySpec {
        source: ArpInfoSpec { ar_ha: s.subrange(0, 6), addr: s.subrange(6, 6 + p) },
        target: ArpInfoSpec { ar_ha: s.subrange(6 + p, 12 + p), addr: s.subrange(12 + p, 12 + 2 * p) },
    }
}

/// The header and body of the ARP message that `s` holds; `TooShort` where
/// `s` cannot supply all their bytes.
pub open spec fn arp_payload_of(s: Seq<u8>) -> Result<(ArpHdr, ArpBodySpec), DecodeError> {
    if s.len() < 8 {
        Err(DecodeError::TooShort)
    } else {
        let hdr = arp_hdr_of(s);
        if s.len() < 8 + arp_body_len(hdr.ar_pro) {
            Err(DecodeError::TooShort)
        } else {
            Ok((hdr, arp_body_of(hdr.ar_pro, s.subrange(8, s.len() as int))))
        }
    }
}

/// The ARP packet that a whole frame holds: `NotArp` where the EtherType after
/// its tags is not ARP.
pub open spec fn arp_packet_of(s: Seq<u8>) -> Result<ArpPacketSpec, DecodeError> {
    match frame_of(s) {
        Err(e) => Err(e),
        Ok(f) => if f.ethertype != ether_types::Arp {
            Err(DecodeError::NotArp)
        } else {
            match arp_payload_of(f.payload) {
                Err(e) => Err(e),
                Ok((hdr, body)) => Ok(
                    ArpPacketSpec { eth_header: f.eth, vlans: f.vlans, arp_hdr: hdr, arp_body: body },
                ),
            }
        },
    }
}

/// Decodes the fixed ARP header at the start of `buf`.
pub fn parse_arp_header(buf: &[u8]) -> (r: ArpHdr)
    requires
        buf@.len() >= 8,
    ensures
        r == arp_hdr_of(buf@),
{
    ArpHdr {
        ar_hrd: u16_parse(slice_subrange(buf, 0, 2)),
        ar_pro: u16_parse(slice_subrange(buf, 2, 4)),
        ar_hln: buf[4],
        ar_pln: buf[5],
        ar_op: u16_parse(slice_subrange(buf, 6, 8)),
    }
}

/// Decodes the ARP body at the start of `buf` for the protocol format `typ`.
pub fn parse_arp_body<'a>(typ: u16, buf: &'a [u8]) -> (r: ArpBody<'a>)
    requires
        buf@.len() >= arp_body_len(typ),
    ensures
        r@ == arp_body_of(typ, buf@),
{
    let src_ar_ha = slice_subrange(buf, 0, 6);
    let source_addr = if typ == ether_types::Ipv4 {
        slice_subrange(buf, 6, 10)
    } else {
        slice_subrange(buf, 6, 12)
    };
    let target_ar_ha = if typ == ether_types::Ipv4 {
        slice_subrange(buf, 10, 16)
    } else {
        slice_subrange(buf, 12, 18)
    };
    let target_addr = if typ == ether_types::Ipv4 {
        slice_subrange(buf, 16, 20)
    } else {
        slice_subrange(buf, 18, 24)
    };
    ArpBody {
        source: ArpInfo { ar_ha: src_ar_ha, addr: source_addr },
        target: ArpInfo { ar_ha: target_ar_ha, addr: target_addr },
    }
}

impl<'a> ArpPacket<'a> {
    /// Decodes the ARP message in `payload`, the bytes after the EtherType,
    /// and puts it together with the layers already decoded before it.
    pub fn from_parts(eth_header: EthHeader<'a>, vlans: Option<Vec<Vlan>>, payload: &'a [u8]) -> (r:
        Result<ArpPacket<'a>, DecodeError>)
        ensures
            r is Ok <==> arp_payload_of(payload@) is Ok,
            r matches Ok(p) ==> {
                &&& p.eth_header == eth_header
                &&& p.vlans == vlans
                &&& (p.arp_hdr, p.arp_body@) == arp_payload_of(payload@)->Ok_0
            },
            r matches Err(e) ==> e == arp_payload_of(payload@)->Err_0,
    {
        if payload.len() < 8 {
            return Err(DecodeError::TooShort);
        }
        let arp_hdr = parse_arp_header(payload);
        let body_len: usize = if arp_hdr.ar_pro == ether_types::Ipv4 {
            20
        } else {
            24
        };
        if payload.len() - 8 < body_len {
            return Err(DecodeError::TooShort);
        }
        let arp_body = parse_arp_body(arp_hdr.ar_pro, slice_subrange(payload, 8, payload.len()));
        Ok(ArpPacket { eth_header, vlans, arp_hdr, arp_body })
    }

    /// Decodes a whole frame as an ARP packet.
    pub fn from_frame(buf: &'a [u8]) -> (r: Result<ArpPacket<'a>, DecodeError>)
        ensures
            result_view(r) == arp_packet_of(buf@),
    {
        let (eth_header, vlans, ethertype, payload) = match split_frame(buf) {
            Ok(parts) => parts,
            Err(e) => return Err(e),
        };
        if ethertype.0 != ether_types::Arp {
            return Err(DecodeError::NotArp);
        }
        ArpPacket::from_parts(eth_header, vlans, payload)
    }
}

impl<'a> TryFrom<&'a [u8]> for ArpPacket<'a> {
    type Error = DecodeError;

    fn try_from(buf: &'a [u8]) -> (r: Result<ArpPacket<'a>, DecodeError>)
        ensures
            result_view(r) == arp_packet_of(buf@),
    {
        ArpPacket::from_frame(buf)
    }
}

/// The exact contract of the conversion is the `ensures` of `try_from`.
/// The spec value names a decoded record by its view only: a record holds a
/// vector, and two vectors with the same elements are not known to be equal,
/// so the conversion does not claim to return that one chosen record.
impl<'a> vstd::std_specs::convert::TryFromSpecImpl<&'a [u8]> for ArpPacket<'a> {
    open spec fn obeys_try_from_spec() -> bool {
        false
    }

    open spec fn try_from_spec(buf: &'a [u8]) -> Result<ArpPacket<'a>, DecodeError> {
        match arp_packet_of(buf@) {
            Ok(v) => Ok(choose|x: ArpPacket<'a>| x@ == v),
            Err(e) => Err(e),
        }
    }
}


impl<'a> TryFrom<(EthHeader<'a>, Option<Vec<Vlan>>, &'a [u8])> for ArpPacket<'a> {
    type Error = DecodeError;

    fn try_from(src: (EthHeader<'a>, Option<Vec<Vlan>>, &'a [u8])) -> (r: Result<ArpPacket<'a>, DecodeError>)
        ensures
            r is Ok <==> arp_payload_of(src.2@) is Ok,
            r matches Ok(p) ==> {
                &&& p.eth_header == src.0
                &&& p.vlans == src.1
                &&& (p.arp_hdr, p.arp_body@) == arp_payload_of(src.2@)->Ok_0
            },
            r matches Err(e) ==> e == arp_payload_of(src.2@)->Err_0,
    {
        let (eth_header, vlans, payload) = src;
        let r = ArpPacket::from_parts(eth_header, vlans, payload);
        proof {
            if r is Ok {
                let b = arp_payload_of(payload@)->Ok_0.1;
                let c = choose|c: ArpBody<'a>| c@ == b;
                lemma_arp_body_view_unique(r->Ok_0.arp_body, c);
            }
        }
        r
    }
}

/// The decoded layers are moved into the packet as they are, and the ARP
/// header and body are those that the payload encodes.
impl<'a> vstd::std_specs::convert::TryFromSpecImpl<(EthHeader<'a>, Option<Vec<Vlan>>, &'a [u8])> for ArpPacket<'a> {
    open spec fn obeys_try_from_spec() -> bool {
        true
    }

    open spec fn try_from_spec(src: (EthHeader<'a>, Option<Vec<Vlan>>, &'a [u8])) -> Result<ArpPacket<'a>, DecodeError> {
        match arp_payload_of(src.2@) {
            Err(e) => Err(e),
            Ok((hdr, body)) => Ok(
                ArpPacket {
                    eth_header: src.0,
                    vlans: src.1,
                    arp_hdr: hdr,
                    arp_body: choose|b: ArpBody<'a>| b@ == body,
                },
            ),
        }
    }
}

/// Two ARP bodies with the same view are the same body.
pub proof fn lemma_arp_body_view_unique<'a>(a: ArpBody<'a>, b: ArpBody<'a>)
    requires
        a@ == b@,
    ensures
        a == b,
{
    assert(a.source.ar_ha =~= b.source.ar_ha);
    assert(a.source.addr =~= b.source.addr);
    assert(a.target.ar_ha =~= b.target.ar_ha);
    assert(a.target.addr =~= b.target.addr);
}

} // verus!
