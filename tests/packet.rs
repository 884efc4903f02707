use packet_decode::arp::{ArpBody, ArpHdr, ArpInfo, ArpPacket};
use packet_decode::classes_of_service;
use packet_decode::ethernet::EthHeader;
use packet_decode::ethertype::EtherType;
use packet_decode::ip::{IpNextHeaderProtocol, IpV4Header, IpV4Packet};
use packet_decode::ip_next_header_protocols;
use packet_decode::vlan::{ClassOfService, Vlan};
use packet_decode::{parse_packet, DecodeError, Packet};

#[test]
fn check_arp() {
    let test_buf = [0x11 as u8, 0x12, 0x13, 0x14, 0x15, 0x16, 0x01, 0x02, 0x03, 0x04, 0x05, 0x06, 0x81, 0x00, 0x00, 0x01, 0x08, 0x06, 0x0, 0x1, 0x08, 0, 6, 4, 0, 1, 0x01, 0x02, 0x03, 0x04, 0x05, 0x06, 0x1, 0x1, 0x1, 0x1, 0, 0, 0, 0, 0, 0, 0x2, 0x2, 0x2, 0x2];
    let res = parse_packet(&test_buf).unwrap();
    assert_eq!(
        res,
        Packet::Arp(ArpPacket {
            eth_header: EthHeader { dst_mac: &[17, 18, 19, 20, 21, 22], src_mac: &[1, 2, 3, 4, 5, 6] },
            vlans: Some(vec!(Vlan { drop_eligible_indicator: false, priority_code_point: ClassOfService(classes_of_service::BE), vid: 1 })),
            arp_hdr: ArpHdr { ar_hrd: 1, ar_pro: 2048, ar_hln: 6, ar_pln: 4, ar_op: 1 },
            arp_body: ArpBody {
                source: ArpInfo { ar_ha: &[1, 2, 3, 4, 5, 6], addr: &[1, 1, 1, 1] },
                target: ArpInfo { ar_ha: &[0, 0, 0, 0, 0, 0], addr: &[2, 2, 2, 2] },
            },
        })
    );
}

#[test]
fn check_not_arp() {
    let test_buf = [0x11 as u8, 0x12, 0x13, 0x14, 0x15, 0x16, 0x01, 0x02, 0x03, 0x04, 0x05, 0x06, 0x81, 0x00, 0x00, 0x01, 0x08, 0x08, 0x0, 0x1, 0x08, 0, 6, 4, 0, 1, 0x01, 0x02, 0x03, 0x04, 0x05, 0x06, 0x1, 0x1, 0x1, 0x1, 0, 0, 0, 0, 0, 0, 0x2, 0x2, 0x2, 0x2];
    let res = parse_packet(&test_buf).unwrap();
    assert_eq!(
        res,
        Packet::Unknown {
            ethernet: EthHeader { dst_mac: &[17, 18, 19, 20, 21, 22], src_mac: &[1, 2, 3, 4, 5, 6] },
            vlans: Some(vec!(Vlan { drop_eligible_indicator: false, priority_code_point: ClassOfService(classes_of_service::BE), vid: 1 })),
            ethertype: EtherType(0x0808),
        }
    );
}

#[test]
fn check_ip() {
    let test_buf = [0xd0u8, 0x17, 0xc2, 0x97, 0x48, 0xb2, 0xa8, 0xf9, 0x4b, 0x80, 0xe7, 0x00, 0x08, 0x00, 0x45, 0x00,
        0x05, 0xbf, 0xe5, 0x46, 0x40, 0x00, 0x3e, 0x06, 0xce, 0x9f, 0xac, 0x10, 0x00, 0x53, 0xc0, 0xa8,
        0x16, 0x47, 0x1f, 0x90, 0xaa, 0x5c, 0xa2, 0x1f, 0x25, 0xd1, 0xf5, 0x43, 0x81, 0x57, 0x80, 0x18,
        0x00, 0xf9, 0x70, 0x6d, 0x00, 0x00, 0x01, 0x01, 0x08, 0x0a, 0x32, 0x87, 0xea, 0x70, 0x62, 0x2f,
        0x45, 0x0d, 0x73, 0x74, 0x61, 0x72, 0x74, 0x54, 0x69, 0x6d, 0x65, 0x4d, 0x69, 0x6c, 0x6c, 0x69,
        0x73, 0x22, 0x3a, 0x31, 0x35, 0x32, 0x36, 0x36, 0x33, 0x31, 0x37, 0x34, 0x36, 0x33, 0x38, 0x38,
        0x2c, 0x22, 0x64, 0x75, 0x72, 0x61, 0x74, 0x69, 0x6f, 0x6e, 0x4d, 0x69, 0x6c, 0x6c, 0x69, 0x73,
        0x22, 0x3a, 0x37, 0x36, 0x35, 0x37, 0x2c, 0x22, 0x70, 0x61, 0x75, 0x73, 0x65, 0x44, 0x75, 0x72,
        0x61, 0x74, 0x69, 0x6f, 0x6e, 0x4d, 0x69, 0x6c, 0x6c, 0x69, 0x73, 0x22, 0x3a, 0x30, 0x2c, 0x22,
        0x70, 0x61, 0x72, 0x65, 0x6e, 0x74, 0x4e, 0x6f, 0x64, 0x65, 0x73, 0x22, 0x3a, 0x5b, 0x22, 0x33,
        0x35, 0x22, 0x5d, 0x7d, 0x5d, 0x7d, 0x2c, 0x7b, 0x22, 0x5f, 0x6c, 0x69, 0x6e, 0x6b, 0x73, 0x22,
        0x3a, 0x7b, 0x22, 0x73, 0x65, 0x6c, 0x66, 0x22, 0x3a, 0x7b, 0x22, 0x68, 0x72, 0x65, 0x66, 0x22,
        0x3a, 0x22, 0x2f, 0x6a, 0x6f, 0x62, 0x2f, 0x47, 0x50, 0x4f, 0x4e, 0x2f, 0x6a, 0x6f, 0x62, 0x2f,
        0x4c, 0x54, 0x50, 0x2d, 0x58, 0x2d, 0x67, 0x69, 0x74, 0x2f, 0x6a, 0x6f, 0x62, 0x2f, 0x4c, 0x54,
        0x50, 0x2d, 0x38, 0x58, 0x2d, 0x52, 0x45, 0x56, 0x43, 0x2f, 0x6a, 0x6f, 0x62, 0x2f, 0x6d, 0x61,
        0x73, 0x74, 0x65, 0x72, 0x2f, 0x32, 0x36, 0x36, 0x2f, 0x65, 0x78, 0x65, 0x63, 0x75, 0x74, 0x69,
        0x6f, 0x6e, 0x2f, 0x6e, 0x6f, 0x64, 0x65, 0x2f, 0x34, 0x32, 0x2f, 0x77, 0x66, 0x61, 0x70, 0x69,
        0x2f, 0x64, 0x65, 0x73, 0x63, 0x72, 0x69, 0x62, 0x65, 0x22, 0x7d, 0x7d, 0x2c, 0x22, 0x69, 0x64,
        0x22, 0x3a, 0x22, 0x34, 0x32, 0x22, 0x2c, 0x22, 0x6e, 0x61, 0x6d, 0x65, 0x22, 0x3a, 0x22, 0x50,
        0x75, 0x62, 0x6c, 0x69, 0x73, 0x68, 0x22, 0x2c, 0x22, 0x65, 0x78, 0x65, 0x63, 0x4e, 0x6f, 0x64,
        0x65, 0x22, 0x3a, 0x22, 0x22, 0x2c, 0x22, 0x73, 0x74, 0x61, 0x74, 0x75, 0x73, 0x22, 0x3a, 0x22,
        0x53, 0x55, 0x43, 0x43, 0x45, 0x53, 0x53, 0x22, 0x2c, 0x22, 0x73, 0x74, 0x61, 0x72, 0x74, 0x54,
        0x69, 0x6d, 0x65, 0x4d, 0x69, 0x6c, 0x6c, 0x69, 0x73, 0x22, 0x3a, 0x31, 0x35, 0x32, 0x36, 0x36,
        0x33, 0x31, 0x37, 0x35, 0x34, 0x30, 0x36, 0x34, 0x2c, 0x22, 0x64, 0x75, 0x72, 0x61, 0x74, 0x69,
        0x6f, 0x6e, 0x4d, 0x69, 0x6c, 0x6c, 0x69, 0x73, 0x22, 0x3a, 0x33, 0x34, 0x39, 0x30, 0x2c, 0x22,
        0x70, 0x61, 0x75, 0x73, 0x65, 0x44, 0x75, 0x72, 0x61, 0x74, 0x69, 0x6f, 0x6e, 0x4d, 0x69, 0x6c,
        0x6c, 0x69, 0x73, 0x22, 0x3a, 0x30, 0x2c, 0x22, 0x73, 0x74, 0x61, 0x67, 0x65, 0x46, 0x6c, 0x6f,
        0x77, 0x4e, 0x6f, 0x64, 0x65, 0x73, 0x22, 0x3a, 0x5b, 0x7b, 0x22, 0x5f, 0x6c, 0x69, 0x6e, 0x6b,
        0x73, 0x22, 0x3a, 0x7b, 0x22, 0x73, 0x65, 0x6c, 0x66, 0x22, 0x3a, 0x7b, 0x22, 0x68, 0x72, 0x65,
        0x66, 0x22, 0x3a, 0x22, 0x2f, 0x6a, 0x6f, 0x62, 0x2f, 0x47, 0x50, 0x4f, 0x4e, 0x2f, 0x6a, 0x6f,
        0x62, 0x2f, 0x4c, 0x54, 0x50, 0x2d, 0x58, 0x2d, 0x67, 0x69, 0x74, 0x2f, 0x6a, 0x6f, 0x62, 0x2f,
        0x4c, 0x54, 0x50, 0x2d, 0x38, 0x58, 0x2d, 0x52, 0x45, 0x56, 0x43, 0x2f, 0x6a, 0x6f, 0x62, 0x2f,
        0x6d, 0x61, 0x73, 0x74, 0x65, 0x72, 0x2f, 0x32, 0x36, 0x36, 0x2f, 0x65, 0x78, 0x65, 0x63, 0x75,
        0x74, 0x69, 0x6f, 0x6e, 0x2f, 0x6e, 0x6f, 0x64, 0x65, 0x2f, 0x34, 0x33, 0x2f, 0x77, 0x66, 0x61,
        0x70, 0x69, 0x2f, 0x64, 0x65, 0x73, 0x63, 0x72, 0x69, 0x62, 0x65, 0x22, 0x7d, 0x2c, 0x22, 0x6c,
        0x6f, 0x67, 0x22, 0x3a, 0x7b, 0x22, 0x68, 0x72, 0x65, 0x66, 0x22, 0x3a, 0x22, 0x2f, 0x6a, 0x6f,
        0x62, 0x2f, 0x47, 0x50, 0x4f, 0x4e, 0x2f, 0x6a, 0x6f, 0x62, 0x2f, 0x4c, 0x54, 0x50, 0x2d, 0x58,
        0x2d, 0x67, 0x69, 0x74, 0x2f, 0x6a, 0x6f, 0x62, 0x2f, 0x4c, 0x54, 0x50, 0x2d, 0x38, 0x58, 0x2d,
        0x52, 0x45, 0x56, 0x43, 0x2f, 0x6a, 0x6f, 0x62, 0x2f, 0x6d, 0x61, 0x73, 0x74, 0x65, 0x72, 0x2f,
        0x32, 0x36, 0x36, 0x2f, 0x65, 0x78, 0x65, 0x63, 0x75, 0x74, 0x69, 0x6f, 0x6e, 0x2f, 0x6e, 0x6f,
        0x64, 0x65, 0x2f, 0x34, 0x33, 0x2f, 0x77, 0x66, 0x61, 0x70, 0x69, 0x2f, 0x6c, 0x6f, 0x67, 0x22,
        0x7d, 0x7d, 0x2c, 0x22, 0x69, 0x64, 0x22, 0x3a, 0x22, 0x34, 0x33, 0x22, 0x2c, 0x22, 0x6e, 0x61,
        0x6d, 0x65, 0x22, 0x3a, 0x22, 0x53, 0x68, 0x65, 0x6c, 0x6c, 0x20, 0x53, 0x63, 0x72, 0x69, 0x70,
        0x74, 0x22, 0x2c, 0x22, 0x65, 0x78, 0x65, 0x63, 0x4e, 0x6f, 0x64, 0x65, 0x22, 0x3a, 0x22, 0x22,
        0x2c, 0x22, 0x73, 0x74, 0x61, 0x74, 0x75, 0x73, 0x22, 0x3a, 0x22, 0x53, 0x55, 0x43, 0x43, 0x45,
        0x53, 0x53, 0x22, 0x2c, 0x22, 0x73, 0x74, 0x61, 0x72, 0x74, 0x54, 0x69, 0x6d, 0x65, 0x4d, 0x69,
        0x6c, 0x6c, 0x69, 0x73, 0x22, 0x3a, 0x31, 0x35, 0x32, 0x36, 0x36, 0x33, 0x31, 0x37, 0x35, 0x34,
        0x30, 0x37, 0x32, 0x2c, 0x22, 0x64, 0x75, 0x72, 0x61, 0x74, 0x69, 0x6f, 0x6e, 0x4d, 0x69, 0x6c,
        0x6c, 0x69, 0x73, 0x22, 0x3a, 0x33, 0x34, 0x37, 0x39, 0x2c, 0x22, 0x70, 0x61, 0x75, 0x73, 0x65,
        0x44, 0x75, 0x72, 0x61, 0x74, 0x69, 0x6f, 0x6e, 0x4d, 0x69, 0x6c, 0x6c, 0x69, 0x73, 0x22, 0x3a,
        0x30, 0x2c, 0x22, 0x70, 0x61, 0x72, 0x65, 0x6e, 0x74, 0x4e, 0x6f, 0x64, 0x65, 0x73, 0x22, 0x3a,
        0x5b, 0x22, 0x34, 0x32, 0x22, 0x5d, 0x7d, 0x5d, 0x7d, 0x2c, 0x7b, 0x22, 0x5f, 0x6c, 0x69, 0x6e,
        0x6b, 0x73, 0x22, 0x3a, 0x7b, 0x22, 0x73, 0x65, 0x6c, 0x66, 0x22, 0x3a, 0x7b, 0x22, 0x68, 0x72,
        0x65, 0x66, 0x22, 0x3a, 0x22, 0x2f, 0x6a, 0x6f, 0x62, 0x2f, 0x47, 0x50, 0x4f, 0x4e, 0x2f, 0x6a,
        0x6f, 0x62, 0x2f, 0x4c, 0x54, 0x50, 0x2d, 0x58, 0x2d, 0x67, 0x69, 0x74, 0x2f, 0x6a, 0x6f, 0x62,
        0x2f, 0x4c, 0x54, 0x50, 0x2d, 0x38, 0x58, 0x2d, 0x52, 0x45, 0x56, 0x43, 0x2f, 0x6a, 0x6f, 0x62,
        0x2f, 0x6d, 0x61, 0x73, 0x74, 0x65, 0x72, 0x2f, 0x32, 0x36, 0x36, 0x2f, 0x65, 0x78, 0x65, 0x63,
        0x75, 0x74, 0x69, 0x6f, 0x6e, 0x2f, 0x6e, 0x6f, 0x64, 0x65, 0x2f, 0x34, 0x37, 0x2f, 0x77, 0x66,
        0x61, 0x70, 0x69, 0x2f, 0x64, 0x65, 0x73, 0x63, 0x72, 0x69, 0x62, 0x65, 0x22, 0x7d, 0x7d, 0x2c,
        0x22, 0x69, 0x64, 0x22, 0x3a, 0x22, 0x34, 0x37, 0x22, 0x2c, 0x22, 0x6e, 0x61, 0x6d, 0x65, 0x22,
        0x3a, 0x22, 0x43, 0x6f, 0x64, 0x65, 0x20, 0x63, 0x68, 0x65, 0x63, 0x6b, 0x22, 0x2c, 0x22, 0x65,
        0x78, 0x65, 0x63, 0x4e, 0x6f, 0x64, 0x65, 0x22, 0x3a, 0x22, 0x22, 0x2c, 0x22, 0x73, 0x74, 0x61,
        0x74, 0x75, 0x73, 0x22, 0x3a, 0x22, 0x53, 0x55, 0x43, 0x43, 0x45, 0x53, 0x53, 0x22, 0x2c, 0x22,
        0x73, 0x74, 0x61, 0x72, 0x74, 0x54, 0x69, 0x6d, 0x65, 0x4d, 0x69, 0x6c, 0x6c, 0x69, 0x73, 0x22,
        0x3a, 0x31, 0x35, 0x32, 0x36, 0x36, 0x33, 0x31, 0x37, 0x35, 0x37, 0x35, 0x36, 0x31, 0x2c, 0x22,
        0x64, 0x75, 0x72, 0x61, 0x74, 0x69, 0x6f, 0x6e, 0x4d, 0x69, 0x6c, 0x6c, 0x69, 0x73, 0x22, 0x3a,
        0x39, 0x2c, 0x22, 0x70, 0x61, 0x75, 0x73, 0x65, 0x44, 0x75, 0x72, 0x61, 0x74, 0x69, 0x6f, 0x6e,
        0x4d, 0x69, 0x6c, 0x6c, 0x69, 0x73, 0x22, 0x3a, 0x30, 0x2c, 0x22, 0x73, 0x74, 0x61, 0x67, 0x65,
        0x46, 0x6c, 0x6f, 0x77, 0x4e, 0x6f, 0x64, 0x65, 0x73, 0x22, 0x3a, 0x5b, 0x7b, 0x22, 0x5f, 0x6c,
        0x69, 0x6e, 0x6b, 0x73, 0x22, 0x3a, 0x7b, 0x22, 0x73, 0x65, 0x6c, 0x66, 0x22, 0x3a, 0x7b, 0x22,
        0x68, 0x72, 0x65, 0x66, 0x22, 0x3a, 0x22, 0x2f, 0x6a, 0x6f, 0x62, 0x2f, 0x47, 0x50, 0x4f, 0x4e,
        0x2f, 0x6a, 0x6f, 0x62, 0x2f, 0x4c, 0x54, 0x50, 0x2d, 0x58, 0x2d, 0x67, 0x69, 0x74, 0x2f, 0x6a,
        0x6f, 0x62, 0x2f, 0x4c, 0x54, 0x50, 0x2d, 0x38, 0x58, 0x2d, 0x52, 0x45, 0x56, 0x43, 0x2f, 0x6a,
        0x6f, 0x62, 0x2f, 0x6d, 0x61, 0x73, 0x74, 0x65, 0x72, 0x2f, 0x32, 0x36, 0x36, 0x2f, 0x65, 0x78,
        0x65, 0x63, 0x75, 0x74, 0x69, 0x6f, 0x6e, 0x2f, 0x6e, 0x6f, 0x64, 0x65, 0x2f, 0x34, 0x38, 0x2f,
        0x77, 0x66, 0x61, 0x70, 0x69, 0x2f, 0x64, 0x65, 0x73, 0x63, 0x72, 0x69, 0x62, 0x65, 0x22, 0x7d,
        0x2c, 0x22, 0x6c, 0x6f, 0x67, 0x22, 0x3a, 0x7b, 0x22, 0x68, 0x72, 0x65, 0x66, 0x22, 0x3a, 0x22,
        0x2f, 0x6a, 0x6f, 0x62, 0x2f, 0x47, 0x50, 0x4f, 0x4e, 0x2f, 0x6a, 0x6f, 0x62, 0x2f, 0x4c, 0x54,
        0x50, 0x2d, 0x58, 0x2d, 0x67, 0x69, 0x74, 0x2f, 0x6a, 0x6f, 0x62, 0x2f, 0x4c, 0x54, 0x50, 0x2d,
        0x38, 0x58, 0x2d, 0x52, 0x45, 0x56, 0x43, 0x2f, 0x6a, 0x6f, 0x62, 0x2f, 0x6d, 0x61, 0x73, 0x74,
        0x65, 0x72, 0x2f, 0x32, 0x36, 0x36, 0x2f, 0x65, 0x78, 0x65, 0x63, 0x75, 0x74, 0x69, 0x6f, 0x6e,
        0x2f, 0x6e, 0x6f, 0x64, 0x65, 0x2f, 0x34, 0x38, 0x2f, 0x77, 0x66, 0x61, 0x70, 0x69, 0x2f, 0x6c,
        0x6f, 0x67, 0x22, 0x7d, 0x7d, 0x2c, 0x22, 0x69, 0x64, 0x22, 0x3a, 0x22, 0x34, 0x38, 0x22, 0x2c,
        0x22, 0x6e, 0x61, 0x6d, 0x65, 0x22, 0x3a, 0x22, 0x50, 0x72, 0x69, 0x6e, 0x74, 0x20, 0x4d, 0x65,
        0x73, 0x73, 0x61, 0x67, 0x65, 0x22, 0x2c, 0x22, 0x65, 0x78, 0x65, 0x63, 0x4e, 0x6f, 0x64, 0x65,
        0x22, 0x3a, 0x22, 0x22, 0x2c, 0x22, 0x73, 0x74, 0x61, 0x74, 0x75, 0x73, 0x22, 0x3a, 0x22, 0x53,
        0x55, 0x43, 0x43, 0x45, 0x53, 0x53, 0x22, 0x2c, 0x22, 0x73, 0x74, 0x61, 0x72, 0x74, 0x54, 0x69,
        0x6d, 0x65, 0x4d, 0x69, 0x6c, 0x6c, 0x69, 0x73, 0x22, 0x3a, 0x31, 0x35, 0x32, 0x36, 0x36, 0x33,
        0x31, 0x37, 0x35, 0x37, 0x35, 0x36, 0x36, 0x2c, 0x22, 0x64, 0x75, 0x72, 0x61, 0x74, 0x69, 0x6f,
        0x6e, 0x4d, 0x69, 0x6c, 0x6c, 0x69, 0x73, 0x22, 0x3a, 0x31, 0x2c, 0x22, 0x70, 0x61, 0x75, 0x73,
        0x65, 0x44, 0x75, 0x72, 0x61, 0x74, 0x69, 0x6f, 0x6e, 0x4d, 0x69, 0x6c, 0x6c, 0x69, 0x73, 0x22,
        0x3a, 0x30, 0x2c, 0x22, 0x70, 0x61, 0x72, 0x65, 0x6e, 0x74, 0x4e, 0x6f, 0x64, 0x65, 0x73, 0x22,
        0x3a, 0x5b, 0x22, 0x34, 0x37, 0x22, 0x5d, 0x7d, 0x5d, 0x7d, 0x5d, 0x7d, 0x5d];
    let res = parse_packet(&test_buf).unwrap();
    assert_eq!(
        res,
        Packet::IpV4(IpV4Packet {
            eth_header: EthHeader { dst_mac: &[0xd0, 0x17, 0xc2, 0x97, 0x48, 0xb2], src_mac: &[0xa8, 0xf9, 0x4b, 0x80, 0xe7, 0x00] },
            vlans: None,
            ip_hdr: IpV4Header {
                version: 4,
                hdr_length: 5,
                dscp: 0,
                ecn: 0,
                packet_length: 1471,
                id: 0xe546,
                flags: 0x2,
                offset: 0,
                ttl: 62,
                protocol: IpNextHeaderProtocol(ip_next_header_protocols::Tcp),
                crc: 0xce9f,
                src_ip: &[0xac as u8, 0x10, 0x00, 0x53],
                dst_ip: &[0xc0 as u8, 0xa8, 0x16, 0x47],
                options: None,
            },
        })
    );
}

#[test]
fn packet_too_short_frames() {
    assert_eq!(parse_packet(&[1, 2, 3, 4, 5, 6, 7, 8, 9, 10, 11]), Err(DecodeError::TooShort));
    assert_eq!(parse_packet(&[1, 2, 3, 4, 5, 6, 7, 8, 9, 10, 11, 12, 0x08]), Err(DecodeError::TooShort));
    assert_eq!(parse_packet(&[1, 2, 3, 4, 5, 6, 7, 8, 9, 10, 11, 12, 0x81, 0x00, 0x00, 0x05]), Err(DecodeError::TooShort));
    // ARP EtherType with a header cut short
    assert_eq!(parse_packet(&[1, 2, 3, 4, 5, 6, 7, 8, 9, 10, 11, 12, 0x08, 0x06, 0x00, 0x01]), Err(DecodeError::TooShort));
}

#[test]
fn packet_unknown_without_tags() {
    let frame = [1u8, 2, 3, 4, 5, 6, 7, 8, 9, 10, 11, 12, 0x86, 0xDD];
    match parse_packet(&frame).unwrap() {
        Packet::Unknown { ethernet, vlans, ethertype } => {
            assert_eq!(ethernet.dst_mac, &[1, 2, 3, 4, 5, 6]);
            assert_eq!(ethernet.src_mac, &[7, 8, 9, 10, 11, 12]);
            assert_eq!(vlans, None);
            assert_eq!(ethertype, EtherType(0x86DD));
        }
        other => panic!("unexpected {:?}", other),
    }
}

#[test]
fn packet_ipv4_error_propagates() {
    // IPv4 EtherType, header length field 4
    let mut frame = vec![1u8, 2, 3, 4, 5, 6, 7, 8, 9, 10, 11, 12, 0x08, 0x00, 0x44];
    frame.extend_from_slice(&[0u8; 19]);
    assert_eq!(parse_packet(&frame), Err(DecodeError::InvalidHeaderLength));
    assert_eq!(IpV4Packet::from_frame(&frame), Err(DecodeError::InvalidHeaderLength));
}

#[test]
fn packet_ipv4_behind_two_tags() {
    let mut frame = vec![1u8, 2, 3, 4, 5, 6, 7, 8, 9, 10, 11, 12, 0x81, 0x00, 0xE0, 0x64, 0x81, 0x00, 0x00, 0xC8, 0x08, 0x00];
    frame.extend_from_slice(&[0x45, 0x00, 0x05, 0xbf, 0xe5, 0x46, 0x40, 0x00, 0x3e, 0x11, 0xce, 0x9f, 0xac, 0x10, 0x00, 0x53, 0xc0, 0xa8, 0x16, 0x47]);
    match parse_packet(&frame).unwrap() {
        Packet::IpV4(p) => {
            assert_eq!(
                p.vlans,
                Some(vec![
                    Vlan { priority_code_point: ClassOfService(7), drop_eligible_indicator: false, vid: 100 },
                    Vlan { priority_code_point: ClassOfService(0), drop_eligible_indicator: false, vid: 200 },
                ])
            );
            assert_eq!(p.ip_hdr.protocol, IpNextHeaderProtocol(ip_next_header_protocols::Udp));
            assert_eq!(p.ip_hdr.src_ip, &[0xac, 0x10, 0x00, 0x53]);
        }
        other => panic!("unexpected {:?}", other),
    }
}

#[test]
fn packet_not_ipv4_error_kind() {
    let frame = [1u8, 2, 3, 4, 5, 6, 7, 8, 9, 10, 11, 12, 0x08, 0x06, 0x00];
    assert_eq!(IpV4Packet::from_frame(&frame), Err(DecodeError::NotIpv4));
}
