//! IPv4 next-level protocol numbers, as registered by IANA.
#![allow(non_upper_case_globals)]

use vstd::prelude::*;

verus! {

/// IPv6 Hop-by-Hop Option [RFC2460]
pub const Hopopt: u8 = 0;

/// Internet Control Message [RFC792]
pub const Icmp: u8 = 1;

/// Internet Group Management [RFC1112]
pub const Igmp: u8 = 2;

/// Gateway-to-Gateway [RFC823]
pub const Ggp: u8 = 3;

/// IPv4 encapsulation [RFC2003]
pub const Ipv4: u8 = 4;

/// Stream [RFC1190][RFC1819]
pub const St: u8 = 5;

/// Transmission Control [RFC793]
pub const Tcp: u8 = 6;

/// CBT
pub const Cbt: u8 = 7;

/// Exterior Gateway Protocol [RFC888]
pub const Egp: u8 = 8;

/// any private interior gateway (used by Cisco for their IGRP)
pub const Igp: u8 = 9;

/// BBN RCC Monitoring
pub const BbnRccMon: u8 = 10;

/// Network Voice Protocol [RFC741]
pub const NvpII: u8 = 11;

/// PUP
pub const Pup: u8 = 12;

/// ARGUS
pub const Argus: u8 = 13;

/// EMCON
pub const Emcon: u8 = 14;

/// Cross Net Debugger
pub const Xnet: u8 = 15;

/// Chaos
pub const Chaos: u8 = 16;

/// User Datagram [RFC768]
pub const Udp: u8 = 17;

/// Multiplexing
pub const Mux: u8 = 18;

/// DCN Measurement Subsystems
pub const DcnMeas: u8 = 19;

/// Host Monitoring [RFC869]
pub const Hmp: u8 = 20;

/// Packet Radio Measurement
pub const Prm: u8 = 21;

/// XEROX NS IDP
pub const XnsIdp: u8 = 22;

/// Trunk-1
pub const Trunk1: u8 = 23;

/// Trunk-2
pub const Trunk2: u8 = 24;

/// Leaf-1
pub const Leaf1: u8 = 25;

/// Leaf-2
pub const Leaf2: u8 = 26;

/// Reliable Data Protocol [RFC908]
pub const Rdp: u8 = 27;

/// Internet Reliable Transaction [RFC938]
pub const Irtp: u8 = 28;

/// ISO Transport Protocol Class 4 [RFC905]
pub const IsoTp4: u8 = 29;

/// Bulk Data Transfer Protocol [RFC969]
pub const Netblt: u8 = 30;

/// MFE Network Services Protocol
pub const MfeNsp: u8 = 31;

/// MERIT Internodal Protocol
pub const MeritInp: u8 = 32;

/// Datagram Congestion Control Protocol [RFC4340]
pub const Dccp: u8 = 33;

/// Third Party Connect Protocol
pub const ThreePc: u8 = 34;

/// Inter-Domain Policy Routing Protocol
pub const Idpr: u8 = 35;

/// XTP
pub const Xtp: u8 = 36;

/// Datagram Delivery Protocol
pub const Ddp: u8 = 37;

/// IDPR Control Message Transport Proto
pub const IdprCmtp: u8 = 38;

/// TP++ Transport Protocol
pub const TpPlusPlus: u8 = 39;

/// IL Transport Protocol
pub const Il: u8 = 40;

/// IPv6 encapsulation [RFC2473]
pub const Ipv6: u8 = 41;

/// Source Demand Routing Protocol
pub const Sdrp: u8 = 42;

/// Routing Header for IPv6
pub const Ipv6Route: u8 = 43;

/// Fragment Header for IPv6
pub const Ipv6Frag: u8 = 44;

/// Inter-Domain Routing Protocol
pub const Idrp: u8 = 45;

/// Reservation Protocol [RFC2205][RFC3209]
pub const Rsvp: u8 = 46;

/// Generic Routing Encapsulation [RFC1701]
pub const Gre: u8 = 47;

/// Dynamic Source Routing Protocol [RFC4728]
pub const Dsr: u8 = 48;

/// BNA
pub const Bna: u8 = 49;

/// Encap Security Payload [RFC4303]
pub const Esp: u8 = 50;

/// Authentication Header [RFC4302]
pub const Ah: u8 = 51;

/// Integrated Net Layer Security TUBA
pub const INlsp: u8 = 52;

/// IP with Encryption
pub const Swipe: u8 = 53;

/// NBMA Address Resolution Protocol [RFC1735]
pub const Narp: u8 = 54;

/// IP Mobility
pub const Mobile: u8 = 55;

/// Transport Layer Security Protocol using Kryptonet key management
pub const Tlsp: u8 = 56;

/// SKIP
pub const Skip: u8 = 57;

pub const Ipv6Icmp: u8 = 58;

/// ICMPv6 [RFC4443]
pub const Icmpv6: u8 = 58;

/// No Next Header for IPv6 [RFC2460]
pub const Ipv6NoNxt: u8 = 59;

/// Destination Options for IPv6 [RFC2460]
pub const Ipv6Opts: u8 = 60;

/// any host internal protocol
pub const HostInternal: u8 = 61;

/// CFTP
pub const Cftp: u8 = 62;

/// any local network
pub const LocalNetwork: u8 = 63;

/// SATNET and Backroom EXPAK
pub const SatExpak: u8 = 64;

/// Kryptolan
pub const Kryptolan: u8 = 65;

/// MIT Remote Virtual Disk Protocol
pub const Rvd: u8 = 66;

/// Internet Pluribus Packet Core
pub const Ippc: u8 = 67;

/// any distributed file system
pub const DistributedFs: u8 = 68;

/// SATNET Monitoring
pub const SatMon: u8 = 69;

/// VISA Protocol
pub const Visa: u8 = 70;

/// Internet Packet Core Utility
pub const Ipcv: u8 = 71;

/// Computer Protocol Network Executive
pub const Cpnx: u8 = 72;

/// Computer Protocol Heart Beat
pub const Cphb: u8 = 73;

/// Wang Span Network
pub const Wsn: u8 = 74;

/// Packet Video Protocol
pub const Pvp: u8 = 75;

/// Backroom SATNET Monitoring
pub const BrSatMon: u8 = 76;

/// SUN ND PROTOCOL-Temporary
pub const SunNd: u8 = 77;

/// WIDEBAND Monitoring
pub const WbMon: u8 = 78;

/// WIDEBAND EXPAK
pub const WbExpak: u8 = 79;

/// ISO Internet Protocol
pub const IsoIp: u8 = 80;

/// VMTP
pub const Vmtp: u8 = 81;

/// SECURE-VMTP
pub const SecureVmtp: u8 = 82;

/// VINES
pub const Vines: u8 = 83;

/// Transaction Transport Protocol/IP Traffic Manager
pub const TtpOrIptm: u8 = 84;

/// NSFNET-IGP
pub const NsfnetIgp: u8 = 85;

/// Dissimilar Gateway Protocol
pub const Dgp: u8 = 86;

/// TCF
pub const Tcf: u8 = 87;

/// EIGRP
pub const Eigrp: u8 = 88;

/// OSPFIGP [RFC1583][RFC2328][RFC5340]
pub const OspfigP: u8 = 89;

/// Sprite RPC Protocol
pub const SpriteRpc: u8 = 90;

/// Locus Address Resolution Protocol
pub const Larp: u8 = 91;

/// Multicast Transport Protocol
pub const Mtp: u8 = 92;

/// AX.25 Frames
pub const Ax25: u8 = 93;

/// IP-within-IP Encapsulation Protocol
pub const IpIp: u8 = 94;

/// Mobile Internetworking Control Pro.
pub const Micp: u8 = 95;

/// Semaphore Communications Sec. Pro.
pub const SccSp: u8 = 96;

/// Ethernet-within-IP Encapsulation [RFC3378]
pub const Etherip: u8 = 97;

/// Encapsulation Header [RFC1241]
pub const Encap: u8 = 98;

/// any private encryption scheme
pub const PrivEncryption: u8 = 99;

/// GMTP
pub const Gmtp: u8 = 100;

/// Ipsilon Flow Management Protocol
pub const Ifmp: u8 = 101;

/// PNNI over IP
pub const Pnni: u8 = 102;

/// Protocol Independent Multicast [RFC4601]
pub const Pim: u8 = 103;

/// ARIS
pub const Aris: u8 = 104;

/// SCPS
pub const Scps: u8 = 105;

/// QNX
pub const Qnx: u8 = 106;

/// Active Networks
pub const AN: u8 = 107;

/// IP Payload Compression Protocol [RFC2393]
pub const IpComp: u8 = 108;

/// Sitara Networks Protocol
pub const Snp: u8 = 109;

/// Compaq Peer Protocol
pub const CompaqPeer: u8 = 110;

/// IPX in IP
pub const IpxInIp: u8 = 111;

/// Virtual Router Redundancy Protocol [RFC5798]
pub const Vrrp: u8 = 112;

/// PGM Reliable Transport Protocol
pub const Pgm: u8 = 113;

/// any 0-hop protocol
pub const ZeroHop: u8 = 114;

/// Layer Two Tunneling Protocol [RFC3931]
pub const L2tp: u8 = 115;

/// D-II Data Exchange (DDX)
pub const Ddx: u8 = 116;

/// Interactive Agent Transfer Protocol
pub const Iatp: u8 = 117;

/// Schedule Transfer Protocol
pub const Stp: u8 = 118;

/// SpectraLink Radio Protocol
pub const Srp: u8 = 119;

/// UTI
pub const Uti: u8 = 120;

/// Simple Message Protocol
pub const Smp: u8 = 121;

/// Simple Multicast Protocol
pub const Sm: u8 = 122;

/// Performance Transparency Protocol
pub const Ptp: u8 = 123;

///
pub const IsisOverIpv4: u8 = 124;

///
pub const Fire: u8 = 125;

/// Combat Radio Transport Protocol
pub const Crtp: u8 = 126;

/// Combat Radio User Datagram
pub const Crudp: u8 = 127;

///
pub const Sscopmce: u8 = 128;

///
pub const Iplt: u8 = 129;

/// Secure Packet Shield
pub const Sps: u8 = 130;

/// Private IP Encapsulation within IP
pub const Pipe: u8 = 131;

/// Stream Control Transmission Protocol
pub const Sctp: u8 = 132;

/// Fibre Channel [RFC6172]
pub const Fc: u8 = 133;

/// [RFC3175]
pub const RsvpE2eIgnore: u8 = 134;

/// [RFC6275]
pub const MobilityHeader: u8 = 135;

/// [RFC3828]
pub const UdpLite: u8 = 136;

/// [RFC4023]
pub const MplsInIp: u8 = 137;

/// MANET Protocols [RFC5498]
pub const Manet: u8 = 138;

/// Host Identity Protocol [RFC5201]
pub const Hip: u8 = 139;

/// Shim6 Protocol [RFC5533]
pub const Shim6: u8 = 140;

/// Wrapped Encapsulating Security Payload [RFC5840]
pub const Wesp: u8 = 141;

/// Robust Header Compression [RFC5858]
pub const Rohc: u8 = 142;

/// Use for experimentation and testing [RFC3692]
pub const Test1: u8 = 253;

/// Use for experimentation and testing [RFC3692]
pub const Test2: u8 = 254;

///
pub const Reserved: u8 = 255;

} // verus!
