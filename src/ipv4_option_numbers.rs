//! IPv4 option numbers, as registered by IANA.
#![allow(non_upper_case_globals)]

use vstd::prelude::*;

verus! {

/// End of Options List
pub const EOL: u8 = 0;

/// No Operation
pub const NOP: u8 = 1;

/// Security
pub const SEC: u8 = 2;

/// Loose Source Route
pub const LSR: u8 = 3;

/// Time Stamp
pub const TS: u8 = 4;

/// Extended Security
pub const ESEC: u8 = 5;

/// Commercial Security
pub const CIPSO: u8 = 6;

/// Record Route
pub const RR: u8 = 7;

/// Stream ID
pub const SID: u8 = 8;

/// Strict Source Route
pub const SSR: u8 = 9;

/// Experimental Measurement
pub const ZSU: u8 = 10;

/// MTU Probe
pub const MTUP: u8 = 11;

/// MTU Reply
pub const MTUR: u8 = 12;

/// Experimental Flow Control
pub const FINN: u8 = 13;

/// Experimental Access Control
pub const VISA: u8 = 14;

/// ENCODE
pub const ENCODE: u8 = 15;

/// IMI Traffic Descriptor
pub const IMITD: u8 = 16;

/// Extended Internet Protocol
pub const EIP: u8 = 17;

/// Traceroute
pub const TR: u8 = 18;

/// Address Extension
pub const ADDEXT: u8 = 19;

/// Router Alert
pub const RTRALT: u8 = 20;

/// Selective Directed Broadcast
pub const SDB: u8 = 21;

/// Dynamic Packet State
pub const DPS: u8 = 23;

/// Upstream Multicast Pkt.
pub const UMP: u8 = 24;

/// Quick-Start
pub const QS: u8 = 25;

/// RFC3692-style Experiment
pub const EXP: u8 = 30;

} // verus!
