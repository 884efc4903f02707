use crate::common::{be16, u16_parse};
use crate::ether_types;
use vstd::prelude::*;

verus! {

/// A 16-bit EtherType code, named or not.
#[derive(Clone, Copy, Debug, PartialEq, Eq, PartialOrd, Ord, Hash, Structural)]
pub struct EtherType(pub u16);

/// The symbolic name of an EtherType code, where the code is a known one.
pub open spec fn ethertype_name(code: u16) -> Option<&'static str> {
    if code == ether_types::Ipv4 {
        Some("Ipv4")
    } else if code == ether_types::Arp {
        Some("Arp")
    } else if code == ether_types::WakeOnLan {
        Some("WakeOnLan")
    } else if code == ether_types::Trill {
        Some("Trill")
    } else if code == ether_types::DECnet {
        Some("DECnet")
    } else if code == ether_types::Rarp {
        Some("Rarp")
    } else if code == ether_types::AppleTalk {
        Some("AppleTalk")
    } else if code == ether_types::Aarp {
        Some("Aarp")
    } else if code == ether_types::Ipx {
        Some("Ipx")
    } else if code == ether_types::Qnx {
        Some("Qnx")
    } else if code == ether_types::Ipv6 {
        Some("Ipv6")
    } else if code == ether_types::FlowControl {
        Some("FlowControl")
    } else if code == ether_types::CobraNet {
        Some("CobraNet")
    } else if code == ether_types::Mpls {
        Some("Mpls")
    } else if code == ether_types::MplsMcast {
        Some("MplsMcast")
    } else if code == ether_types::PppoeDiscovery {
        Some("PppoeDiscovery")
    } else if code == ether_types::PppoeSession {
        Some("PppoeSession")
    } else if code == ether_types::Vlan {
        Some("Vlan")
    } else if code == ether_types::PBridge {
        Some("PBridge")
    } else if code == ether_types::Lldp {
        Some("Lldp")
    } else if code == ether_types::Ptp {
        Some("Ptp")
    } else if code == ether_types::Cfm {
        Some("Cfm")
    } else if code == ether_types::QinQ {
        Some("QinQ")
    } else {
        None
    }
}

impl EtherType {
    /// The symbolic name of this code, or `None` for a code with no name.
    pub fn name(&self) -> (r: Option<&'static str>)
        ensures
            r == ethertype_name(self.0),
    {
        let code = self.0;
        if code == ether_types::Ipv4 {
            Some("Ipv4")
        } else if code == ether_types::Arp {
            Some("Arp")
        } else if code == ether_types::WakeOnLan {
            Some("WakeOnLan")
        } else if code == ether_types::Trill {
            Some("Trill")
        } else if code == ether_types::DECnet {
            Some("DECnet")
        } else if code == ether_types::Rarp {
            Some("Rarp")
        } else if code == ether_types::AppleTalk {
            Some("AppleTalk")
        } else if code == ether_types::Aarp {
            Some("Aarp")
        } else if code == ether_types::Ipx {
            Some("Ipx")
        } else if code == ether_types::Qnx {
            Some("Qnx")
        } else if code == ether_types::Ipv6 {
            Some("Ipv6")
        } else if code == ether_types::FlowControl {
            Some("FlowControl")
        } else if code == ether_types::CobraNet {
            Some("CobraNet")
        } else if code == ether_types::Mpls {
            Some("Mpls")
        } else if code == ether_types::MplsMcast {
            Some("MplsMcast")
        } else if code == ether_types::PppoeDiscovery {
            Some("PppoeDiscovery")
        } else if code == ether_types::PppoeSession {
            Some("PppoeSession")
        } else if code == ether_types::Vlan {
            Some("Vlan")
        } else if code == ether_types::PBridge {
            Some("PBridge")
        } else if code == ether_types::Lldp {
            Some("Lldp")
        } else if code == ether_types::Ptp {
            Some("Ptp")
        } else if code == ether_types::Cfm {
            Some("Cfm")
        } else if code == ether_types::QinQ {
            Some("QinQ")
        } else {
            None
        }
    }
}

impl From<u16> for EtherType {
    fn from(d: u16) -> (r: EtherType) {
        EtherType(d)
    }
}

impl vstd::std_specs::convert::FromSpecImpl<u16> for EtherType {
    open spec fn obeys_from_spec() -> bool {
        true
    }

    open spec fn from_spec(d: u16) -> EtherType {
        EtherType(d)
    }
}

impl From<EtherType> for u16 {
    fn from(t: EtherType) -> (r: u16) {
        t.0
    }
}

impl vstd::std_specs::convert::FromSpecImpl<EtherType> for u16 {
    open spec fn obeys_from_spec() -> bool {
        true
    }

    open spec fn from_spec(t: EtherType) -> u16 {
        t.0
    }
}

/// Reads the big-endian EtherType code at the start of `buf`.
pub fn parse_ethtype(buf: &[u8]) -> (r: EtherType)
    requires
        buf@.len() >= 2,
    ensures
        r.0 == be16(buf@[0], buf@[1]),
{
    EtherType(u16_parse(buf))
}

} // verus!
