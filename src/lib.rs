//! Decoding of Ethernet frames into borrowed, typed views: stacked VLAN tags,
//! EtherType dispatch, ARP and IPv4 headers with their options.
//!
//! Every decoded record borrows from the caller's buffer; each decoder states
//! its result as a view over the buffer's bytes.

pub mod arp;
pub mod classes_of_service;
pub mod common;
pub mod error;
pub mod ether_types;
pub mod ethernet;
pub mod ethertype;
pub mod frame;
pub mod ip;
pub mod ip_next_header_protocols;
pub mod ipv4_option_numbers;
pub mod packet;
pub mod vlan;

pub use error::DecodeError;
pub use packet::{parse_packet, Packet};
