//! IEEE 802.1p classes of service.

use vstd::prelude::*;

verus! {

/// Background
pub const BK: u8 = 1;

/// Best Effort
pub const BE: u8 = 0;

/// Excellent Effort
pub const EE: u8 = 2;

/// Critical Applications
pub const CA: u8 = 3;

/// Video, < 100 ms latency
pub const VI: u8 = 4;

/// Voice, < 10 ms latency
pub const VO: u8 = 5;

/// Internetwork Control
pub const IC: u8 = 6;

/// Network Control
pub const NC: u8 = 7;

} // verus!
