use vstd::prelude::*;

verus! {

/// Why a frame, or one layer of it, could not be decoded.
#[derive(Clone, Copy, Debug, PartialEq, Eq, Structural)]
pub enum DecodeError {
    /// The buffer ended before a fixed-width field could be read.
    TooShort,
    /// The IPv4 header length is outside 5..=15 words or runs past the buffer.
    InvalidHeaderLength,
    /// The IPv4 options region is not a whole number of words, or an option's
    /// length byte is malformed or runs past the region.
    InvalidOptions,
    /// The frame's EtherType is not ARP.
    NotArp,
    /// The frame's EtherType is not IPv4.
    NotIpv4,
}

} // verus!
