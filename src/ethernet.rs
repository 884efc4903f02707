use crate::error::DecodeError;
use vstd::prelude::*;
use vstd::slice::slice_subrange;

verus! {

/// The two hardware addresses at the start of an Ethernet frame, as views into it.
#[derive(Debug, PartialEq)]
pub struct EthHeader<'a> {
    pub dst_mac: &'a [u8],
    pub src_mac: &'a [u8],
}

/// What an [`EthHeader`] holds, as byte sequences.
#[verifier::ext_equal]
pub struct EthHeaderSpec {
    pub dst_mac: Seq<u8>,
    pub src_mac: Seq<u8>,
}

impl<'a> View for EthHeader<'a> {
    type V = EthHeaderSpec;

    open spec fn view(&self) -> EthHeaderSpec {
        EthHeaderSpec { dst_mac: self.dst_mac@, src_mac: self.src_mac@ }
    }
}

/// The addresses of a frame that holds at least twelve bytes.
pub open spec fn eth_header_of(frame: Seq<u8>) -> EthHeaderSpec {
    EthHeaderSpec { dst_mac: frame.subrange(0, 6), src_mac: frame.subrange(6, 12) }
}

impl<'a> EthHeader<'a> {
    /// Reads bytes `[0, 6)` as the destination and `[6, 12)` as the source address.
    pub fn parse(buf: &'a [u8]) -> (r: Result<EthHeader<'a>, DecodeError>)
        ensures
            buf@.len() >= 12 <==> r is Ok,
            r matches Ok(h) ==> h@ == eth_header_of(buf@),
            r matches Err(e) ==> e == DecodeError::TooShort,
    {
        if buf.len() >= 12 {
            Ok(EthHeader { dst_mac: slice_subrange(buf, 0, 6), src_mac: slice_subrange(buf, 6, 12) })
        } else {
            Err(DecodeError::TooShort)
        }
    }
}

impl<'a> TryFrom<&'a [u8]> for EthHeader<'a> {
    type Error = DecodeError;

    fn try_from(buf: &'a [u8]) -> (r: Result<EthHeader<'a>, DecodeError>)
        ensures
            buf@.len() >= 12 <==> r is Ok,
            r matches Ok(h) ==> h@ == eth_header_of(buf@),
            r matches Err(e) ==> e == DecodeError::TooShort,
    {
        let r = EthHeader::parse(buf);
        proof {
            if r is Ok {
                let c = choose|c: EthHeader<'a>| c@ == eth_header_of(buf@);
                lemma_eth_header_view_unique(r->Ok_0, c);
            }
        }
        r
    }
}

impl<'a> vstd::std_specs::convert::TryFromSpecImpl<&'a [u8]> for EthHeader<'a> {
    open spec fn obeys_try_from_spec() -> bool {
        true
    }

    open spec fn try_from_spec(buf: &'a [u8]) -> Result<EthHeader<'a>, DecodeError> {
        if buf@.len() >= 12 {
            Ok(choose|h: EthHeader<'a>| h@ == eth_header_of(buf@))
        } else {
            Err(DecodeError::TooShort)
        }
    }
}

/// Two headers with the same view are the same header.
pub proof fn lemma_eth_header_view_unique<'a>(a: EthHeader<'a>, b: EthHeader<'a>)
    requires
        a@ == b@,
    ensures
        a == b,
{
    assert(a.dst_mac =~= b.dst_mac);
    assert(a.src_mac =~= b.src_mac);
}

} // verus!
