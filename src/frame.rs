use crate::common::{be16, nonempty, opt_vec_view};
use crate::error::DecodeError;
use crate::ethernet::{eth_header_of, EthHeader, EthHeaderSpec};
use crate::ethertype::{parse_ethtype, EtherType};
use crate::vlan::{lemma_vlan_stack_end, parse_vlans, vlan_stack, Vlan};
use vstd::prelude::*;
use vstd::slice::slice_subrange;

verus! {

/// The layers of a frame up to its payload: the Ethernet addresses, the VLAN
/// tags (`None` where there are none), the EtherType code after the tags, and
/// the bytes after that code.
#[verifier::ext_equal]
pub struct FrameSpec {
    pub eth: EthHeaderSpec,
    pub vlans: Option<Seq<Vlan>>,
    pub ethertype: u16,
    pub payload: Seq<u8>,
}

/// Splits a frame into its layers; `TooShort` where it ends before the
/// EtherType that follows its tags.
pub open spec fn frame_of(s: Seq<u8>) -> Result<FrameSpec, DecodeError> {
    if s.len() < 12 {
        Err(DecodeError::TooShort)
    } else {
        match vlan_stack(s.subrange(12, s.len() as int)) {
            None => Err(DecodeError::TooShort),
            Some(tags) => {
                let at = 12 + 4 * tags.len() as int;
                Ok(FrameSpec {
                    eth: eth_header_of(s),
                    vlans: nonempty(tags),
                    ethertype: be16(s[at], s[at + 1]),
                    payload: s.subrange(at + 2, s.len() as int),
                })
            },
        }
    }
}

/// The layers that [`split_frame`] returns, as a [`FrameSpec`].
pub open spec fn split_view<'a>(
    r: Result<(EthHeader<'a>, Option<Vec<Vlan>>, EtherType, &'a [u8]), DecodeError>,
) -> Result<FrameSpec, DecodeError> {
    match r {
        Ok((eth, vlans, code, payload)) => Ok(
            FrameSpec { eth: eth@, vlans: opt_vec_view(vlans), ethertype: code.0, payload: payload@ },
        ),
        Err(e) => Err(e),
    }
}

/// Reads the Ethernet addresses, then the VLAN tags after them, then the
/// EtherType after the tags, and returns these with the rest of the frame.
pub fn split_frame<'a>(buf: &'a [u8]) -> (r: Result<
    (EthHeader<'a>, Option<Vec<Vlan>>, EtherType, &'a [u8]),
    DecodeError,
>)
    ensures
        split_view(r) == frame_of(buf@),
{
    let eth = match EthHeader::parse(buf) {
        Ok(h) => h,
        Err(e) => return Err(e),
    };
    let tail = slice_subrange(buf, 12, buf.len());
    let (vlans, ptr) = match parse_vlans(tail) {
        Ok(x) => x,
        Err(e) => return Err(e),
    };
    proof {
        lemma_vlan_stack_end(tail@);
    }
    let at = 12 + ptr;
    let code = parse_ethtype(slice_subrange(buf, at, at + 2));
    let payload = slice_subrange(buf, at + 2, buf.len());
    proof {
        let tags = vlan_stack(tail@)->Some_0;
        assert(opt_vec_view(vlans) == nonempty(tags));
    }
    Ok((eth, vlans, code, payload))
}

} // verus!
