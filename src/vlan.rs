use crate::common::{be16, nonempty, opt_vec_view, u16_parse};
use crate::error::DecodeError;
use crate::ether_types;
use crate::ethertype::{parse_ethtype, EtherType};
use vstd::prelude::*;
use vstd::slice::slice_subrange;

verus! {

/// An IEEE 802.1p class of service.
#[derive(Clone, Copy, Debug, PartialEq, Eq, PartialOrd, Ord, Hash, Structural)]
pub struct ClassOfService(pub u8);

impl ClassOfService {
    /// Creates a class of service from its code.
    pub fn new(value: u8) -> (r: ClassOfService)
        ensures
            r.0 == value,
    {
        ClassOfService(value)
    }
}

/// One IEEE 802.1Q tag.
#[derive(Clone, Copy, Debug, PartialEq, Eq, Structural)]
pub struct Vlan {
    pub priority_code_point: ClassOfService,
    pub drop_eligible_indicator: bool,
    pub vid: u16,
}

/// The tag that a 16-bit tag control field encodes: the top three bits are the
/// priority, the next bit the drop-eligible flag, the low twelve bits the VLAN id.
pub open spec fn vlan_of(tci: u16) -> Vlan {
    Vlan {
        priority_code_point: ClassOfService((tci >> 13u16) as u8),
        drop_eligible_indicator: (tci >> 12u16) & 1 != 0,
        vid: tci & 0x0FFF,
    }
}

/// The tags at the start of `s`: while the next two bytes are the VLAN
/// EtherType, a tag follows them. `None` where the bytes run out before a code
/// other than the VLAN one is found.
pub open spec fn vlan_stack(s: Seq<u8>) -> Option<Seq<Vlan>>
    decreases s.len(),
{
    if s.len() < 2 {
        None
    } else if be16(s[0], s[1]) != ether_types::Vlan {
        Some(Seq::empty())
    } else if s.len() < 4 {
        None
    } else {
        match vlan_stack(s.subrange(4, s.len() as int)) {
            Some(rest) => Some(seq![vlan_of(be16(s[2], s[3]))] + rest),
            None => None,
        }
    }
}

/// `tags` put in front of the tags that `rest` holds, if it holds any.
pub open spec fn prepend_tags(tags: Seq<Vlan>, rest: Option<Seq<Vlan>>) -> Option<Seq<Vlan>> {
    match rest {
        Some(r) => Some(tags + r),
        None => None,
    }
}

/// Decodes the tag control field at the start of `buf`.
pub fn parse_vlan(buf: &[u8]) -> (r: Vlan)
    requires
        buf@.len() >= 2,
    ensures
        r == vlan_of(be16(buf@[0], buf@[1])),
{
    let tci = u16_parse(buf);
    let prio = (tci >> 13u16) as u8;
    let drop = (tci >> 12u16) & 1;
    Vlan { priority_code_point: ClassOfService(prio), drop_eligible_indicator: drop != 0, vid: tci & 0x0FFF }
}

/// Reads the VLAN tags that start `buf`, the bytes right after the Ethernet
/// addresses. Returns the tags, `None` where there are none, and the number of
/// bytes they take. Fails with `TooShort` where the buffer ends before a code
/// other than the VLAN EtherType.
pub fn parse_vlans(buf: &[u8]) -> (r: Result<(Option<Vec<Vlan>>, usize), DecodeError>)
    ensures
        r is Ok <==> vlan_stack(buf@) is Some,
        r matches Ok((v, n)) ==> {
            &&& opt_vec_view(v) == nonempty(vlan_stack(buf@)->Some_0)
            &&& n == 4 * vlan_stack(buf@)->Some_0.len()
        },
        r matches Err(e) ==> e == DecodeError::TooShort,
{
    let mut result: Vec<Vlan> = Vec::new();
    let mut ptr: usize = 0;
    proof {
        assert(buf@.subrange(0, buf@.len() as int) =~= buf@);
        if vlan_stack(buf@) is Some {
            assert(Seq::<Vlan>::empty() + vlan_stack(buf@)->Some_0 =~= vlan_stack(buf@)->Some_0);
        }
    }
    loop
        invariant
            ptr <= buf@.len(),
            ptr == 4 * result@.len(),
            vlan_stack(buf@) == prepend_tags(result@, vlan_stack(buf@.subrange(ptr as int, buf@.len() as int))),
        ensures
            ptr == 4 * result@.len(),
            vlan_stack(buf@) == Some(result@),
        decreases buf@.len() - ptr,
    {
        let ghost rest = buf@.subrange(ptr as int, buf@.len() as int);
        if buf.len() - ptr < 2 {
            return Err(DecodeError::TooShort);
        }
        let code = parse_ethtype(slice_subrange(buf, ptr, ptr + 2));
        if code != EtherType(ether_types::Vlan) {
            assert(result@ + Seq::<Vlan>::empty() =~= result@);
            break;
        }
        if buf.len() - ptr < 4 {
            return Err(DecodeError::TooShort);
        }
        let vlan = parse_vlan(slice_subrange(buf, ptr + 2, ptr + 4));
        proof {
            assert(rest.subrange(4, rest.len() as int) =~= buf@.subrange(ptr + 4, buf@.len() as int));
            let tail = vlan_stack(buf@.subrange(ptr + 4, buf@.len() as int));
            if tail is Some {
                assert(result@.push(vlan) + tail->Some_0 =~= result@ + (seq![vlan] + tail->Some_0));
            }
        }
        result.push(vlan);
        ptr = ptr + 4;
    }
    if result.len() > 0 {
        Ok((Some(result), ptr))
    } else {
        Ok((None, ptr))
    }
}

/// Where the tag stack of `s` is found, `s` goes on past its tags with two
/// more bytes, which are not the VLAN EtherType.
pub proof fn lemma_vlan_stack_end(s: Seq<u8>)
    requires
        vlan_stack(s) is Some,
    ensures
        ({
            let n = 4 * vlan_stack(s)->Some_0.len() as int;
            &&& s.len() >= n + 2
            &&& be16(s[n], s[n + 1]) != ether_types::Vlan
        }),
    decreases s.len(),
{
    if be16(s[0], s[1]) == ether_types::Vlan {
        let t = s.subrange(4, s.len() as int);
        lemma_vlan_stack_end(t);
        let m = 4 * vlan_stack(t)->Some_0.len() as int;
        assert(t[m] == s[m + 4]);
        assert(t[m + 1] == s[m + 5]);
    }
}

/// The tag control field that carries a priority, a drop-eligible flag and a VLAN id.
pub open spec fn tci_of(priority: u8, drop_eligible: bool, vid: u16) -> u16 {
    ((priority as u16) << 13u16) | ((if drop_eligible { 1u16 } else { 0u16 }) << 12u16) | vid
}

/// Decoding a tag control field packed from a priority below 8, a drop-eligible
/// flag and a VLAN id below 4096 gives back those three values.
pub proof fn lemma_vlan_tci_round_trip(priority: u8, drop_eligible: bool, vid: u16)
    requires
        priority < 8,
        vid < 4096,
    ensures
        vlan_of(tci_of(priority, drop_eligible, vid)) == (Vlan {
            priority_code_point: ClassOfService(priority),
            drop_eligible_indicator: drop_eligible,
            vid,
        }),
{
    let d: u16 = if drop_eligible { 1u16 } else { 0u16 };
    let v = tci_of(priority, drop_eligible, vid);
    assert(v == ((priority as u16) << 13u16) | (d << 12u16) | vid);
    assert((((priority as u16) << 13u16) | (d << 12u16) | vid) >> 13u16 == priority as u16) by (bit_vector)
        requires
            priority < 8,
            vid < 4096,
            d <= 1,
    ;
    assert((((((priority as u16) << 13u16) | (d << 12u16) | vid) >> 12u16) & 1 != 0) == (d == 1)) by (bit_vector)
        requires
            priority < 8,
            vid < 4096,
            d <= 1,
    ;
    assert((((priority as u16) << 13u16) | (d << 12u16) | vid) & 0x0FFF == vid) by (bit_vector)
        requires
            priority < 8,
            vid < 4096,
            d <= 1,
    ;
}

/// Where `s` begins with `k` entries of four bytes, each led by the VLAN
/// EtherType, followed by a code other than it, the tag stack of `s` is the `k`
/// tags of those entries, in their order.
pub proof fn lemma_vlan_stack_of_tagged_entries(s: Seq<u8>, k: nat)
    requires
        s.len() >= 4 * k + 2,
        forall|i: int| 0 <= i < k ==> be16(#[trigger] s[4 * i], s[4 * i + 1]) == ether_types::Vlan,
        be16(s[4 * k as int], s[4 * k as int + 1]) != ether_types::Vlan,
    ensures
        vlan_stack(s) == Some(Seq::new(k, |i: int| vlan_of(be16(s[4 * i + 2], s[4 * i + 3])))),
    decreases k,
{
    if k > 0 {
        assert(be16(s[4 * 0int], s[4 * 0int + 1]) == ether_types::Vlan);
        let t = s.subrange(4, s.len() as int);
        assert forall|i: int| 0 <= i < k - 1 implies be16(#[trigger] t[4 * i], t[4 * i + 1]) == ether_types::Vlan by {
            assert(t[4 * i] == s[4 * (i + 1)]);
            assert(t[4 * i + 1] == s[4 * (i + 1) + 1]);
        }
        assert(t[4 * (k - 1)] == s[4 * k as int]);
        assert(t[4 * (k - 1) + 1] == s[4 * k as int + 1]);
        lemma_vlan_stack_of_tagged_entries(t, (k - 1) as nat);
        let tags = Seq::new(k, |i: int| vlan_of(be16(s[4 * i + 2], s[4 * i + 3])));
        let rest = Seq::new((k - 1) as nat, |i: int| vlan_of(be16(t[4 * i + 2], t[4 * i + 3])));
        assert(tags =~= seq![vlan_of(be16(s[2], s[3]))] + rest);
    }
}

} // verus!
