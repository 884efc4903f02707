use crate::common::{be16, nonempty, opt_vec_view, result_view, u16_parse};
use crate::error::DecodeError;
use crate::ether_types;
use crate::ethernet::{EthHeader, EthHeaderSpec};
use crate::frame::{frame_of, split_frame};
use crate::ipv4_option_numbers;
use crate::vlan::Vlan;
use vstd::prelude::*;
use vstd::slice::slice_subrange;

verus! {

/// The Don't Fragment bit of an IPv4 header's flags.
pub const DONT_FRAGMENT: u8 = 0b010;

/// The More Fragments bit of an IPv4 header's flags.
pub const MORE_FRAGMENTS: u8 = 0b001;

/// An IPv4 next-level protocol number; see `ip_next_header_protocols`.
#[derive(Clone, Copy, Debug, PartialEq, Eq, PartialOrd, Ord, Hash, Structural)]
pub struct IpNextHeaderProtocol(pub u8);

impl IpNextHeaderProtocol {
    /// Creates a protocol number.
    pub fn new(value: u8) -> (r: IpNextHeaderProtocol)
        ensures
            r.0 == value,
    {
        IpNextHeaderProtocol(value)
    }
}

/// An IPv4 option number; see `ipv4_option_numbers`.
#[derive(Clone, Copy, Debug, PartialEq, Eq, PartialOrd, Ord, Hash, Structural)]
pub struct Ipv4OptionNumber(pub u8);

impl Ipv4OptionNumber {
    /// Creates an option number.
    pub fn new(value: u8) -> (r: Ipv4OptionNumber)
        ensures
            r.0 == value,
    {
        Ipv4OptionNumber(value)
    }
}

/// One entry of the IPv4 options region.
#[derive(Debug, PartialEq)]
pub struct IpOption<'a> {
    pub copy: bool,
    pub class: u8,
    pub option_num: Ipv4OptionNumber,
    /// The entry's whole length, its two leading bytes included.
    pub option_size: u8,
    /// The `option_size - 2` bytes after the two leading ones.
    pub val: &'a [u8],
}

/// A decoded IPv4 header.
#[derive(Debug, PartialEq)]
pub struct IpV4Header<'a> {
    pub version: u8,
    /// The header's length in 32-bit words.
    pub hdr_length: u8,
    pub dscp: u8,
    pub ecn: u8,
    pub packet_length: u16,
    pub id: u16,
    pub flags: u8,
    pub offset: u16,
    pub ttl: u8,
    pub protocol: IpNextHeaderProtocol,
    /// The header checksum, as found; it is not checked.
    pub crc: u16,
    pub src_ip: &'a [u8],
    pub dst_ip: &'a [u8],
    /// The options, `None` where there are none.
    pub options: Option<Vec<IpOption<'a>>>,
}

/// A decoded IPv4 frame.
#[derive(Debug, PartialEq)]
pub struct IpV4Packet<'a> {
    pub eth_header: EthHeader<'a>,
    pub vlans: Option<Vec<Vlan>>,
    pub ip_hdr: IpV4Header<'a>,
}

/// What an [`IpOption`] holds, its value as a byte sequence.
#[verifier::ext_equal]
pub struct IpOptionSpec {
    pub copy: bool,
    pub class: u8,
    pub option_num: Ipv4OptionNumber,
    pub option_size: u8,
    pub val: Seq<u8>,
}

/// What an [`IpV4Header`] holds, as values and byte sequences.
#[verifier::ext_equal]
pub struct IpV4HeaderSpec {
    pub version: u8,
    pub hdr_length: u8,
    pub dscp: u8,
    pub ecn: u8,
    pub packet_length: u16,
    pub id: u16,
    pub flags: u8,
    pub offset: u16,
    pub ttl: u8,
    pub protocol: IpNextHeaderProtocol,
    pub crc: u16,
    pub src_ip: Seq<u8>,
    pub dst_ip: Seq<u8>,
    pub options: Option<Seq<IpOptionSpec>>,
}

/// What an [`IpV4Packet`] holds.
#[verifier::ext_equal]
pub struct IpV4PacketSpec {
    pub eth_header: EthHeaderSpec,
    pub vlans: Option<Seq<Vlan>>,
    pub ip_hdr: IpV4HeaderSpec,
}

impl<'a> View for IpOption<'a> {
    type V = IpOptionSpec;

    open spec fn view(&self) -> IpOptionSpec {
        IpOptionSpec {
            copy: self.copy,
            class: self.class,
            option_num: self.option_num,
            option_size: self.option_size,
            val: self.val@,
        }
    }
}

/// The views of a list of options.
pub open spec fn option_views<'a>(s: Seq<IpOption<'a>>) -> Seq<IpOptionSpec> {
    s.map_values(|o: IpOption<'a>| o@)
}

/// The views of an optional list of options.
pub open spec fn opt_options_view<'a>(o: Option<Vec<IpOption<'a>>>) -> Option<Seq<IpOptionSpec>> {
    match o {
        Some(v) => Some(option_views(v@)),
        None => None,
    }
}

impl<'a> View for IpV4Header<'a> {
    type V = IpV4HeaderSpec;

    open spec fn view(&self) -> IpV4HeaderSpec {
        IpV4HeaderSpec {
            version: self.version,
            hdr_length: self.hdr_length,
            dscp: self.dscp,
            ecn: self.ecn,
            packet_length: self.packet_length,
            id: self.id,
            flags: self.flags,
            offset: self.offset,
            ttl: self.ttl,
            protocol: self.protocol,
            crc: self.crc,
            src_ip: self.src_ip@,
            dst_ip: self.dst_ip@,
            options: opt_options_view(self.options),
        }
    }
}

impl<'a> View for IpV4Packet<'a> {
    type V = IpV4PacketSpec;

    open spec fn view(&self) -> IpV4PacketSpec {
        IpV4PacketSpec {
            eth_header: self.eth_header@,
            vlans: opt_vec_view(self.vlans),
            ip_hdr: self.ip_hdr@,
        }
    }
}

/// The option whose entry starts at `off` in `s`: of its first byte, the top
/// bit is the copy flag, the next two bits the class, the low five bits the
/// option number; the second byte is the entry's length, and the value fills
/// the rest of the entry.
pub open spec fn ip_option_at(s: Seq<u8>, off: int) -> IpOptionSpec {
    let b = s[off];
    let size = s[off + 1];
    IpOptionSpec {
        copy: b >> 7u8 != 0,
        class: (b >> 5u8) & 3u8,
        option_num: Ipv4OptionNumber(b & 0x1Fu8),
        option_size: size,
        val: s.subrange(off + 2, off + size),
    }
}

/// The options of the region `s` from `off` on, up to the end of the region or
/// to an end-of-list entry, whichever comes first. `InvalidOptions` where an
/// entry's length byte is missing, is under two, or runs past the region.
pub open spec fn options_from(s: Seq<u8>, off: int) -> Result<Seq<IpOptionSpec>, DecodeError>
    decreases s.len() - off,
{
    if off < 0 || off >= s.len() {
        Ok(Seq::empty())
    } else if s[off] & 0x1Fu8 == ipv4_option_numbers::EOL {
        Ok(Seq::empty())
    } else if off + 2 > s.len() || s[off + 1] < 2 || off + s[off + 1] > s.len() {
        Err(DecodeError::InvalidOptions)
    } else {
        match options_from(s, off + s[off + 1]) {
            Ok(rest) => Ok(seq![ip_option_at(s, off)] + rest),
            Err(e) => Err(e),
        }
    }
}

/// The options that the region `s` holds, `None` where it holds none.
/// `InvalidOptions` where its length is not a multiple of four.
pub open spec fn options_of(s: Seq<u8>) -> Result<Option<Seq<IpOptionSpec>>, DecodeError> {
    if s.len() % 4 != 0 {
        Err(DecodeError::InvalidOptions)
    } else {
        match options_from(s, 0) {
            Ok(opts) => Ok(nonempty(opts)),
            Err(e) => Err(e),
        }
    }
}

/// `opts` put in front of the options that `rest` holds, if it holds any.
pub open spec fn prepend_options(opts: Seq<IpOptionSpec>, rest: Result<Seq<IpOptionSpec>, DecodeError>) -> Result<Seq<IpOptionSpec>, DecodeError> {
    match rest {
        Ok(r) => Ok(opts + r),
        Err(e) => Err(e),
    }
}

/// The view of a result of [`parse_options`].
pub open spec fn options_result_view<'a>(r: Result<Option<Vec<IpOption<'a>>>, DecodeError>) -> Result<Option<Seq<IpOptionSpec>>, DecodeError> {
    match r {
        Ok(o) => Ok(opt_options_view(o)),
        Err(e) => Err(e),
    }
}

/// Decodes an IPv4 options region: entries of a type byte, a length byte and
/// a value, up to the end of the region or an end-of-list entry, after which
/// the rest is padding.
pub fn parse_options<'a>(buf: &'a [u8]) -> (r: Result<Option<Vec<IpOption<'a>>>, DecodeError>)
    ensures
        options_result_view(r) == options_of(buf@),
{
    let len = buf.len();
    if len % 4 != 0 {
        return Err(DecodeError::InvalidOptions);
    }
    let mut result: Vec<IpOption<'a>> = Vec::new();
    let mut offset: usize = 0;
    proof {
        if options_from(buf@, 0) is Ok {
            assert(Seq::<IpOptionSpec>::empty() + options_from(buf@, 0)->Ok_0 =~= options_from(buf@, 0)->Ok_0);
        }
        assert(option_views(result@) =~= Seq::<IpOptionSpec>::empty());
    }
    while offset < len
        invariant
            len == buf@.len(),
            offset <= len,
            options_from(buf@, 0) == prepend_options(option_views(result@), options_from(buf@, offset as int)),
        ensures
            options_from(buf@, 0) == Ok::<Seq<IpOptionSpec>, DecodeError>(option_views(result@)),
        decreases len - offset,
    {
        let b = buf[offset];
        let copy = b >> 7u8;
        let class = (b >> 5u8) & 3u8;
        let option_num = Ipv4OptionNumber(b & 0x1Fu8);
        if option_num.0 == ipv4_option_numbers::EOL {
            assert(option_views(result@) + Seq::<IpOptionSpec>::empty() =~= option_views(result@));
            break;
        }
        if len - offset < 2 {
            return Err(DecodeError::InvalidOptions);
        }
        let option_size = buf[offset + 1];
        if option_size < 2 || option_size as usize > len - offset {
            return Err(DecodeError::InvalidOptions);
        }
        let val = slice_subrange(buf, offset + 2, offset + option_size as usize);
        let opt = IpOption { copy: copy != 0, class, option_num, option_size, val };
        proof {
            assert(opt@ == ip_option_at(buf@, offset as int));
            let next = options_from(buf@, offset + option_size);
            assert(option_views(result@.push(opt)) =~= option_views(result@).push(opt@));
            if next is Ok {
                assert(option_views(result@).push(opt@) + next->Ok_0 =~= option_views(result@) + (seq![opt@] + next->Ok_0));
            }
        }
        result.push(opt);
        offset = offset + option_size as usize;
    }
    if result.len() > 0 {
        Ok(Some(result))
    } else {
        Ok(None)
    }
}

/// The header at the start of `s`. `TooShort` under twenty bytes;
/// `InvalidHeaderLength` where the length field is outside 5..=15 words or
/// the header it gives runs past `s`; the errors of [`options_of`] on the
/// bytes from twenty to the header's end, where the header has options.
pub open spec fn ipv4_header_of(s: Seq<u8>) -> Result<IpV4HeaderSpec, DecodeError> {
    if s.len() < 20 {
        Err(DecodeError::TooShort)
    } else {
        let hl = s[0] & 0x0Fu8;
        if hl < 5 || hl > 15 || hl * 4 > s.len() {
            Err(DecodeError::InvalidHeaderLength)
        } else {
            let options = if hl > 5 {
                options_of(s.subrange(20, hl * 4))
            } else {
                Ok(None)
            };
            match options {
                Err(e) => Err(e),
                Ok(options) => Ok(
                    IpV4HeaderSpec {
                        version: s[0] >> 4u8,
                        hdr_length: hl,
                        dscp: s[1] >> 2u8,
                        ecn: s[1] & 3u8,
                        packet_length: be16(s[2], s[3]),
                        id: be16(s[4], s[5]),
                        flags: s[6] >> 5u8,
                        offset: be16(s[6], s[7]) & 0x1FFFu16,
                        ttl: s[8],
                        protocol: IpNextHeaderProtocol(s[9]),
                        crc: be16(s[10], s[11]),
                        src_ip: s.subrange(12, 16),
                        dst_ip: s.subrange(16, 20),
                        options,
                    },
                ),
            }
        }
    }
}

/// The IPv4 packet that a whole frame holds: `NotIpv4` where the EtherType
/// after its tags is not IPv4.
pub open spec fn ipv4_packet_of(s: Seq<u8>) -> Result<IpV4PacketSpec, DecodeError> {
    match frame_of(s) {
        Err(e) => Err(e),
        Ok(f) => if f.ethertype != ether_types::Ipv4 {
            Err(DecodeError::NotIpv4)
        } else {
            match ipv4_header_of(f.payload) {
                Err(e) => Err(e),
                Ok(h) => Ok(IpV4PacketSpec { eth_header: f.eth, vlans: f.vlans, ip_hdr: h }),
            }
        },
    }
}

/// Where the walk over the options region `s` from `off` stops: at an
/// end-of-list entry, at a malformed entry, or at the end of the region.
pub open spec fn options_stop(s: Seq<u8>, off: int) -> int
    decreases s.len() - off,
{
    if off < 0 || off >= s.len() {
        off
    } else if s[off] & 0x1Fu8 == ipv4_option_numbers::EOL || off + 2 > s.len() || s[off + 1] < 2 || off
        + s[off + 1] > s.len() {
        off
    } else {
        options_stop(s, off + s[off + 1])
    }
}

/// The walk never stops before where it starts.
pub proof fn lemma_options_stop_after_start(s: Seq<u8>, off: int)
    ensures
        options_stop(s, off) >= off,
    decreases s.len() - off,
{
    if 0 <= off < s.len() && s[off] & 0x1Fu8 != ipv4_option_numbers::EOL && off + 2 <= s.len() && s[off
        + 1] >= 2 && off + s[off + 1] <= s.len() {
        lemma_options_stop_after_start(s, off + s[off + 1]);
    }
}

/// The walk from `off` reads no byte after the place where it stops: a region
/// of the same length that agrees with `a` from `off` up to that place gives
/// the same options, where `a` gives options at all.
pub proof fn lemma_options_from_ignores_rest(a: Seq<u8>, b: Seq<u8>, off: int)
    requires
        0 <= off,
        a.len() == b.len(),
        options_from(a, off) is Ok,
        forall|i: int| off <= i <= options_stop(a, off) && i < a.len() ==> b[i] == a[i],
    ensures
        options_from(b, off) == options_from(a, off),
    decreases a.len() - off,
{
    lemma_options_stop_after_start(a, off);
    if off < a.len() && a[off] & 0x1Fu8 != ipv4_option_numbers::EOL {
        assert(b[off] == a[off]);
        let size = a[off + 1];
        lemma_options_stop_after_start(a, off + size);
        assert(b[off + 1] == a[off + 1]);
        lemma_options_from_ignores_rest(a, b, off + size);
        assert(b.subrange(off + 2, off + size) =~= a.subrange(off + 2, off + size));
        assert(ip_option_at(b, off) == ip_option_at(a, off));
    } else if off < a.len() {
        assert(b[off] == a[off]);
    }
}

/// Padding after the end-of-list entry that ends an options region does not
/// change what the region holds: a region of the same length that agrees
/// with `s` up to and including the place where its walk stops holds the same
/// options.
pub proof fn lemma_options_padding_ignored(s: Seq<u8>, t: Seq<u8>)
    requires
        s.len() == t.len(),
        options_of(s) is Ok,
        forall|i: int| 0 <= i <= options_stop(s, 0) && i < s.len() ==> t[i] == s[i],
    ensures
        options_of(t) == options_of(s),
{
    lemma_options_from_ignores_rest(s, t, 0);
}

/// The walk over an options region fails, where it does, with `InvalidOptions`.
pub proof fn lemma_options_from_error(s: Seq<u8>, off: int)
    ensures
        options_from(s, off) matches Err(e) ==> e == DecodeError::InvalidOptions,
    decreases s.len() - off,
{
    if 0 <= off < s.len() && off + 2 <= s.len() && s[off + 1] >= 2 && off + s[off + 1] <= s.len() {
        lemma_options_from_error(s, off + s[off + 1]);
    }
}

/// An options region whose length is not a multiple of four fails with
/// `InvalidOptions`; one that opens with an end-of-list entry holds no
/// options, whatever padding follows it.
pub proof fn lemma_options_region_shape(s: Seq<u8>)
    ensures
        s.len() % 4 != 0 ==> options_of(s) == Err::<Option<Seq<IpOptionSpec>>, DecodeError>(
            DecodeError::InvalidOptions,
        ),
        s.len() % 4 == 0 && s.len() > 0 && s[0] & 0x1Fu8 == ipv4_option_numbers::EOL ==> options_of(s)
            == Ok::<Option<Seq<IpOptionSpec>>, DecodeError>(None),
{
}

/// The header length field, the low four bits of the first byte, is at most
/// fifteen words. Under five words the header fails with
/// `InvalidHeaderLength`; from five words on, where the header fits in `s`,
/// it does not fail on its length, and it decodes where it has no options:
/// five words, or an options region that opens with an end-of-list entry.
pub proof fn lemma_ipv4_header_length_bounds(s: Seq<u8>)
    requires
        s.len() >= 20,
    ensures
        s[0] & 0x0Fu8 <= 15,
        s[0] & 0x0Fu8 < 5 ==> ipv4_header_of(s) == Err::<IpV4HeaderSpec, DecodeError>(
            DecodeError::InvalidHeaderLength,
        ),
        5 <= s[0] & 0x0Fu8 && (s[0] & 0x0Fu8) * 4 <= s.len() ==> ipv4_header_of(s) != Err::<
            IpV4HeaderSpec,
            DecodeError,
        >(DecodeError::InvalidHeaderLength),
        5 <= s[0] & 0x0Fu8 && (s[0] & 0x0Fu8) * 4 <= s.len() && (s[0] & 0x0Fu8 == 5 || s[20] & 0x1Fu8
            == ipv4_option_numbers::EOL) ==> ipv4_header_of(s) is Ok,
{
    let b = s[0];
    assert(b & 0x0Fu8 <= 15) by (bit_vector);
    let hl = b & 0x0Fu8;
    if 5 < hl && hl * 4 <= s.len() {
        let region = s.subrange(20, hl * 4);
        assert(region.len() == 4 * (hl - 5));
        assert(region.len() % 4 == 0);
        lemma_options_region_shape(region);
        lemma_options_from_error(region, 0);
    }
}

impl<'a> IpV4Header<'a> {
    /// Decodes the IPv4 header at the start of `buf`, with its options.
    pub fn parse(buf: &'a [u8]) -> (r: Result<IpV4Header<'a>, DecodeError>)
        ensures
            result_view(r) == ipv4_header_of(buf@),
    {
        if buf.len() < 20 {
            return Err(DecodeError::TooShort);
        }
        let version = buf[0] >> 4u8;
        let hdr_length = buf[0] & 0x0Fu8;
        if hdr_length < 5 || hdr_length > 15 {
            return Err(DecodeError::InvalidHeaderLength);
        }
        if hdr_length as usize * 4 > buf.len() {
            return Err(DecodeError::InvalidHeaderLength);
        }
        let dscp = buf[1] >> 2u8;
        let ecn = buf[1] & 3u8;
        let packet_length = u16_parse(slice_subrange(buf, 2, 4));
        let id = u16_parse(slice_subrange(buf, 4, 6));
        let flags = buf[6] >> 5u8;
        let offset = u16_parse(slice_subrange(buf, 6, 8)) & 0x1FFFu16;
        let ttl = buf[8];
        let protocol = IpNextHeaderProtocol(buf[9]);
        let crc = u16_parse(slice_subrange(buf, 10, 12));
        let options = if hdr_length > 5 {
            match parse_options(slice_subrange(buf, 20, hdr_length as usize * 4)) {
                Ok(x) => x,
                Err(e) => return Err(e),
            }
        } else {
            None
        };
        Ok(IpV4Header {
            version,
            hdr_length,
            dscp,
            ecn,
            packet_length,
            id,
            flags,
            offset,
            ttl,
            protocol,
            crc,
            src_ip: slice_subrange(buf, 12, 16),
            dst_ip: slice_subrange(buf, 16, 20),
            options,
        })
    }
}

impl<'a> IpV4Packet<'a> {
    /// Decodes the IPv4 header in `payload`, the bytes after the EtherType,
    /// and puts it together with the layers already decoded before it.
    pub fn from_parts(eth_header: EthHeader<'a>, vlans: Option<Vec<Vlan>>, payload: &'a [u8]) -> (r:
        Result<IpV4Packet<'a>, DecodeError>)
        ensures
            r is Ok <==> ipv4_header_of(payload@) is Ok,
            r matches Ok(p) ==> {
                &&& p.eth_header == eth_header
                &&& p.vlans == vlans
                &&& p.ip_hdr@ == ipv4_header_of(payload@)->Ok_0
            },
            r matches Err(e) ==> e == ipv4_header_of(payload@)->Err_0,
    {
        match IpV4Header::parse(payload) {
            Ok(ip_hdr) => Ok(IpV4Packet { eth_header, vlans, ip_hdr }),
            Err(e) => Err(e),
        }
    }

    /// Decodes a whole frame as an IPv4 packet.
    pub fn from_frame(buf: &'a [u8]) -> (r: Result<IpV4Packet<'a>, DecodeError>)
        ensures
            result_view(r) == ipv4_packet_of(buf@),
    {
        let (eth_header, vlans, ethertype, payload) = match split_frame(buf) {
            Ok(parts) => parts,
            Err(e) => return Err(e),
        };
        if ethertype.0 != ether_types::Ipv4 {
            return Err(DecodeError::NotIpv4);
        }
        IpV4Packet::from_parts(eth_header, vlans, payload)
    }
}

/// The exact contract of the conversion is the `ensures` of `try_from`.
/// The spec value names a decoded record by its view only: a record holds a
/// vector, and two vectors with the same elements are not known to be equal,
/// so the conversion does not claim to return that one chosen record.
impl<'a> vstd::std_specs::convert::TryFromSpecImpl<(EthHeader<'a>, Option<Vec<Vlan>>, &'a [u8])> for IpV4Packet<'a> {
    open spec fn obeys_try_from_spec() -> bool {
        false
    }

    open spec fn try_from_spec(src: (EthHeader<'a>, Option<Vec<Vlan>>, &'a [u8])) -> Result<IpV4Packet<'a>, DecodeError> {
        match ipv4_header_of(src.2@) {
            Ok(h) => Ok(
                IpV4Packet { eth_header: src.0, vlans: src.1, ip_hdr: choose|x: IpV4Header<'a>| x@ == h },
            ),
            Err(e) => Err(e),
        }
    }
}

impl<'a> TryFrom<&'a [u8]> for IpV4Header<'a> {
    type Error = DecodeError;

    fn try_from(buf: &'a [u8]) -> (r: Result<IpV4Header<'a>, DecodeError>)
        ensures
            result_view(r) == ipv4_header_of(buf@),
    {
        IpV4Header::parse(buf)
    }
}

/// The exact contract of the conversion is the `ensures` of `try_from`.
/// The spec value names a decoded record by its view only: a record holds a
/// vector, and two vectors with the same elements are not known to be equal,
/// so the conversion does not claim to return that one chosen record.
impl<'a> vstd::std_specs::convert::TryFromSpecImpl<&'a [u8]> for IpV4Header<'a> {
    open spec fn obeys_try_from_spec() -> bool {
        false
    }

    open spec fn try_from_spec(buf: &'a [u8]) -> Result<IpV4Header<'a>, DecodeError> {
        match ipv4_header_of(buf@) {
            Ok(v) => Ok(choose|x: IpV4Header<'a>| x@ == v),
            Err(e) => Err(e),
        }
    }
}


impl<'a> TryFrom<&'a [u8]> for IpV4Packet<'a> {
    type Error = DecodeError;

    fn try_from(buf: &'a [u8]) -> (r: Result<IpV4Packet<'a>, DecodeError>)
        ensures
            result_view(r) == ipv4_packet_of(buf@),
    {
        IpV4Packet::from_frame(buf)
    }
}

/// The exact contract of the conversion is the `ensures` of `try_from`.
/// The spec value names a decoded record by its view only: a record holds a
/// vector, and two vectors with the same elements are not known to be equal,
/// so the conversion does not claim to return that one chosen record.
impl<'a> vstd::std_specs::convert::TryFromSpecImpl<&'a [u8]> for IpV4Packet<'a> {
    open spec fn obeys_try_from_spec() -> bool {
        false
    }

    open spec fn try_from_spec(buf: &'a [u8]) -> Result<IpV4Packet<'a>, DecodeError> {
        match ipv4_packet_of(buf@) {
            Ok(v) => Ok(choose|x: IpV4Packet<'a>| x@ == v),
            Err(e) => Err(e),
        }
    }
}


impl<'a> TryFrom<(EthHeader<'a>, Option<Vec<Vlan>>, &'a [u8])> for IpV4Packet<'a> {
    type Error = DecodeError;

    fn try_from(src: (EthHeader<'a>, Option<Vec<Vlan>>, &'a [u8])) -> (r: Result<IpV4Packet<'a>, DecodeError>)
        ensures
            r is Ok <==> ipv4_header_of(src.2@) is Ok,
            r matches Ok(p) ==> {
                &&& p.eth_header == src.0
                &&& p.vlans == src.1
                &&& p.ip_hdr@ == ipv4_header_of(src.2@)->Ok_0
            },
            r matches Err(e) ==> e == ipv4_header_of(src.2@)->Err_0,
    {
        let (eth_header, vlans, payload) = src;
        IpV4Packet::from_parts(eth_header, vlans, payload)
    }
}


} // verus!
