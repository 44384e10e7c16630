//! The extended-details block of a link record: counters, offload limits,
//! the IPv6 address-generation mode, parent bus and device names, and the
//! nested link-info block.

use vstd::prelude::*;
use vstd::string::StrSliceExecFns;
use vstd::string::StringExecFns;

use crate::error::CliError;
use crate::jsonfmt::json_str;
use crate::jsonfmt::push_json_str;
use crate::link_info::combined_json;
use crate::link_info::combined_of;
use crate::link_info::combined_text;
use crate::link_info::CliLinkInfoCombined;
use crate::link_info::CombinedView;
use crate::names::addr_gen_mode_string;
use crate::names::addr_gen_mode_text;
use crate::rawdec::decode_raw;
use crate::rawdec::is_raw_str_kind;
use crate::rawdec::nul_str_ok;
use crate::rawdec::raw_decoded;
use crate::rawdec::RawValue;
use crate::rawdec::RawValueV;
use crate::rawdec::KIND_ALLMULTI;
use crate::rawdec::KIND_GRO_IPV4_MAX_SIZE;
use crate::rawdec::KIND_GRO_MAX_SIZE;
use crate::rawdec::KIND_GSO_IPV4_MAX_SIZE;
use crate::rawdec::KIND_PARENT_DEV_BUS_NAME;
use crate::rawdec::KIND_PARENT_DEV_NAME;
use crate::rawdec::KIND_TSO_MAX_SEGS;
use crate::rawdec::KIND_TSO_MAX_SIZE;
use crate::textfmt::dec_nat;
use crate::textfmt::push_dec_u64;
use crate::wire::AfSpecInet6;
use crate::wire::AfSpecUnspec;
use crate::wire::LinkAttribute;

verus! {

/// The extended-details block of one link record.
pub struct CliLinkInfoDetails {
    pub promiscuity: u32,
    pub allmulti: u32,
    pub min_mtu: u32,
    pub max_mtu: u32,
    pub linkinfo: Option<CliLinkInfoCombined>,
    pub inet6_addr_gen_mode: String,
    pub num_tx_queues: u32,
    pub num_rx_queues: u32,
    pub gso_max_size: u32,
    pub gso_max_segs: u32,
    pub tso_max_size: u32,
    pub tso_max_segs: u32,
    pub gro_max_size: u32,
    pub gso_ipv4_max_size: u32,
    pub gro_ipv4_max_size: u32,
    pub parentbus: String,
    pub parentdev: String,
}

/// The ghost image of [`CliLinkInfoDetails`].
#[verifier::ext_equal]
pub ghost struct DetailsView {
    pub promiscuity: u32,
    pub allmulti: u32,
    pub min_mtu: u32,
    pub max_mtu: u32,
    pub linkinfo: Option<CombinedView>,
    pub inet6_addr_gen_mode: Seq<char>,
    pub num_tx_queues: u32,
    pub num_rx_queues: u32,
    pub gso_max_size: u32,
    pub gso_max_segs: u32,
    pub tso_max_size: u32,
    pub tso_max_segs: u32,
    pub gro_max_size: u32,
    pub gso_ipv4_max_size: u32,
    pub gro_ipv4_max_size: u32,
    pub parentbus: Seq<char>,
    pub parentdev: Seq<char>,
}

impl View for CliLinkInfoDetails {
    type V = DetailsView;

    open spec fn view(&self) -> DetailsView {
        DetailsView {
            promiscuity: self.promiscuity,
            allmulti: self.allmulti,
            min_mtu: self.min_mtu,
            max_mtu: self.max_mtu,
            linkinfo: match self.linkinfo {
                Some(c) => Some(c@),
                None => None,
            },
            inet6_addr_gen_mode: self.inet6_addr_gen_mode@,
            num_tx_queues: self.num_tx_queues,
            num_rx_queues: self.num_rx_queues,
            gso_max_size: self.gso_max_size,
            gso_max_segs: self.gso_max_segs,
            tso_max_size: self.tso_max_size,
            tso_max_segs: self.tso_max_segs,
            gro_max_size: self.gro_max_size,
            gso_ipv4_max_size: self.gso_ipv4_max_size,
            gro_ipv4_max_size: self.gro_ipv4_max_size,
            parentbus: self.parentbus@,
            parentdev: self.parentdev@,
        }
    }
}

// ---------------------------------------------------------------------------
// Address-generation mode extraction
// ---------------------------------------------------------------------------

/// The first address-generation mode within one IPv6 sub-list, from
/// position `i` on.
pub open spec fn first_agm_from(s: Seq<AfSpecInet6>, i: int) -> Option<u8>
    decreases s.len() - i,
{
    if i < 0 || i >= s.len() {
        None
    } else {
        match s[i] {
            AfSpecInet6::AddrGenMode(m) => Some(m),
            _ => first_agm_from(s, i + 1),
        }
    }
}

/// The address-generation mode text recovered from the per-family entries
/// from position `i` on: the first IPv6 entry that carries a mode decides;
/// without one the text is empty.
pub open spec fn addr_gen_mode_from(s: Seq<AfSpecUnspec>, i: int) -> Seq<char>
    decreases s.len() - i,
{
    if i < 0 || i >= s.len() {
        Seq::<char>::empty()
    } else {
        match s[i] {
            AfSpecUnspec::Inet6(v) => match first_agm_from(v@, 0) {
                Some(m) => addr_gen_mode_text(m),
                None => addr_gen_mode_from(s, i + 1),
            },
            _ => addr_gen_mode_from(s, i + 1),
        }
    }
}

/// The address-generation mode text of a whole per-family attribute.
pub open spec fn addr_gen_mode_of(s: Seq<AfSpecUnspec>) -> Seq<char> {
    addr_gen_mode_from(s, 0)
}

/// The first address-generation mode of one IPv6 sub-list.
fn first_agm(v: &[AfSpecInet6], i: usize) -> (r: Option<u8>)
    requires
        i <= v@.len(),
    ensures
        r == first_agm_from(v@, i as int),
    decreases v@.len() - i,
{
    if i >= v.len() {
        None
    } else {
        match &v[i] {
            AfSpecInet6::AddrGenMode(m) => Some(*m),
            _ => first_agm(v, i + 1),
        }
    }
}

/// Recovers the address-generation mode text from the per-family entries.
pub fn get_addr_gen_mode(af_spec_unspec: &[AfSpecUnspec]) -> (r: String)
    ensures
        r@ == addr_gen_mode_of(af_spec_unspec@),
{
    get_addr_gen_mode_from(af_spec_unspec, 0)
}

fn get_addr_gen_mode_from(s: &[AfSpecUnspec], i: usize) -> (r: String)
    requires
        i <= s@.len(),
    ensures
        r@ == addr_gen_mode_from(s@, i as int),
    decreases s@.len() - i,
{
    if i >= s.len() {
        String::new()
    } else {
        match &s[i] {
            AfSpecUnspec::Inet6(v) => match first_agm(v.as_slice(), 0) {
                Some(m) => addr_gen_mode_string(m),
                None => get_addr_gen_mode_from(s, i + 1),
            },
            _ => get_addr_gen_mode_from(s, i + 1),
        }
    }
}

// ---------------------------------------------------------------------------
// Decode
// ---------------------------------------------------------------------------

/// The empty details block every decode starts from.
pub open spec fn details_init() -> DetailsView {
    DetailsView {
        promiscuity: 0,
        allmulti: 0,
        min_mtu: 0,
        max_mtu: 0,
        linkinfo: None,
        inet6_addr_gen_mode: Seq::<char>::empty(),
        num_tx_queues: 0,
        num_rx_queues: 0,
        gso_max_size: 0,
        gso_max_segs: 0,
        tso_max_size: 0,
        tso_max_segs: 0,
        gro_max_size: 0,
        gso_ipv4_max_size: 0,
        gro_ipv4_max_size: 0,
        parentbus: Seq::<char>::empty(),
        parentdev: Seq::<char>::empty(),
    }
}

/// One decode step over the details block; raw extension kinds go through
/// the fallback table, and a malformed payload decodes to nothing here (the
/// executable decoder reports it as an error instead).
pub open spec fn details_step(acc: DetailsView, a: LinkAttribute) -> DetailsView {
    match a {
        LinkAttribute::Promiscuity(p) => DetailsView { promiscuity: p, ..acc },
        LinkAttribute::MinMtu(m) => DetailsView { min_mtu: m, ..acc },
        LinkAttribute::MaxMtu(m) => DetailsView { max_mtu: m, ..acc },
        LinkAttribute::AfSpecUnspec(s) => DetailsView {
            inet6_addr_gen_mode: addr_gen_mode_of(s@),
            ..acc
        },
        LinkAttribute::NumTxQueues(n) => DetailsView { num_tx_queues: n, ..acc },
        LinkAttribute::NumRxQueues(n) => DetailsView { num_rx_queues: n, ..acc },
        LinkAttribute::GsoMaxSize(g) => DetailsView { gso_max_size: g, ..acc },
        LinkAttribute::GsoMaxSegs(g) => DetailsView { gso_max_segs: g, ..acc },
        LinkAttribute::LinkInfo(info) => DetailsView { linkinfo: Some(combined_of(info@)), ..acc },
        LinkAttribute::Other(kind, payload) => details_raw_step(acc, kind, payload@),
        _ => acc,
    }
}

/// The decode step for a raw extension attribute of the details block.
pub open spec fn details_raw_step(acc: DetailsView, kind: u16, payload: Seq<u8>) -> DetailsView {
    if kind == KIND_PARENT_DEV_BUS_NAME {
        match raw_decoded(kind, payload) {
            Some(RawValueV::Text(t)) => DetailsView { parentbus: t, ..acc },
            _ => acc,
        }
    } else if kind == KIND_PARENT_DEV_NAME {
        match raw_decoded(kind, payload) {
            Some(RawValueV::Text(t)) => DetailsView { parentdev: t, ..acc },
            _ => acc,
        }
    } else if kind == KIND_GRO_MAX_SIZE {
        match raw_decoded(kind, payload) {
            Some(RawValueV::Uint32(v)) => DetailsView { gro_max_size: v, ..acc },
            _ => acc,
        }
    } else if kind == KIND_TSO_MAX_SIZE {
        match raw_decoded(kind, payload) {
            Some(RawValueV::Uint32(v)) => DetailsView { tso_max_size: v, ..acc },
            _ => acc,
        }
    } else if kind == KIND_TSO_MAX_SEGS {
        match raw_decoded(kind, payload) {
            Some(RawValueV::Uint32(v)) => DetailsView { tso_max_segs: v, ..acc },
            _ => acc,
        }
    } else if kind == KIND_ALLMULTI {
        match raw_decoded(kind, payload) {
            Some(RawValueV::Uint32(v)) => DetailsView { allmulti: v, ..acc },
            _ => acc,
        }
    } else if kind == KIND_GSO_IPV4_MAX_SIZE {
        match raw_decoded(kind, payload) {
            Some(RawValueV::Uint32(v)) => DetailsView { gso_ipv4_max_size: v, ..acc },
            _ => acc,
        }
    } else if kind == KIND_GRO_IPV4_MAX_SIZE {
        match raw_decoded(kind, payload) {
            Some(RawValueV::Uint32(v)) => DetailsView { gro_ipv4_max_size: v, ..acc },
            _ => acc,
        }
    } else {
        acc
    }
}

/// The decode of a whole attribute list into the details block.
pub open spec fn details_fold(s: Seq<LinkAttribute>) -> DetailsView
    decreases s.len(),
{
    if s.len() == 0 {
        details_init()
    } else {
        details_step(details_fold(s.drop_last()), s.last())
    }
}

/// True of an attribute that carries a malformed parent-name payload.
pub open spec fn is_malformed_parent(a: LinkAttribute) -> bool {
    a matches LinkAttribute::Other(kind, payload) && is_raw_str_kind(kind) && !nul_str_ok(payload@)
}

/// True when some attribute carries a malformed parent-name payload, which
/// is fatal to the decode.
pub open spec fn details_err(s: Seq<LinkAttribute>) -> bool {
    exists|i: int| 0 <= i < s.len() && #[trigger] is_malformed_parent(s[i])
}

impl CliLinkInfoDetails {
    /// Decodes the details block from a top-level attribute list; a
    /// malformed parent-name payload is the one fatal condition.
    pub fn new(nl_attrs: &[LinkAttribute]) -> (r: Result<Self, CliError>)
        ensures
            r is Err <==> details_err(nl_attrs@),
            r matches Ok(d) ==> d@ == details_fold(nl_attrs@),
    {
        let mut r = details_zeroed();
        assert(r@ =~= details_fold(nl_attrs@.take(0)));
        let n: usize = nl_attrs.len();
        let mut i: usize = 0;
        while i < n
            invariant
                i <= n,
                n == nl_attrs@.len(),
                r@ == details_fold(nl_attrs@.take(i as int)),
                forall|j: int| 0 <= j < i ==> !#[trigger] is_malformed_parent(nl_attrs@[j]),
            decreases n - i,
        {
            match details_apply(&mut r, &nl_attrs[i]) {
                Ok(()) => {},
                Err(e) => {
                    assert(details_err(nl_attrs@));
                    return Err(e);
                },
            }
            proof {
                let t = nl_attrs@.take(i + 1 as int);
                assert(t.drop_last() =~= nl_attrs@.take(i as int));
                assert(t.last() == nl_attrs@[i as int]);
            }
            i = i + 1;
        }
        assert(nl_attrs@.take(n as int) =~= nl_attrs@);
        Ok(r)
    }
}

/// The empty details block.
fn details_zeroed() -> (r: CliLinkInfoDetails)
    ensures
        r@ == details_init(),
{
    let r = CliLinkInfoDetails {
        promiscuity: 0,
        allmulti: 0,
        min_mtu: 0,
        max_mtu: 0,
        linkinfo: None,
        inet6_addr_gen_mode: String::new(),
        num_tx_queues: 0,
        num_rx_queues: 0,
        gso_max_size: 0,
        gso_max_segs: 0,
        tso_max_size: 0,
        tso_max_segs: 0,
        gro_max_size: 0,
        gso_ipv4_max_size: 0,
        gro_ipv4_max_size: 0,
        parentbus: String::new(),
        parentdev: String::new(),
    };
    assert(r@ =~= details_init());
    r
}

/// Applies one attribute to the details block; `Err` reports a malformed
/// parent-name payload.
#[verifier::rlimit(100)]
fn details_apply(r: &mut CliLinkInfoDetails, a: &LinkAttribute) -> (res: Result<(), CliError>)
    ensures
        res is Ok ==> final(r)@ == details_step(old(r)@, *a),
        res is Err <==> is_malformed_parent(*a),
{
    let ghost prev = r@;
    match a {
        LinkAttribute::Promiscuity(p) => {
            r.promiscuity = *p;
        },
        LinkAttribute::MinMtu(m) => {
            r.min_mtu = *m;
        },
        LinkAttribute::MaxMtu(m) => {
            r.max_mtu = *m;
        },
        LinkAttribute::AfSpecUnspec(s) => {
            r.inet6_addr_gen_mode = get_addr_gen_mode(s.as_slice());
        },
        LinkAttribute::NumTxQueues(n) => {
            r.num_tx_queues = *n;
        },
        LinkAttribute::NumRxQueues(n) => {
            r.num_rx_queues = *n;
        },
        LinkAttribute::GsoMaxSize(g) => {
            r.gso_max_size = *g;
        },
        LinkAttribute::GsoMaxSegs(g) => {
            r.gso_max_segs = *g;
        },
        LinkAttribute::LinkInfo(info) => {
            r.linkinfo = Some(CliLinkInfoCombined::new(info.as_slice()));
        },
        LinkAttribute::Other(kind, payload) => {
            let res = details_apply_raw(r, *kind, payload.as_slice());
            if let Err(e) = res {
                return Err(e);
            }
        },
        _ => {},
    }
    assert(final(r)@ == details_step(prev, *a));
    Ok(())
}

/// Applies one raw extension attribute through the fallback decoder.
#[verifier::rlimit(100)]
fn details_apply_raw(r: &mut CliLinkInfoDetails, kind: u16, payload: &[u8]) -> (res: Result<
    (),
    CliError,
>)
    ensures
        res is Ok ==> final(r)@ == details_raw_step(old(r)@, kind, payload@),
        res is Err <==> (is_raw_str_kind(kind) && !nul_str_ok(payload@)),
{
    let ghost prev = r@;
    if kind == KIND_PARENT_DEV_BUS_NAME || kind == KIND_PARENT_DEV_NAME || kind
        == KIND_GRO_MAX_SIZE || kind == KIND_TSO_MAX_SIZE || kind == KIND_TSO_MAX_SEGS || kind
        == KIND_ALLMULTI || kind == KIND_GSO_IPV4_MAX_SIZE || kind == KIND_GRO_IPV4_MAX_SIZE {
        match decode_raw(kind, payload) {
            Ok(Some(RawValue::Text(t))) => {
                if kind == KIND_PARENT_DEV_BUS_NAME {
                    r.parentbus = t;
                } else {
                    r.parentdev = t;
                }
            },
            Ok(Some(RawValue::Uint32(v))) => {
                if kind == KIND_GRO_MAX_SIZE {
                    r.gro_max_size = v;
                } else if kind == KIND_TSO_MAX_SIZE {
                    r.tso_max_size = v;
                } else if kind == KIND_TSO_MAX_SEGS {
                    r.tso_max_segs = v;
                } else if kind == KIND_ALLMULTI {
                    r.allmulti = v;
                } else if kind == KIND_GSO_IPV4_MAX_SIZE {
                    r.gso_ipv4_max_size = v;
                } else {
                    r.gro_ipv4_max_size = v;
                }
            },
            Ok(Some(RawValue::BoolByte(_))) => {},
            Ok(None) => {},
            Err(e) => {
                return Err(e);
            },
        }
    }
    assert(final(r)@ == details_raw_step(prev, kind, payload@));
    Ok(())
}

// ---------------------------------------------------------------------------
// Rendering
// ---------------------------------------------------------------------------

/// The compatibility text image of the details block, built segment by
/// segment.
pub open spec fn details_text(v: DetailsView) -> Seq<char> {
    details_text_c(details_text_b(details_text_a(Seq::<char>::empty(), v), v), v)
}

/// Counters and the nested link-info block.
pub open spec fn details_text_a(p: Seq<char>, v: DetailsView) -> Seq<char> {
    p + " promiscuity "@ + dec_nat(v.promiscuity as nat) + " allmulti "@ + dec_nat(
        v.allmulti as nat,
    ) + " minmtu "@ + dec_nat(v.min_mtu as nat) + " maxmtu "@ + dec_nat(v.max_mtu as nat) + " "@ + (
    match v.linkinfo {
        Some(c) => combined_text(c),
        None => Seq::<char>::empty(),
    })
}

/// Queueing and offload limits.
pub open spec fn details_text_b(p: Seq<char>, v: DetailsView) -> Seq<char> {
    p + "addrgenmode "@ + v.inet6_addr_gen_mode + " numtxqueues "@ + dec_nat(
        v.num_tx_queues as nat,
    ) + " numrxqueues "@ + dec_nat(v.num_rx_queues as nat) + " gso_max_size "@ + dec_nat(
        v.gso_max_size as nat,
    ) + " gso_max_segs "@ + dec_nat(v.gso_max_segs as nat) + " tso_max_size "@ + dec_nat(
        v.tso_max_size as nat,
    ) + " tso_max_segs "@ + dec_nat(v.tso_max_segs as nat) + " gro_max_size "@ + dec_nat(
        v.gro_max_size as nat,
    ) + " gso_ipv4_max_size "@ + dec_nat(v.gso_ipv4_max_size as nat) + " gro_ipv4_max_size "@
        + dec_nat(v.gro_ipv4_max_size as nat) + " "@
}

/// The optional parent bus and device names.
pub open spec fn details_text_c(p: Seq<char>, v: DetailsView) -> Seq<char> {
    p + (if v.parentbus.len() > 0 {
        "parentbus "@ + v.parentbus + " "@
    } else {
        Seq::<char>::empty()
    }) + (if v.parentdev.len() > 0 {
        "parentdev "@ + v.parentdev + " "@
    } else {
        Seq::<char>::empty()
    })
}

/// The JSON members of the details block, rendered inline into the link
/// object (no braces of their own), each with its leading comma.
pub open spec fn details_json_body(v: DetailsView) -> Seq<char> {
    details_json_c(details_json_b(details_json_a(Seq::<char>::empty(), v), v), v)
}

/// Counters and the nested link-info member.
pub open spec fn details_json_a(p: Seq<char>, v: DetailsView) -> Seq<char> {
    p + ",\"promiscuity\":"@ + dec_nat(v.promiscuity as nat) + ",\"allmulti\":"@ + dec_nat(
        v.allmulti as nat,
    ) + ",\"min_mtu\":"@ + dec_nat(v.min_mtu as nat) + ",\"max_mtu\":"@ + dec_nat(v.max_mtu as nat)
        + (match v.linkinfo {
        Some(c) => ",\"linkinfo\":"@ + combined_json(c),
        None => Seq::<char>::empty(),
    }) + (if v.inet6_addr_gen_mode.len() > 0 {
        ",\"inet6_addr_gen_mode\":"@ + json_str(v.inet6_addr_gen_mode)
    } else {
        Seq::<char>::empty()
    })
}

/// Queueing and offload limits.
pub open spec fn details_json_b(p: Seq<char>, v: DetailsView) -> Seq<char> {
    p + ",\"num_tx_queues\":"@ + dec_nat(v.num_tx_queues as nat) + ",\"num_rx_queues\":"@ + dec_nat(
        v.num_rx_queues as nat,
    ) + ",\"gso_max_size\":"@ + dec_nat(v.gso_max_size as nat) + ",\"gso_max_segs\":"@ + dec_nat(
        v.gso_max_segs as nat,
    ) + ",\"tso_max_size\":"@ + dec_nat(v.tso_max_size as nat) + ",\"tso_max_segs\":"@ + dec_nat(
        v.tso_max_segs as nat,
    ) + ",\"gro_max_size\":"@ + dec_nat(v.gro_max_size as nat) + ",\"gso_ipv4_max_size\":"@
        + dec_nat(v.gso_ipv4_max_size as nat) + ",\"gro_ipv4_max_size\":"@ + dec_nat(
        v.gro_ipv4_max_size as nat,
    )
}

/// The optional parent bus and device members.
pub open spec fn details_json_c(p: Seq<char>, v: DetailsView) -> Seq<char> {
    p + (if v.parentbus.len() > 0 {
        ",\"parentbus\":"@ + json_str(v.parentbus)
    } else {
        Seq::<char>::empty()
    }) + (if v.parentdev.len() > 0 {
        ",\"parentdev\":"@ + json_str(v.parentdev)
    } else {
        Seq::<char>::empty()
    })
}

impl CliLinkInfoDetails {
    /// The compatibility text form.
    pub fn gen_string(&self) -> (r: String)
        ensures
            r@ == details_text(self@),
    {
        let mut out = String::new();
        self.push_text_a(&mut out);
        self.push_text_b(&mut out);
        self.push_text_c(&mut out);
        out
    }

    fn push_text_a(&self, out: &mut String)
        ensures
            final(out)@ == details_text_a(old(out)@, self@),
    {
        out.append(" promiscuity ");
        push_dec_u64(out, self.promiscuity as u64);
        out.append(" allmulti ");
        push_dec_u64(out, self.allmulti as u64);
        out.append(" minmtu ");
        push_dec_u64(out, self.min_mtu as u64);
        out.append(" maxmtu ");
        push_dec_u64(out, self.max_mtu as u64);
        out.append(" ");
        let chunk = self.linkinfo_text_chunk();
        out.append(chunk.as_str());
    }

    /// The text of the nested link-info block, empty when absent.
    fn linkinfo_text_chunk(&self) -> (r: String)
        ensures
            r@ == (match self@.linkinfo {
                Some(c) => combined_text(c),
                None => Seq::<char>::empty(),
            }),
    {
        match &self.linkinfo {
            Some(c) => c.gen_string(),
            None => String::new(),
        }
    }

    fn push_text_b(&self, out: &mut String)
        ensures
            final(out)@ == details_text_b(old(out)@, self@),
    {
        out.append("addrgenmode ");
        out.append(self.inet6_addr_gen_mode.as_str());
        out.append(" numtxqueues ");
        push_dec_u64(out, self.num_tx_queues as u64);
        out.append(" numrxqueues ");
        push_dec_u64(out, self.num_rx_queues as u64);
        out.append(" gso_max_size ");
        push_dec_u64(out, self.gso_max_size as u64);
        out.append(" gso_max_segs ");
        push_dec_u64(out, self.gso_max_segs as u64);
        out.append(" tso_max_size ");
        push_dec_u64(out, self.tso_max_size as u64);
        out.append(" tso_max_segs ");
        push_dec_u64(out, self.tso_max_segs as u64);
        out.append(" gro_max_size ");
        push_dec_u64(out, self.gro_max_size as u64);
        out.append(" gso_ipv4_max_size ");
        push_dec_u64(out, self.gso_ipv4_max_size as u64);
        out.append(" gro_ipv4_max_size ");
        push_dec_u64(out, self.gro_ipv4_max_size as u64);
        out.append(" ");
    }

    fn push_text_c(&self, out: &mut String)
        ensures
            final(out)@ == details_text_c(old(out)@, self@),
    {
        let bus = self.parent_phrase(true);
        out.append(bus.as_str());
        let dev = self.parent_phrase(false);
        out.append(dev.as_str());
    }

    /// One optional parent phrase: the bus when `bus` holds, the device
    /// otherwise; empty when the name is empty.
    fn parent_phrase(&self, bus: bool) -> (r: String)
        ensures
            bus ==> r@ == (if self@.parentbus.len() > 0 {
                "parentbus "@ + self@.parentbus + " "@
            } else {
                Seq::<char>::empty()
            }),
            !bus ==> r@ == (if self@.parentdev.len() > 0 {
                "parentdev "@ + self@.parentdev + " "@
            } else {
                Seq::<char>::empty()
            }),
    {
        let mut out = String::new();
        if bus {
            if self.parentbus.as_str().unicode_len() > 0 {
                out.append("parentbus ");
                out.append(self.parentbus.as_str());
                out.append(" ");
                assert(out@ =~= "parentbus "@ + self@.parentbus + " "@);
            }
        } else {
            if self.parentdev.as_str().unicode_len() > 0 {
                out.append("parentdev ");
                out.append(self.parentdev.as_str());
                out.append(" ");
                assert(out@ =~= "parentdev "@ + self@.parentdev + " "@);
            }
        }
        out
    }

    /// The JSON members of the block, for inline rendering in the link
    /// object.
    pub fn json_body(&self) -> (r: String)
        ensures
            r@ == details_json_body(self@),
    {
        let mut out = String::new();
        self.push_json_a(&mut out);
        self.push_json_b(&mut out);
        self.push_json_c(&mut out);
        out
    }

    fn push_json_a(&self, out: &mut String)
        ensures
            final(out)@ == details_json_a(old(out)@, self@),
    {
        out.append(",\"promiscuity\":");
        push_dec_u64(out, self.promiscuity as u64);
        out.append(",\"allmulti\":");
        push_dec_u64(out, self.allmulti as u64);
        out.append(",\"min_mtu\":");
        push_dec_u64(out, self.min_mtu as u64);
        out.append(",\"max_mtu\":");
        push_dec_u64(out, self.max_mtu as u64);
        let li = self.linkinfo_json_chunk();
        out.append(li.as_str());
        let agm = self.agm_json_chunk();
        out.append(agm.as_str());
    }

    /// The optional link-info member.
    fn linkinfo_json_chunk(&self) -> (r: String)
        ensures
            r@ == (match self@.linkinfo {
                Some(c) => ",\"linkinfo\":"@ + combined_json(c),
                None => Seq::<char>::empty(),
            }),
    {
        let mut out = String::new();
        if let Some(c) = &self.linkinfo {
            out.append(",\"linkinfo\":");
            let t = c.to_json_string();
            out.append(t.as_str());
            assert(out@ =~= ",\"linkinfo\":"@ + combined_json(c@));
        }
        out
    }

    /// The optional address-generation-mode member.
    fn agm_json_chunk(&self) -> (r: String)
        ensures
            r@ == (if self@.inet6_addr_gen_mode.len() > 0 {
                ",\"inet6_addr_gen_mode\":"@ + json_str(self@.inet6_addr_gen_mode)
            } else {
                Seq::<char>::empty()
            }),
    {
        let mut out = String::new();
        if self.inet6_addr_gen_mode.as_str().unicode_len() > 0 {
            out.append(",\"inet6_addr_gen_mode\":");
            push_json_str(&mut out, self.inet6_addr_gen_mode.as_str());
            assert(out@ =~= ",\"inet6_addr_gen_mode\":"@ + json_str(self@.inet6_addr_gen_mode));
        }
        out
    }

    fn push_json_b(&self, out: &mut String)
        ensures
            final(out)@ == details_json_b(old(out)@, self@),
    {
        out.append(",\"num_tx_queues\":");
        push_dec_u64(out, self.num_tx_queues as u64);
        out.append(",\"num_rx_queues\":");
        push_dec_u64(out, self.num_rx_queues as u64);
        out.append(",\"gso_max_size\":");
        push_dec_u64(out, self.gso_max_size as u64);
        out.append(",\"gso_max_segs\":");
        push_dec_u64(out, self.gso_max_segs as u64);
        out.append(",\"tso_max_size\":");
        push_dec_u64(out, self.tso_max_size as u64);
        out.append(",\"tso_max_segs\":");
        push_dec_u64(out, self.tso_max_segs as u64);
        out.append(",\"gro_max_size\":");
        push_dec_u64(out, self.gro_max_size as u64);
        out.append(",\"gso_ipv4_max_size\":");
        push_dec_u64(out, self.gso_ipv4_max_size as u64);
        out.append(",\"gro_ipv4_max_size\":");
        push_dec_u64(out, self.gro_ipv4_max_size as u64);
    }

    fn push_json_c(&self, out: &mut String)
        ensures
            final(out)@ == details_json_c(old(out)@, self@),
    {
        let bus = self.parent_json_member(true);
        out.append(bus.as_str());
        let dev = self.parent_json_member(false);
        out.append(dev.as_str());
    }

    /// One optional parent member of the JSON object.
    fn parent_json_member(&self, bus: bool) -> (r: String)
        ensures
            bus ==> r@ == (if self@.parentbus.len() > 0 {
                ",\"parentbus\":"@ + json_str(self@.parentbus)
            } else {
                Seq::<char>::empty()
            }),
            !bus ==> r@ == (if self@.parentdev.len() > 0 {
                ",\"parentdev\":"@ + json_str(self@.parentdev)
            } else {
                Seq::<char>::empty()
            }),
    {
        let mut out = String::new();
        if bus {
            if self.parentbus.as_str().unicode_len() > 0 {
                out.append(",\"parentbus\":");
                push_json_str(&mut out, self.parentbus.as_str());
                assert(out@ =~= ",\"parentbus\":"@ + json_str(self@.parentbus));
            }
        } else {
            if self.parentdev.as_str().unicode_len() > 0 {
                out.append(",\"parentdev\":");
                push_json_str(&mut out, self.parentdev.as_str());
                assert(out@ =~= ",\"parentdev\":"@ + json_str(self@.parentdev));
            }
        }
        out
    }
}

} // verus!
