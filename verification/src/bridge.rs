//! Decoding and rendering of a bridge's kind-specific data and of a bridge
//! port's subordinate data.

use vstd::prelude::*;
use vstd::string::StrSliceExecFns;
use vstd::string::StringExecFns;

use crate::jsonfmt::json_str;
use crate::jsonfmt::push_json_str;
use crate::rawdec::decode_raw;
use crate::rawdec::raw_decoded;
use crate::rawdec::RawValue;
use crate::rawdec::RawValueV;
use crate::rawdec::KIND_FDB_MAX_LEARNED;
use crate::rawdec::KIND_FDB_N_LEARNED;
use crate::rawdec::KIND_MST_ENABLED;
use crate::rawdec::KIND_NO_LL_LEARN;
use crate::rawdec::KIND_VLAN_MCAST_SNOOPING;
use crate::names::vlan_protocol_string;
use crate::names::vlan_protocol_text;
use crate::textfmt::bridge_id_text;
use crate::textfmt::dec_nat;
use crate::textfmt::fwd_mask_text;
use crate::textfmt::mac_text;
use crate::textfmt::mac_to_string;
use crate::textfmt::format_bridge_id;
use crate::textfmt::push_dec_u64;
use crate::textfmt::push_fwd_mask;
use crate::textfmt::push_timer;
use crate::textfmt::lemma_assoc3;
use crate::textfmt::lemma_concat_contains;
use crate::textfmt::text_contains;
use crate::textfmt::hex_nat;
use crate::textfmt::timer_text;
use crate::wire::InfoBridge;

verus! {

/// Decoded bridge kind data. Fields that default-print hold plain values;
/// fields whose absence suppresses their phrase hold `Option`s.
pub struct CliLinkInfoDataBridge {
    pub forward_delay: u32,
    pub hello_time: u32,
    pub max_age: u32,
    pub ageing_time: u32,
    pub stp_state: u32,
    pub priority: u16,
    pub vlan_filtering: u8,
    pub vlan_protocol: String,
    pub bridge_id: Option<String>,
    pub root_id: Option<String>,
    pub root_port: u16,
    pub root_path_cost: u32,
    pub topology_change: u8,
    pub topology_change_detected: u8,
    pub hello_timer: u64,
    pub tcn_timer: u64,
    pub topology_change_timer: u64,
    pub gc_timer: u64,
    pub fdb_n_learned: Option<u32>,
    pub fdb_max_learned: Option<u32>,
    pub vlan_default_pvid: u16,
    pub vlan_stats_enabled: Option<u8>,
    pub vlan_stats_per_port: Option<u8>,
    pub group_fwd_mask: u16,
    pub group_addr: String,
    pub mcast_snooping: u8,
    pub no_linklocal_learn: u8,
    pub mcast_vlan_snooping: u8,
    pub mst_enabled: u8,
    pub mcast_router: u8,
    pub mcast_query_use_ifaddr: u8,
    pub mcast_querier: u8,
    pub mcast_hash_elasticity: u32,
    pub mcast_hash_max: u32,
    pub mcast_last_member_cnt: u32,
    pub mcast_startup_query_cnt: u32,
    pub mcast_last_member_intvl: u64,
    pub mcast_membership_intvl: u64,
    pub mcast_querier_intvl: u64,
    pub mcast_query_intvl: u64,
    pub mcast_query_response_intvl: u64,
    pub mcast_startup_query_intvl: u64,
    pub mcast_stats_enabled: Option<u8>,
    pub mcast_igmp_version: Option<u8>,
    pub mcast_mld_version: Option<u8>,
    pub nf_call_iptables: u8,
    pub nf_call_ip6tables: u8,
    pub nf_call_arptables: u8,
}

/// The ghost image of [`CliLinkInfoDataBridge`].
#[verifier::ext_equal]
pub ghost struct BridgeView {
    pub forward_delay: u32,
    pub hello_time: u32,
    pub max_age: u32,
    pub ageing_time: u32,
    pub stp_state: u32,
    pub priority: u16,
    pub vlan_filtering: u8,
    pub vlan_protocol: Seq<char>,
    pub bridge_id: Option<Seq<char>>,
    pub root_id: Option<Seq<char>>,
    pub root_port: u16,
    pub root_path_cost: u32,
    pub topology_change: u8,
    pub topology_change_detected: u8,
    pub hello_timer: u64,
    pub tcn_timer: u64,
    pub topology_change_timer: u64,
    pub gc_timer: u64,
    pub fdb_n_learned: Option<u32>,
    pub fdb_max_learned: Option<u32>,
    pub vlan_default_pvid: u16,
    pub vlan_stats_enabled: Option<u8>,
    pub vlan_stats_per_port: Option<u8>,
    pub group_fwd_mask: u16,
    pub group_addr: Seq<char>,
    pub mcast_snooping: u8,
    pub no_linklocal_learn: u8,
    pub mcast_vlan_snooping: u8,
    pub mst_enabled: u8,
    pub mcast_router: u8,
    pub mcast_query_use_ifaddr: u8,
    pub mcast_querier: u8,
    pub mcast_hash_elasticity: u32,
    pub mcast_hash_max: u32,
    pub mcast_last_member_cnt: u32,
    pub mcast_startup_query_cnt: u32,
    pub mcast_last_member_intvl: u64,
    pub mcast_membership_intvl: u64,
    pub mcast_querier_intvl: u64,
    pub mcast_query_intvl: u64,
    pub mcast_query_response_intvl: u64,
    pub mcast_startup_query_intvl: u64,
    pub mcast_stats_enabled: Option<u8>,
    pub mcast_igmp_version: Option<u8>,
    pub mcast_mld_version: Option<u8>,
    pub nf_call_iptables: u8,
    pub nf_call_ip6tables: u8,
    pub nf_call_arptables: u8,
}

impl View for CliLinkInfoDataBridge {
    type V = BridgeView;

    open spec fn view(&self) -> BridgeView {
        BridgeView {
            forward_delay: self.forward_delay,
            hello_time: self.hello_time,
            max_age: self.max_age,
            ageing_time: self.ageing_time,
            stp_state: self.stp_state,
            priority: self.priority,
            vlan_filtering: self.vlan_filtering,
            vlan_protocol: self.vlan_protocol@,
            bridge_id: self.bridge_id.deep_view(),
            root_id: self.root_id.deep_view(),
            root_port: self.root_port,
            root_path_cost: self.root_path_cost,
            topology_change: self.topology_change,
            topology_change_detected: self.topology_change_detected,
            hello_timer: self.hello_timer,
            tcn_timer: self.tcn_timer,
            topology_change_timer: self.topology_change_timer,
            gc_timer: self.gc_timer,
            fdb_n_learned: self.fdb_n_learned,
            fdb_max_learned: self.fdb_max_learned,
            vlan_default_pvid: self.vlan_default_pvid,
            vlan_stats_enabled: self.vlan_stats_enabled,
            vlan_stats_per_port: self.vlan_stats_per_port,
            group_fwd_mask: self.group_fwd_mask,
            group_addr: self.group_addr@,
            mcast_snooping: self.mcast_snooping,
            no_linklocal_learn: self.no_linklocal_learn,
            mcast_vlan_snooping: self.mcast_vlan_snooping,
            mst_enabled: self.mst_enabled,
            mcast_router: self.mcast_router,
            mcast_query_use_ifaddr: self.mcast_query_use_ifaddr,
            mcast_querier: self.mcast_querier,
            mcast_hash_elasticity: self.mcast_hash_elasticity,
            mcast_hash_max: self.mcast_hash_max,
            mcast_last_member_cnt: self.mcast_last_member_cnt,
            mcast_startup_query_cnt: self.mcast_startup_query_cnt,
            mcast_last_member_intvl: self.mcast_last_member_intvl,
            mcast_membership_intvl: self.mcast_membership_intvl,
            mcast_querier_intvl: self.mcast_querier_intvl,
            mcast_query_intvl: self.mcast_query_intvl,
            mcast_query_response_intvl: self.mcast_query_response_intvl,
            mcast_startup_query_intvl: self.mcast_startup_query_intvl,
            mcast_stats_enabled: self.mcast_stats_enabled,
            mcast_igmp_version: self.mcast_igmp_version,
            mcast_mld_version: self.mcast_mld_version,
            nf_call_iptables: self.nf_call_iptables,
            nf_call_ip6tables: self.nf_call_ip6tables,
            nf_call_arptables: self.nf_call_arptables,
        }
    }
}

/// The zeroed bridge record every decode starts from.
pub open spec fn bridge_init() -> BridgeView {
    BridgeView {
        forward_delay: 0,
        hello_time: 0,
        max_age: 0,
        ageing_time: 0,
        stp_state: 0,
        priority: 0,
        vlan_filtering: 0,
        vlan_protocol: Seq::<char>::empty(),
        bridge_id: None,
        root_id: None,
        root_port: 0,
        root_path_cost: 0,
        topology_change: 0,
        topology_change_detected: 0,
        hello_timer: 0,
        tcn_timer: 0,
        topology_change_timer: 0,
        gc_timer: 0,
        fdb_n_learned: None,
        fdb_max_learned: None,
        vlan_default_pvid: 0,
        vlan_stats_enabled: None,
        vlan_stats_per_port: None,
        group_fwd_mask: 0,
        group_addr: Seq::<char>::empty(),
        mcast_snooping: 0,
        no_linklocal_learn: 0,
        mcast_vlan_snooping: 0,
        mst_enabled: 0,
        mcast_router: 0,
        mcast_query_use_ifaddr: 0,
        mcast_querier: 0,
        mcast_hash_elasticity: 0,
        mcast_hash_max: 0,
        mcast_last_member_cnt: 0,
        mcast_startup_query_cnt: 0,
        mcast_last_member_intvl: 0,
        mcast_membership_intvl: 0,
        mcast_querier_intvl: 0,
        mcast_query_intvl: 0,
        mcast_query_response_intvl: 0,
        mcast_startup_query_intvl: 0,
        mcast_stats_enabled: None,
        mcast_igmp_version: None,
        mcast_mld_version: None,
        nf_call_iptables: 0,
        nf_call_ip6tables: 0,
        nf_call_arptables: 0,
    }
}

/// One decode step over the bridge record; a later attribute of the same
/// kind overwrites an earlier one, and raw extension kinds go through the
/// fallback table.
pub open spec fn bridge_step(acc: BridgeView, a: InfoBridge) -> BridgeView {
    match a {
        InfoBridge::ForwardDelay(v) => BridgeView { forward_delay: v, ..acc },
        InfoBridge::HelloTime(v) => BridgeView { hello_time: v, ..acc },
        InfoBridge::MaxAge(v) => BridgeView { max_age: v, ..acc },
        InfoBridge::AgeingTime(v) => BridgeView { ageing_time: v, ..acc },
        InfoBridge::StpState(v) => BridgeView { stp_state: v, ..acc },
        InfoBridge::Priority(v) => BridgeView { priority: v, ..acc },
        InfoBridge::VlanFiltering(v) => BridgeView {
            vlan_filtering: if v {
                1
            } else {
                0
            },
            ..acc
        },
        InfoBridge::VlanProtocol(v) => BridgeView { vlan_protocol: vlan_protocol_text(v), ..acc },
        InfoBridge::BridgeId(b) => BridgeView {
            bridge_id: Some(bridge_id_text(b.priority, b.address@)),
            ..acc
        },
        InfoBridge::RootId(b) => BridgeView {
            root_id: Some(bridge_id_text(b.priority, b.address@)),
            ..acc
        },
        InfoBridge::RootPort(v) => BridgeView { root_port: v, ..acc },
        InfoBridge::RootPathCost(v) => BridgeView { root_path_cost: v, ..acc },
        InfoBridge::TopologyChange(v) => BridgeView { topology_change: v, ..acc },
        InfoBridge::TopologyChangeDetected(v) => BridgeView {
            topology_change_detected: v,
            ..acc
        },
        InfoBridge::HelloTimer(v) => BridgeView { hello_timer: v, ..acc },
        InfoBridge::TcnTimer(v) => BridgeView { tcn_timer: v, ..acc },
        InfoBridge::TopologyChangeTimer(v) => BridgeView { topology_change_timer: v, ..acc },
        InfoBridge::GcTimer(v) => BridgeView { gc_timer: v, ..acc },
        InfoBridge::GroupFwdMask(v) => BridgeView { group_fwd_mask: v, ..acc },
        InfoBridge::GroupAddr(b) => BridgeView { group_addr: mac_text(b@), ..acc },
        InfoBridge::MulticastRouter(v) => BridgeView { mcast_router: v, ..acc },
        InfoBridge::MulticastSnooping(v) => BridgeView {
            mcast_snooping: if v {
                1
            } else {
                0
            },
            ..acc
        },
        InfoBridge::MulticastQueryUseIfaddr(v) => BridgeView {
            mcast_query_use_ifaddr: if v {
                1
            } else {
                0
            },
            ..acc
        },
        InfoBridge::MulticastQuerier(v) => BridgeView {
            mcast_querier: if v {
                1
            } else {
                0
            },
            ..acc
        },
        InfoBridge::MulticastHashElasticity(v) => BridgeView { mcast_hash_elasticity: v, ..acc },
        InfoBridge::MulticastHashMax(v) => BridgeView { mcast_hash_max: v, ..acc },
        InfoBridge::MulticastLastMemberCount(v) => BridgeView { mcast_last_member_cnt: v, ..acc },
        InfoBridge::MulticastStartupQueryCount(v) => BridgeView {
            mcast_startup_query_cnt: v,
            ..acc
        },
        InfoBridge::MulticastLastMemberInterval(v) => BridgeView {
            mcast_last_member_intvl: v,
            ..acc
        },
        InfoBridge::MulticastMembershipInterval(v) => BridgeView {
            mcast_membership_intvl: v,
            ..acc
        },
        InfoBridge::MulticastQuerierInterval(v) => BridgeView { mcast_querier_intvl: v, ..acc },
        InfoBridge::MulticastQueryInterval(v) => BridgeView { mcast_query_intvl: v, ..acc },
        InfoBridge::MulticastQueryResponseInterval(v) => BridgeView {
            mcast_query_response_intvl: v,
            ..acc
        },
        InfoBridge::MulticastStartupQueryInterval(v) => BridgeView {
            mcast_startup_query_intvl: v,
            ..acc
        },
        InfoBridge::NfCallIpTables(v) => BridgeView {
            nf_call_iptables: if v {
                1
            } else {
                0
            },
            ..acc
        },
        InfoBridge::NfCallIp6Tables(v) => BridgeView {
            nf_call_ip6tables: if v {
                1
            } else {
                0
            },
            ..acc
        },
        InfoBridge::NfCallArpTables(v) => BridgeView {
            nf_call_arptables: if v {
                1
            } else {
                0
            },
            ..acc
        },
        InfoBridge::VlanDefaultPvid(v) => BridgeView { vlan_default_pvid: v, ..acc },
        InfoBridge::VlanStatsEnabled(v) => BridgeView {
            vlan_stats_enabled: Some(
                if v {
                    1
                } else {
                    0
                },
            ),
            ..acc
        },
        InfoBridge::VlanStatsPerPort(v) => BridgeView {
            vlan_stats_per_port: Some(
                if v {
                    1
                } else {
                    0
                },
            ),
            ..acc
        },
        InfoBridge::MulticastStatsEnabled(v) => BridgeView {
            mcast_stats_enabled: Some(
                if v {
                    1
                } else {
                    0
                },
            ),
            ..acc
        },
        InfoBridge::MulticastIgmpVersion(v) => BridgeView { mcast_igmp_version: Some(v), ..acc },
        InfoBridge::MulticastMldVersion(v) => BridgeView { mcast_mld_version: Some(v), ..acc },
        InfoBridge::Other(kind, payload) => bridge_raw_step(acc, kind, payload@),
    }
}

/// The decode step for a raw extension attribute of a bridge.
pub open spec fn bridge_raw_step(acc: BridgeView, kind: u16, payload: Seq<u8>) -> BridgeView {
    if kind == KIND_FDB_N_LEARNED {
        match raw_decoded(kind, payload) {
            Some(RawValueV::Uint32(v)) => BridgeView { fdb_n_learned: Some(v), ..acc },
            _ => acc,
        }
    } else if kind == KIND_FDB_MAX_LEARNED {
        match raw_decoded(kind, payload) {
            Some(RawValueV::Uint32(v)) => BridgeView { fdb_max_learned: Some(v), ..acc },
            _ => acc,
        }
    } else if kind == KIND_NO_LL_LEARN {
        match raw_decoded(kind, payload) {
            Some(RawValueV::BoolByte(b)) => BridgeView { no_linklocal_learn: b, ..acc },
            _ => acc,
        }
    } else if kind == KIND_VLAN_MCAST_SNOOPING {
        match raw_decoded(kind, payload) {
            Some(RawValueV::BoolByte(b)) => BridgeView { mcast_vlan_snooping: b, ..acc },
            _ => acc,
        }
    } else if kind == KIND_MST_ENABLED {
        match raw_decoded(kind, payload) {
            Some(RawValueV::BoolByte(b)) => BridgeView { mst_enabled: b, ..acc },
            _ => acc,
        }
    } else {
        acc
    }
}

/// The decode of a whole bridge attribute list, in list order.
pub open spec fn bridge_fold(s: Seq<InfoBridge>) -> BridgeView
    decreases s.len(),
{
    if s.len() == 0 {
        bridge_init()
    } else {
        bridge_step(bridge_fold(s.drop_last()), s.last())
    }
}

impl CliLinkInfoDataBridge {
    /// Decodes a bridge attribute list; absent attributes keep their zero,
    /// empty or `None` defaults, repeated attributes keep the last value.
    pub fn new(info: &[InfoBridge]) -> (r: Self)
        ensures
            r@ == bridge_fold(info@),
    {
        let mut r = bridge_zeroed();
        assert(r@ =~= bridge_fold(info@.take(0)));
        let n: usize = info.len();
        let mut i: usize = 0;
        while i < n
            invariant
                i <= n,
                n == info@.len(),
                r@ == bridge_fold(info@.take(i as int)),
            decreases n - i,
        {
            bridge_apply(&mut r, &info[i]);
            proof {
                let t = info@.take(i + 1 as int);
                assert(t.drop_last() =~= info@.take(i as int));
                assert(t.last() == info@[i as int]);
            }
            i = i + 1;
        }
        assert(info@.take(n as int) =~= info@);
        r
    }
}

/// The zeroed bridge record.
fn bridge_zeroed() -> (r: CliLinkInfoDataBridge)
    ensures
        r@ == bridge_init(),
{
    let r = CliLinkInfoDataBridge {
        forward_delay: 0,
        hello_time: 0,
        max_age: 0,
        ageing_time: 0,
        stp_state: 0,
        priority: 0,
        vlan_filtering: 0,
        vlan_protocol: String::new(),
        bridge_id: None,
        root_id: None,
        root_port: 0,
        root_path_cost: 0,
        topology_change: 0,
        topology_change_detected: 0,
        hello_timer: 0,
        tcn_timer: 0,
        topology_change_timer: 0,
        gc_timer: 0,
        fdb_n_learned: None,
        fdb_max_learned: None,
        vlan_default_pvid: 0,
        vlan_stats_enabled: None,
        vlan_stats_per_port: None,
        group_fwd_mask: 0,
        group_addr: String::new(),
        mcast_snooping: 0,
        no_linklocal_learn: 0,
        mcast_vlan_snooping: 0,
        mst_enabled: 0,
        mcast_router: 0,
        mcast_query_use_ifaddr: 0,
        mcast_querier: 0,
        mcast_hash_elasticity: 0,
        mcast_hash_max: 0,
        mcast_last_member_cnt: 0,
        mcast_startup_query_cnt: 0,
        mcast_last_member_intvl: 0,
        mcast_membership_intvl: 0,
        mcast_querier_intvl: 0,
        mcast_query_intvl: 0,
        mcast_query_response_intvl: 0,
        mcast_startup_query_intvl: 0,
        mcast_stats_enabled: None,
        mcast_igmp_version: None,
        mcast_mld_version: None,
        nf_call_iptables: 0,
        nf_call_ip6tables: 0,
        nf_call_arptables: 0,
    };
    assert(r@ =~= bridge_init());
    r
}

/// Applies one attribute to the record under construction.
#[verifier::rlimit(100)]
fn bridge_apply(r: &mut CliLinkInfoDataBridge, a: &InfoBridge)
    ensures
        final(r)@ == bridge_step(old(r)@, *a),
{
    let ghost prev = r@;
    match a {
        InfoBridge::ForwardDelay(v) => {
            r.forward_delay = *v;
        },
        InfoBridge::HelloTime(v) => {
            r.hello_time = *v;
        },
        InfoBridge::MaxAge(v) => {
            r.max_age = *v;
        },
        InfoBridge::AgeingTime(v) => {
            r.ageing_time = *v;
        },
        InfoBridge::StpState(v) => {
            r.stp_state = *v;
        },
        InfoBridge::Priority(v) => {
            r.priority = *v;
        },
        InfoBridge::VlanFiltering(v) => {
            r.vlan_filtering = if *v {
                1
            } else {
                0
            };
        },
        InfoBridge::VlanProtocol(v) => {
            r.vlan_protocol = vlan_protocol_string(*v);
        },
        InfoBridge::BridgeId(b) => {
            r.bridge_id = Some(format_bridge_id(b.priority, b.address));
        },
        InfoBridge::RootId(b) => {
            r.root_id = Some(format_bridge_id(b.priority, b.address));
        },
        InfoBridge::RootPort(v) => {
            r.root_port = *v;
        },
        InfoBridge::RootPathCost(v) => {
            r.root_path_cost = *v;
        },
        InfoBridge::TopologyChange(v) => {
            r.topology_change = *v;
        },
        InfoBridge::TopologyChangeDetected(v) => {
            r.topology_change_detected = *v;
        },
        InfoBridge::HelloTimer(v) => {
            r.hello_timer = *v;
        },
        InfoBridge::TcnTimer(v) => {
            r.tcn_timer = *v;
        },
        InfoBridge::TopologyChangeTimer(v) => {
            r.topology_change_timer = *v;
        },
        InfoBridge::GcTimer(v) => {
            r.gc_timer = *v;
        },
        InfoBridge::GroupFwdMask(v) => {
            r.group_fwd_mask = *v;
        },
        InfoBridge::GroupAddr(b) => {
            r.group_addr = mac_to_string(b.as_slice());
        },
        InfoBridge::MulticastRouter(v) => {
            r.mcast_router = *v;
        },
        InfoBridge::MulticastSnooping(v) => {
            r.mcast_snooping = if *v {
                1
            } else {
                0
            };
        },
        InfoBridge::MulticastQueryUseIfaddr(v) => {
            r.mcast_query_use_ifaddr = if *v {
                1
            } else {
                0
            };
        },
        InfoBridge::MulticastQuerier(v) => {
            r.mcast_querier = if *v {
                1
            } else {
                0
            };
        },
        InfoBridge::MulticastHashElasticity(v) => {
            r.mcast_hash_elasticity = *v;
        },
        InfoBridge::MulticastHashMax(v) => {
            r.mcast_hash_max = *v;
        },
        InfoBridge::MulticastLastMemberCount(v) => {
            r.mcast_last_member_cnt = *v;
        },
        InfoBridge::MulticastStartupQueryCount(v) => {
            r.mcast_startup_query_cnt = *v;
        },
        InfoBridge::MulticastLastMemberInterval(v) => {
            r.mcast_last_member_intvl = *v;
        },
        InfoBridge::MulticastMembershipInterval(v) => {
            r.mcast_membership_intvl = *v;
        },
        InfoBridge::MulticastQuerierInterval(v) => {
            r.mcast_querier_intvl = *v;
        },
        InfoBridge::MulticastQueryInterval(v) => {
            r.mcast_query_intvl = *v;
        },
        InfoBridge::MulticastQueryResponseInterval(v) => {
            r.mcast_query_response_intvl = *v;
        },
        InfoBridge::MulticastStartupQueryInterval(v) => {
            r.mcast_startup_query_intvl = *v;
        },
        InfoBridge::NfCallIpTables(v) => {
            r.nf_call_iptables = if *v {
                1
            } else {
                0
            };
        },
        InfoBridge::NfCallIp6Tables(v) => {
            r.nf_call_ip6tables = if *v {
                1
            } else {
                0
            };
        },
        InfoBridge::NfCallArpTables(v) => {
            r.nf_call_arptables = if *v {
                1
            } else {
                0
            };
        },
        InfoBridge::VlanDefaultPvid(v) => {
            r.vlan_default_pvid = *v;
        },
        InfoBridge::VlanStatsEnabled(v) => {
            r.vlan_stats_enabled = Some(
                if *v {
                    1
                } else {
                    0
                },
            );
        },
        InfoBridge::VlanStatsPerPort(v) => {
            r.vlan_stats_per_port = Some(
                if *v {
                    1
                } else {
                    0
                },
            );
        },
        InfoBridge::MulticastStatsEnabled(v) => {
            r.mcast_stats_enabled = Some(
                if *v {
                    1
                } else {
                    0
                },
            );
        },
        InfoBridge::MulticastIgmpVersion(v) => {
            r.mcast_igmp_version = Some(*v);
        },
        InfoBridge::MulticastMldVersion(v) => {
            r.mcast_mld_version = Some(*v);
        },
        InfoBridge::Other(kind, payload) => {
            bridge_apply_raw(r, *kind, payload.as_slice());
        },
    }
    assert(final(r)@ =~= bridge_step(prev, *a));
}

// ---------------------------------------------------------------------------
// Compatibility text form
// ---------------------------------------------------------------------------

/// The compatibility text image of a bridge record, built segment by
/// segment; each `bridge_text_*` function appends its fields to the prefix.
pub open spec fn bridge_text(v: BridgeView) -> Seq<char> {
    bridge_text_i(
        bridge_text_h(
            bridge_text_g(
                bridge_text_f(
                    bridge_text_e(
                        bridge_text_d(
                            bridge_text_c(
                                bridge_text_b(bridge_text_a(Seq::<char>::empty(), v), v),
                                v,
                            ),
                            v,
                        ),
                        v,
                    ),
                    v,
                ),
                v,
            ),
            v,
        ),
        v,
    )
}

/// Timer and topology counters come first.
pub open spec fn bridge_text_a(p: Seq<char>, v: BridgeView) -> Seq<char> {
    p + "forward_delay "@ + dec_nat(v.forward_delay as nat) + " "@ + "hello_time "@ + dec_nat(
        v.hello_time as nat,
    ) + " "@ + "max_age "@ + dec_nat(v.max_age as nat) + " "@ + "ageing_time "@ + dec_nat(
        v.ageing_time as nat,
    ) + " "@ + "stp_state "@ + dec_nat(v.stp_state as nat) + " "@ + "priority "@ + dec_nat(
        v.priority as nat,
    ) + " "@
}

/// VLAN filtering, protocol and the two optional identifiers.
pub open spec fn bridge_text_b(p: Seq<char>, v: BridgeView) -> Seq<char> {
    p + "vlan_filtering "@ + dec_nat(v.vlan_filtering as nat) + " "@ + "vlan_protocol "@
        + v.vlan_protocol + " "@ + (match v.bridge_id {
        Some(t) => "bridge_id "@ + t + " "@,
        None => Seq::<char>::empty(),
    }) + (match v.root_id {
        Some(t) => "designated_root "@ + t + " "@,
        None => Seq::<char>::empty(),
    }) + "root_port "@ + dec_nat(v.root_port as nat) + " "@
}

/// Root path cost and topology change state.
pub open spec fn bridge_text_c(p: Seq<char>, v: BridgeView) -> Seq<char> {
    p + "root_path_cost "@ + dec_nat(v.root_path_cost as nat) + " "@ + "topology_change "@
        + dec_nat(v.topology_change as nat) + " "@ + "topology_change_detected "@ + dec_nat(
        v.topology_change_detected as nat,
    ) + " "@ + "hello_timer "@ + timer_text(v.hello_timer) + " "@ + "tcn_timer "@ + timer_text(
        v.tcn_timer,
    ) + " "@
}

/// The remaining timers and the learned-address counters.
pub open spec fn bridge_text_d(p: Seq<char>, v: BridgeView) -> Seq<char> {
    p + "topology_change_timer "@ + timer_text(v.topology_change_timer) + " "@ + "gc_timer "@
        + timer_text(v.gc_timer) + " "@ + (match v.fdb_n_learned {
        Some(x) => "fdb_n_learned "@ + dec_nat(x as nat) + " "@,
        None => Seq::<char>::empty(),
    }) + (match v.fdb_max_learned {
        Some(x) => "fdb_max_learned "@ + dec_nat(x as nat) + " "@,
        None => Seq::<char>::empty(),
    }) + "vlan_default_pvid "@ + dec_nat(v.vlan_default_pvid as nat) + " "@
}

/// VLAN statistics, the forwarding mask and the group address.
pub open spec fn bridge_text_e(p: Seq<char>, v: BridgeView) -> Seq<char> {
    p + (match v.vlan_stats_enabled {
        Some(x) => "vlan_stats_enabled "@ + dec_nat(x as nat) + " "@,
        None => Seq::<char>::empty(),
    }) + (match v.vlan_stats_per_port {
        Some(x) => "vlan_stats_per_port "@ + dec_nat(x as nat) + " "@,
        None => Seq::<char>::empty(),
    }) + "group_fwd_mask "@ + fwd_mask_text(v.group_fwd_mask) + " "@ + (if v.group_addr.len()
        > 0 {
        "group_address "@ + v.group_addr + " "@
    } else {
        Seq::<char>::empty()
    }) + "mcast_snooping "@ + dec_nat(v.mcast_snooping as nat) + " "@
}

/// Learning and snooping switches.
pub open spec fn bridge_text_f(p: Seq<char>, v: BridgeView) -> Seq<char> {
    p + "no_linklocal_learn "@ + dec_nat(v.no_linklocal_learn as nat) + " "@
        + "mcast_vlan_snooping "@ + dec_nat(v.mcast_vlan_snooping as nat) + " "@ + "mst_enabled "@
        + dec_nat(v.mst_enabled as nat) + " "@ + "mcast_router "@ + dec_nat(v.mcast_router as nat)
        + " "@ + "mcast_query_use_ifaddr "@ + dec_nat(v.mcast_query_use_ifaddr as nat) + " "@
        + "mcast_querier "@ + dec_nat(v.mcast_querier as nat) + " "@
}

/// Multicast hash sizing and the first interval counters.
pub open spec fn bridge_text_g(p: Seq<char>, v: BridgeView) -> Seq<char> {
    p + "mcast_hash_elasticity "@ + dec_nat(v.mcast_hash_elasticity as nat) + " "@
        + "mcast_hash_max "@ + dec_nat(v.mcast_hash_max as nat) + " "@ + "mcast_last_member_count "@
        + dec_nat(v.mcast_last_member_cnt as nat) + " "@ + "mcast_startup_query_count "@ + dec_nat(
        v.mcast_startup_query_cnt as nat,
    ) + " "@ + "mcast_last_member_interval "@ + dec_nat(v.mcast_last_member_intvl as nat) + " "@
        + "mcast_membership_interval "@ + dec_nat(v.mcast_membership_intvl as nat) + " "@
}

/// The remaining intervals and the optional multicast statistics.
pub open spec fn bridge_text_h(p: Seq<char>, v: BridgeView) -> Seq<char> {
    p + "mcast_querier_interval "@ + dec_nat(v.mcast_querier_intvl as nat) + " "@
        + "mcast_query_interval "@ + dec_nat(v.mcast_query_intvl as nat) + " "@
        + "mcast_query_response_interval "@ + dec_nat(v.mcast_query_response_intvl as nat) + " "@
        + "mcast_startup_query_interval "@ + dec_nat(v.mcast_startup_query_intvl as nat) + " "@ + (
    match v.mcast_stats_enabled {
        Some(x) => "mcast_stats_enabled "@ + dec_nat(x as nat) + " "@,
        None => Seq::<char>::empty(),
    }) + (match v.mcast_igmp_version {
        Some(x) => "mcast_igmp_version "@ + dec_nat(x as nat) + " "@,
        None => Seq::<char>::empty(),
    }) + (match v.mcast_mld_version {
        Some(x) => "mcast_mld_version "@ + dec_nat(x as nat) + " "@,
        None => Seq::<char>::empty(),
    })
}

/// The netfilter call switches close the line, without a trailing space.
pub open spec fn bridge_text_i(p: Seq<char>, v: BridgeView) -> Seq<char> {
    p + "nf_call_iptables "@ + dec_nat(v.nf_call_iptables as nat) + " "@ + "nf_call_ip6tables "@
        + dec_nat(v.nf_call_ip6tables as nat) + " "@ + "nf_call_arptables "@ + dec_nat(
        v.nf_call_arptables as nat,
    )
}

impl CliLinkInfoDataBridge {
    /// The compatibility text form.
    pub fn gen_string(&self) -> (r: String)
        ensures
            r@ == bridge_text(self@),
    {
        let mut out = String::new();
        self.push_text_a(&mut out);
        self.push_text_b(&mut out);
        self.push_text_c(&mut out);
        self.push_text_d(&mut out);
        self.push_text_e(&mut out);
        self.push_text_f(&mut out);
        self.push_text_g(&mut out);
        self.push_text_h(&mut out);
        self.push_text_i(&mut out);
        out
    }

    fn push_text_a(&self, out: &mut String)
        ensures
            final(out)@ == bridge_text_a(old(out)@, self@),
    {
        out.append("forward_delay ");
        push_dec_u64(out, self.forward_delay as u64);
        out.append(" ");
        out.append("hello_time ");
        push_dec_u64(out, self.hello_time as u64);
        out.append(" ");
        out.append("max_age ");
        push_dec_u64(out, self.max_age as u64);
        out.append(" ");
        out.append("ageing_time ");
        push_dec_u64(out, self.ageing_time as u64);
        out.append(" ");
        out.append("stp_state ");
        push_dec_u64(out, self.stp_state as u64);
        out.append(" ");
        out.append("priority ");
        push_dec_u64(out, self.priority as u64);
        out.append(" ");
    }

    fn push_text_b(&self, out: &mut String)
        ensures
            final(out)@ == bridge_text_b(old(out)@, self@),
    {
        out.append("vlan_filtering ");
        push_dec_u64(out, self.vlan_filtering as u64);
        out.append(" ");
        out.append("vlan_protocol ");
        out.append(self.vlan_protocol.as_str());
        out.append(" ");
        if let Some(t) = &self.bridge_id {
            out.append("bridge_id ");
            out.append(t.as_str());
            out.append(" ");
        }
        if let Some(t) = &self.root_id {
            out.append("designated_root ");
            out.append(t.as_str());
            out.append(" ");
        }
        out.append("root_port ");
        push_dec_u64(out, self.root_port as u64);
        out.append(" ");
    }

    fn push_text_c(&self, out: &mut String)
        ensures
            final(out)@ == bridge_text_c(old(out)@, self@),
    {
        out.append("root_path_cost ");
        push_dec_u64(out, self.root_path_cost as u64);
        out.append(" ");
        out.append("topology_change ");
        push_dec_u64(out, self.topology_change as u64);
        out.append(" ");
        out.append("topology_change_detected ");
        push_dec_u64(out, self.topology_change_detected as u64);
        out.append(" ");
        out.append("hello_timer ");
        push_timer(out, self.hello_timer);
        out.append(" ");
        out.append("tcn_timer ");
        push_timer(out, self.tcn_timer);
        out.append(" ");
    }

    fn push_text_d(&self, out: &mut String)
        ensures
            final(out)@ == bridge_text_d(old(out)@, self@),
    {
        out.append("topology_change_timer ");
        push_timer(out, self.topology_change_timer);
        out.append(" ");
        out.append("gc_timer ");
        push_timer(out, self.gc_timer);
        out.append(" ");
        if let Some(x) = self.fdb_n_learned {
            out.append("fdb_n_learned ");
            push_dec_u64(out, x as u64);
            out.append(" ");
        }
        if let Some(x) = self.fdb_max_learned {
            out.append("fdb_max_learned ");
            push_dec_u64(out, x as u64);
            out.append(" ");
        }
        out.append("vlan_default_pvid ");
        push_dec_u64(out, self.vlan_default_pvid as u64);
        out.append(" ");
    }

    #[verifier::rlimit(100)]
    fn push_text_e(&self, out: &mut String)
        ensures
            final(out)@ == bridge_text_e(old(out)@, self@),
    {
        if let Some(x) = self.vlan_stats_enabled {
            out.append("vlan_stats_enabled ");
            push_dec_u64(out, x as u64);
            out.append(" ");
        }
        if let Some(x) = self.vlan_stats_per_port {
            out.append("vlan_stats_per_port ");
            push_dec_u64(out, x as u64);
            out.append(" ");
        }
        out.append("group_fwd_mask ");
        push_fwd_mask(out, self.group_fwd_mask);
        out.append(" ");
        if self.group_addr.as_str().unicode_len() > 0 {
            out.append("group_address ");
            out.append(self.group_addr.as_str());
            out.append(" ");
        }
        out.append("mcast_snooping ");
        push_dec_u64(out, self.mcast_snooping as u64);
        out.append(" ");
    }

    fn push_text_f(&self, out: &mut String)
        ensures
            final(out)@ == bridge_text_f(old(out)@, self@),
    {
        out.append("no_linklocal_learn ");
        push_dec_u64(out, self.no_linklocal_learn as u64);
        out.append(" ");
        out.append("mcast_vlan_snooping ");
        push_dec_u64(out, self.mcast_vlan_snooping as u64);
        out.append(" ");
        out.append("mst_enabled ");
        push_dec_u64(out, self.mst_enabled as u64);
        out.append(" ");
        out.append("mcast_router ");
        push_dec_u64(out, self.mcast_router as u64);
        out.append(" ");
        out.append("mcast_query_use_ifaddr ");
        push_dec_u64(out, self.mcast_query_use_ifaddr as u64);
        out.append(" ");
        out.append("mcast_querier ");
        push_dec_u64(out, self.mcast_querier as u64);
        out.append(" ");
    }

    fn push_text_g(&self, out: &mut String)
        ensures
            final(out)@ == bridge_text_g(old(out)@, self@),
    {
        out.append("mcast_hash_elasticity ");
        push_dec_u64(out, self.mcast_hash_elasticity as u64);
        out.append(" ");
        out.append("mcast_hash_max ");
        push_dec_u64(out, self.mcast_hash_max as u64);
        out.append(" ");
        out.append("mcast_last_member_count ");
        push_dec_u64(out, self.mcast_last_member_cnt as u64);
        out.append(" ");
        out.append("mcast_startup_query_count ");
        push_dec_u64(out, self.mcast_startup_query_cnt as u64);
        out.append(" ");
        out.append("mcast_last_member_interval ");
        push_dec_u64(out, self.mcast_last_member_intvl);
        out.append(" ");
        out.append("mcast_membership_interval ");
        push_dec_u64(out, self.mcast_membership_intvl);
        out.append(" ");
    }

    fn push_text_h(&self, out: &mut String)
        ensures
            final(out)@ == bridge_text_h(old(out)@, self@),
    {
        out.append("mcast_querier_interval ");
        push_dec_u64(out, self.mcast_querier_intvl);
        out.append(" ");
        out.append("mcast_query_interval ");
        push_dec_u64(out, self.mcast_query_intvl);
        out.append(" ");
        out.append("mcast_query_response_interval ");
        push_dec_u64(out, self.mcast_query_response_intvl);
        out.append(" ");
        out.append("mcast_startup_query_interval ");
        push_dec_u64(out, self.mcast_startup_query_intvl);
        out.append(" ");
        if let Some(x) = self.mcast_stats_enabled {
            out.append("mcast_stats_enabled ");
            push_dec_u64(out, x as u64);
            out.append(" ");
        }
        if let Some(x) = self.mcast_igmp_version {
            out.append("mcast_igmp_version ");
            push_dec_u64(out, x as u64);
            out.append(" ");
        }
        if let Some(x) = self.mcast_mld_version {
            out.append("mcast_mld_version ");
            push_dec_u64(out, x as u64);
            out.append(" ");
        }
    }

    fn push_text_i(&self, out: &mut String)
        ensures
            final(out)@ == bridge_text_i(old(out)@, self@),
    {
        out.append("nf_call_iptables ");
        push_dec_u64(out, self.nf_call_iptables as u64);
        out.append(" ");
        out.append("nf_call_ip6tables ");
        push_dec_u64(out, self.nf_call_ip6tables as u64);
        out.append(" ");
        out.append("nf_call_arptables ");
        push_dec_u64(out, self.nf_call_arptables as u64);
    }
}

// ---------------------------------------------------------------------------
// JSON form
// ---------------------------------------------------------------------------

/// The JSON object image of a bridge record; optional fields are omitted
/// entirely when absent, and the forwarding mask renders as a decimal
/// string.
pub open spec fn bridge_json(v: BridgeView) -> Seq<char> {
    bridge_json_i(
        bridge_json_h(
            bridge_json_g(
                bridge_json_f(
                    bridge_json_e(
                        bridge_json_d(
                            bridge_json_c(
                                bridge_json_b(bridge_json_a(Seq::<char>::empty(), v), v),
                                v,
                            ),
                            v,
                        ),
                        v,
                    ),
                    v,
                ),
                v,
            ),
            v,
        ),
        v,
    )
}

/// Opens the object with the always-present counters.
pub open spec fn bridge_json_a(p: Seq<char>, v: BridgeView) -> Seq<char> {
    p + "{\"forward_delay\":"@ + dec_nat(v.forward_delay as nat) + ",\"hello_time\":"@ + dec_nat(
        v.hello_time as nat,
    ) + ",\"max_age\":"@ + dec_nat(v.max_age as nat) + ",\"ageing_time\":"@ + dec_nat(
        v.ageing_time as nat,
    ) + ",\"stp_state\":"@ + dec_nat(v.stp_state as nat) + ",\"priority\":"@ + dec_nat(
        v.priority as nat,
    )
}

/// VLAN filtering, the protocol tag and the optional identifiers.
pub open spec fn bridge_json_b(p: Seq<char>, v: BridgeView) -> Seq<char> {
    p + ",\"vlan_filtering\":"@ + dec_nat(v.vlan_filtering as nat) + ",\"vlan_protocol\":"@
        + json_str(v.vlan_protocol) + (match v.bridge_id {
        Some(t) => ",\"bridge_id\":"@ + json_str(t),
        None => Seq::<char>::empty(),
    }) + (match v.root_id {
        Some(t) => ",\"root_id\":"@ + json_str(t),
        None => Seq::<char>::empty(),
    }) + ",\"root_port\":"@ + dec_nat(v.root_port as nat)
}

/// Costs, topology state and the first timers.
pub open spec fn bridge_json_c(p: Seq<char>, v: BridgeView) -> Seq<char> {
    p + ",\"root_path_cost\":"@ + dec_nat(v.root_path_cost as nat) + ",\"topology_change\":"@
        + dec_nat(v.topology_change as nat) + ",\"topology_change_detected\":"@ + dec_nat(
        v.topology_change_detected as nat,
    ) + ",\"hello_timer\":"@ + dec_nat(v.hello_timer as nat) + ",\"tcn_timer\":"@ + dec_nat(
        v.tcn_timer as nat,
    )
}

/// The remaining timers and the learned-address counters.
pub open spec fn bridge_json_d(p: Seq<char>, v: BridgeView) -> Seq<char> {
    p + ",\"topology_change_timer\":"@ + dec_nat(v.topology_change_timer as nat) + ",\"gc_timer\":"@
        + dec_nat(v.gc_timer as nat) + (match v.fdb_n_learned {
        Some(x) => ",\"fdb_n_learned\":"@ + dec_nat(x as nat),
        None => Seq::<char>::empty(),
    }) + (match v.fdb_max_learned {
        Some(x) => ",\"fdb_max_learned\":"@ + dec_nat(x as nat),
        None => Seq::<char>::empty(),
    }) + ",\"vlan_default_pvid\":"@ + dec_nat(v.vlan_default_pvid as nat)
}

/// VLAN statistics, the forwarding mask and the group address.
pub open spec fn bridge_json_e(p: Seq<char>, v: BridgeView) -> Seq<char> {
    p + (match v.vlan_stats_enabled {
        Some(x) => ",\"vlan_stats_enabled\":"@ + dec_nat(x as nat),
        None => Seq::<char>::empty(),
    }) + (match v.vlan_stats_per_port {
        Some(x) => ",\"vlan_stats_per_port\":"@ + dec_nat(x as nat),
        None => Seq::<char>::empty(),
    }) + ",\"group_fwd_mask\":\""@ + dec_nat(v.group_fwd_mask as nat) + "\""@ + (
    if v.group_addr.len() > 0 {
        ",\"group_addr\":"@ + json_str(v.group_addr)
    } else {
        Seq::<char>::empty()
    }) + ",\"mcast_snooping\":"@ + dec_nat(v.mcast_snooping as nat)
}

/// Learning and snooping switches.
pub open spec fn bridge_json_f(p: Seq<char>, v: BridgeView) -> Seq<char> {
    p + ",\"no_linklocal_learn\":"@ + dec_nat(v.no_linklocal_learn as nat)
        + ",\"mcast_vlan_snooping\":"@ + dec_nat(v.mcast_vlan_snooping as nat)
        + ",\"mst_enabled\":"@ + dec_nat(v.mst_enabled as nat) + ",\"mcast_router\":"@ + dec_nat(
        v.mcast_router as nat,
    ) + ",\"mcast_query_use_ifaddr\":"@ + dec_nat(v.mcast_query_use_ifaddr as nat)
        + ",\"mcast_querier\":"@ + dec_nat(v.mcast_querier as nat)
}

/// Multicast hash sizing and the first interval counters.
pub open spec fn bridge_json_g(p: Seq<char>, v: BridgeView) -> Seq<char> {
    p + ",\"mcast_hash_elasticity\":"@ + dec_nat(v.mcast_hash_elasticity as nat)
        + ",\"mcast_hash_max\":"@ + dec_nat(v.mcast_hash_max as nat)
        + ",\"mcast_last_member_cnt\":"@ + dec_nat(v.mcast_last_member_cnt as nat)
        + ",\"mcast_startup_query_cnt\":"@ + dec_nat(v.mcast_startup_query_cnt as nat)
        + ",\"mcast_last_member_intvl\":"@ + dec_nat(v.mcast_last_member_intvl as nat)
        + ",\"mcast_membership_intvl\":"@ + dec_nat(v.mcast_membership_intvl as nat)
}

/// The remaining intervals and optional multicast statistics.
pub open spec fn bridge_json_h(p: Seq<char>, v: BridgeView) -> Seq<char> {
    p + ",\"mcast_querier_intvl\":"@ + dec_nat(v.mcast_querier_intvl as nat)
        + ",\"mcast_query_intvl\":"@ + dec_nat(v.mcast_query_intvl as nat)
        + ",\"mcast_query_response_intvl\":"@ + dec_nat(v.mcast_query_response_intvl as nat)
        + ",\"mcast_startup_query_intvl\":"@ + dec_nat(v.mcast_startup_query_intvl as nat) + (
    match v.mcast_stats_enabled {
        Some(x) => ",\"mcast_stats_enabled\":"@ + dec_nat(x as nat),
        None => Seq::<char>::empty(),
    }) + (match v.mcast_igmp_version {
        Some(x) => ",\"mcast_igmp_version\":"@ + dec_nat(x as nat),
        None => Seq::<char>::empty(),
    }) + (match v.mcast_mld_version {
        Some(x) => ",\"mcast_mld_version\":"@ + dec_nat(x as nat),
        None => Seq::<char>::empty(),
    })
}

/// The netfilter switches close the object.
pub open spec fn bridge_json_i(p: Seq<char>, v: BridgeView) -> Seq<char> {
    p + ",\"nf_call_iptables\":"@ + dec_nat(v.nf_call_iptables as nat)
        + ",\"nf_call_ip6tables\":"@ + dec_nat(v.nf_call_ip6tables as nat)
        + ",\"nf_call_arptables\":"@ + dec_nat(v.nf_call_arptables as nat) + "}"@
}

impl CliLinkInfoDataBridge {
    /// The JSON object form.
    pub fn to_json_string(&self) -> (r: String)
        ensures
            r@ == bridge_json(self@),
    {
        let mut out = String::new();
        self.push_json_a(&mut out);
        self.push_json_b(&mut out);
        self.push_json_c(&mut out);
        self.push_json_d(&mut out);
        self.push_json_e(&mut out);
        self.push_json_f(&mut out);
        self.push_json_g(&mut out);
        self.push_json_h(&mut out);
        self.push_json_i(&mut out);
        out
    }

    fn push_json_a(&self, out: &mut String)
        ensures
            final(out)@ == bridge_json_a(old(out)@, self@),
    {
        out.append("{\"forward_delay\":");
        push_dec_u64(out, self.forward_delay as u64);
        out.append(",\"hello_time\":");
        push_dec_u64(out, self.hello_time as u64);
        out.append(",\"max_age\":");
        push_dec_u64(out, self.max_age as u64);
        out.append(",\"ageing_time\":");
        push_dec_u64(out, self.ageing_time as u64);
        out.append(",\"stp_state\":");
        push_dec_u64(out, self.stp_state as u64);
        out.append(",\"priority\":");
        push_dec_u64(out, self.priority as u64);
    }

    fn push_json_b(&self, out: &mut String)
        ensures
            final(out)@ == bridge_json_b(old(out)@, self@),
    {
        out.append(",\"vlan_filtering\":");
        push_dec_u64(out, self.vlan_filtering as u64);
        out.append(",\"vlan_protocol\":");
        push_json_str(out, self.vlan_protocol.as_str());
        if let Some(t) = &self.bridge_id {
            out.append(",\"bridge_id\":");
            push_json_str(out, t.as_str());
        }
        if let Some(t) = &self.root_id {
            out.append(",\"root_id\":");
            push_json_str(out, t.as_str());
        }
        out.append(",\"root_port\":");
        push_dec_u64(out, self.root_port as u64);
    }

    fn push_json_c(&self, out: &mut String)
        ensures
            final(out)@ == bridge_json_c(old(out)@, self@),
    {
        out.append(",\"root_path_cost\":");
        push_dec_u64(out, self.root_path_cost as u64);
        out.append(",\"topology_change\":");
        push_dec_u64(out, self.topology_change as u64);
        out.append(",\"topology_change_detected\":");
        push_dec_u64(out, self.topology_change_detected as u64);
        out.append(",\"hello_timer\":");
        push_dec_u64(out, self.hello_timer);
        out.append(",\"tcn_timer\":");
        push_dec_u64(out, self.tcn_timer);
    }

    fn push_json_d(&self, out: &mut String)
        ensures
            final(out)@ == bridge_json_d(old(out)@, self@),
    {
        out.append(",\"topology_change_timer\":");
        push_dec_u64(out, self.topology_change_timer);
        out.append(",\"gc_timer\":");
        push_dec_u64(out, self.gc_timer);
        if let Some(x) = self.fdb_n_learned {
            out.append(",\"fdb_n_learned\":");
            push_dec_u64(out, x as u64);
        }
        if let Some(x) = self.fdb_max_learned {
            out.append(",\"fdb_max_learned\":");
            push_dec_u64(out, x as u64);
        }
        out.append(",\"vlan_default_pvid\":");
        push_dec_u64(out, self.vlan_default_pvid as u64);
    }

    fn push_json_e(&self, out: &mut String)
        ensures
            final(out)@ == bridge_json_e(old(out)@, self@),
    {
        if let Some(x) = self.vlan_stats_enabled {
            out.append(",\"vlan_stats_enabled\":");
            push_dec_u64(out, x as u64);
        }
        if let Some(x) = self.vlan_stats_per_port {
            out.append(",\"vlan_stats_per_port\":");
            push_dec_u64(out, x as u64);
        }
        out.append(",\"group_fwd_mask\":\"");
        push_dec_u64(out, self.group_fwd_mask as u64);
        out.append("\"");
        if self.group_addr.as_str().unicode_len() > 0 {
            out.append(",\"group_addr\":");
            push_json_str(out, self.group_addr.as_str());
        }
        out.append(",\"mcast_snooping\":");
        push_dec_u64(out, self.mcast_snooping as u64);
    }

    fn push_json_f(&self, out: &mut String)
        ensures
            final(out)@ == bridge_json_f(old(out)@, self@),
    {
        out.append(",\"no_linklocal_learn\":");
        push_dec_u64(out, self.no_linklocal_learn as u64);
        out.append(",\"mcast_vlan_snooping\":");
        push_dec_u64(out, self.mcast_vlan_snooping as u64);
        out.append(",\"mst_enabled\":");
        push_dec_u64(out, self.mst_enabled as u64);
        out.append(",\"mcast_router\":");
        push_dec_u64(out, self.mcast_router as u64);
        out.append(",\"mcast_query_use_ifaddr\":");
        push_dec_u64(out, self.mcast_query_use_ifaddr as u64);
        out.append(",\"mcast_querier\":");
        push_dec_u64(out, self.mcast_querier as u64);
    }

    fn push_json_g(&self, out: &mut String)
        ensures
            final(out)@ == bridge_json_g(old(out)@, self@),
    {
        out.append(",\"mcast_hash_elasticity\":");
        push_dec_u64(out, self.mcast_hash_elasticity as u64);
        out.append(",\"mcast_hash_max\":");
        push_dec_u64(out, self.mcast_hash_max as u64);
        out.append(",\"mcast_last_member_cnt\":");
        push_dec_u64(out, self.mcast_last_member_cnt as u64);
        out.append(",\"mcast_startup_query_cnt\":");
        push_dec_u64(out, self.mcast_startup_query_cnt as u64);
        out.append(",\"mcast_last_member_intvl\":");
        push_dec_u64(out, self.mcast_last_member_intvl);
        out.append(",\"mcast_membership_intvl\":");
        push_dec_u64(out, self.mcast_membership_intvl);
    }

    fn push_json_h(&self, out: &mut String)
        ensures
            final(out)@ == bridge_json_h(old(out)@, self@),
    {
        out.append(",\"mcast_querier_intvl\":");
        push_dec_u64(out, self.mcast_querier_intvl);
        out.append(",\"mcast_query_intvl\":");
        push_dec_u64(out, self.mcast_query_intvl);
        out.append(",\"mcast_query_response_intvl\":");
        push_dec_u64(out, self.mcast_query_response_intvl);
        out.append(",\"mcast_startup_query_intvl\":");
        push_dec_u64(out, self.mcast_startup_query_intvl);
        if let Some(x) = self.mcast_stats_enabled {
            out.append(",\"mcast_stats_enabled\":");
            push_dec_u64(out, x as u64);
        }
        if let Some(x) = self.mcast_igmp_version {
            out.append(",\"mcast_igmp_version\":");
            push_dec_u64(out, x as u64);
        }
        if let Some(x) = self.mcast_mld_version {
            out.append(",\"mcast_mld_version\":");
            push_dec_u64(out, x as u64);
        }
    }

    fn push_json_i(&self, out: &mut String)
        ensures
            final(out)@ == bridge_json_i(old(out)@, self@),
    {
        out.append(",\"nf_call_iptables\":");
        push_dec_u64(out, self.nf_call_iptables as u64);
        out.append(",\"nf_call_ip6tables\":");
        push_dec_u64(out, self.nf_call_ip6tables as u64);
        out.append(",\"nf_call_arptables\":");
        push_dec_u64(out, self.nf_call_arptables as u64);
        out.append("}");
    }
}

/// Applies one raw extension attribute through the fallback decoder.
fn bridge_apply_raw(r: &mut CliLinkInfoDataBridge, kind: u16, payload: &[u8])
    ensures
        final(r)@ == bridge_raw_step(old(r)@, kind, payload@),
{
    let ghost prev = r@;
    if kind == KIND_FDB_N_LEARNED || kind == KIND_FDB_MAX_LEARNED || kind == KIND_NO_LL_LEARN
        || kind == KIND_VLAN_MCAST_SNOOPING || kind == KIND_MST_ENABLED {
        match decode_raw(kind, payload) {
            Ok(Some(RawValue::Uint32(v))) => {
                if kind == KIND_FDB_N_LEARNED {
                    r.fdb_n_learned = Some(v);
                } else {
                    r.fdb_max_learned = Some(v);
                }
            },
            Ok(Some(RawValue::BoolByte(b))) => {
                if kind == KIND_NO_LL_LEARN {
                    r.no_linklocal_learn = b;
                } else if kind == KIND_VLAN_MCAST_SNOOPING {
                    r.mcast_vlan_snooping = b;
                } else {
                    r.mst_enabled = b;
                }
            },
            _ => {},
        }
    }
    assert(final(r)@ =~= bridge_raw_step(prev, kind, payload@));
}


// ---------------------------------------------------------------------------
// Stated properties of the rendering
// ---------------------------------------------------------------------------

/// Segment f of the text, taken on its own.
pub open spec fn text_tail_f(v: BridgeView) -> Seq<char> {
    bridge_text_f(Seq::<char>::empty(), v)
}

/// Segment g of the text, taken on its own.
pub open spec fn text_tail_g(v: BridgeView) -> Seq<char> {
    bridge_text_g(Seq::<char>::empty(), v)
}

/// Segment h of the text, taken on its own.
pub open spec fn text_tail_h(v: BridgeView) -> Seq<char> {
    bridge_text_h(Seq::<char>::empty(), v)
}

/// Segment i of the text, taken on its own.
pub open spec fn text_tail_i(v: BridgeView) -> Seq<char> {
    bridge_text_i(Seq::<char>::empty(), v)
}

/// Segment e of the text, taken on its own.
pub open spec fn text_tail_e(v: BridgeView) -> Seq<char> {
    bridge_text_e(Seq::<char>::empty(), v)
}

/// Segment d of the text, taken on its own.
pub open spec fn text_tail_d(v: BridgeView) -> Seq<char> {
    bridge_text_d(Seq::<char>::empty(), v)
}

/// Segment d only appends to its prefix.
#[verifier::rlimit(100)]
pub proof fn lemma_shift_d(p: Seq<char>, v: BridgeView)
    ensures
        bridge_text_d(p, v) == p + text_tail_d(v),
{
    assert(bridge_text_d(p, v) =~= p + text_tail_d(v));
}

/// Segment e only appends to its prefix.
#[verifier::rlimit(100)]
pub proof fn lemma_shift_e(p: Seq<char>, v: BridgeView)
    ensures
        bridge_text_e(p, v) == p + text_tail_e(v),
{
    assert(bridge_text_e(p, v) =~= p + text_tail_e(v));
}

/// Segment f only appends to its prefix.
#[verifier::rlimit(100)]
pub proof fn lemma_shift_f(p: Seq<char>, v: BridgeView)
    ensures
        bridge_text_f(p, v) == p + text_tail_f(v),
{
    assert(bridge_text_f(p, v) =~= p + text_tail_f(v));
}

/// Segment g only appends to its prefix.
#[verifier::rlimit(100)]
pub proof fn lemma_shift_g(p: Seq<char>, v: BridgeView)
    ensures
        bridge_text_g(p, v) == p + text_tail_g(v),
{
    assert(bridge_text_g(p, v) =~= p + text_tail_g(v));
}

/// Segment h only appends to its prefix.
#[verifier::rlimit(100)]
pub proof fn lemma_shift_h(p: Seq<char>, v: BridgeView)
    ensures
        bridge_text_h(p, v) == p + text_tail_h(v),
{
    assert(bridge_text_h(p, v) =~= p + text_tail_h(v));
}

/// Segment i only appends to its prefix.
#[verifier::rlimit(100)]
pub proof fn lemma_shift_i(p: Seq<char>, v: BridgeView)
    ensures
        bridge_text_i(p, v) == p + text_tail_i(v),
{
    assert(bridge_text_i(p, v) =~= p + text_tail_i(v));
}

/// The chain of the first four text segments.
pub open spec fn text_chain_d(v: BridgeView) -> Seq<char> {
    bridge_text_d(
        bridge_text_c(bridge_text_b(bridge_text_a(Seq::<char>::empty(), v), v), v),
        v,
    )
}

/// The chain of the first three text segments.
pub open spec fn text_chain_c(v: BridgeView) -> Seq<char> {
    bridge_text_c(bridge_text_b(bridge_text_a(Seq::<char>::empty(), v), v), v)
}

/// The optional VLAN statistics phrases that open segment e.
pub open spec fn e_head(v: BridgeView) -> Seq<char> {
    (match v.vlan_stats_enabled {
        Some(x) => "vlan_stats_enabled "@ + dec_nat(x as nat) + " "@,
        None => Seq::<char>::empty(),
    }) + (match v.vlan_stats_per_port {
        Some(x) => "vlan_stats_per_port "@ + dec_nat(x as nat) + " "@,
        None => Seq::<char>::empty(),
    })
}

/// What closes segment e after the forwarding-mask phrase.
pub open spec fn e_close(v: BridgeView) -> Seq<char> {
    (if v.group_addr.len() > 0 {
        "group_address "@ + v.group_addr + " "@
    } else {
        Seq::<char>::empty()
    }) + "mcast_snooping "@ + dec_nat(v.mcast_snooping as nat) + " "@
}

/// The whole text decomposed around the forwarding-mask phrase.
pub open spec fn mask_pre(v: BridgeView) -> Seq<char> {
    text_chain_d(v) + e_head(v)
}

/// The forwarding-mask phrase of the text.
pub open spec fn mask_phrase(v: BridgeView) -> Seq<char> {
    "group_fwd_mask "@ + fwd_mask_text(v.group_fwd_mask) + " "@
}

/// What follows the forwarding-mask phrase.
pub open spec fn mask_suf(v: BridgeView) -> Seq<char> {
    e_close(v) + text_tail_f(v) + text_tail_g(v) + text_tail_h(v) + text_tail_i(v)
}

/// Segment e splits exactly into its statistics phrases, the
/// forwarding-mask phrase and its closing phrases.
#[verifier::rlimit(100)]
pub proof fn lemma_e_split(p: Seq<char>, v: BridgeView)
    ensures
        bridge_text_e(p, v) == p + e_head(v) + mask_phrase(v) + e_close(v),
{
    assert(bridge_text_e(p, v) =~= p + e_head(v) + mask_phrase(v) + e_close(v));
}

/// The bridge text splits exactly around the forwarding-mask phrase, and a
/// zero mask renders as the decimal literal `0` while any other mask
/// renders as lower-case `0x`-prefixed hex: the text always contains the
/// corresponding phrase.
#[verifier::rlimit(100)]
pub proof fn lemma_forwarding_mask_rendering(v: BridgeView)
    ensures
        bridge_text(v) == mask_pre(v) + mask_phrase(v) + mask_suf(v),
        v.group_fwd_mask == 0 ==> mask_phrase(v) == "group_fwd_mask 0 "@,
        v.group_fwd_mask != 0 ==> mask_phrase(v) == "group_fwd_mask "@ + ("0x"@ + hex_nat(
            v.group_fwd_mask as nat,
        )) + " "@,
        v.group_fwd_mask == 0 ==> text_contains(bridge_text(v), "group_fwd_mask 0 "@),
        v.group_fwd_mask != 0 ==> text_contains(
            bridge_text(v),
            "group_fwd_mask "@ + ("0x"@ + hex_nat(v.group_fwd_mask as nat)) + " "@,
        ),
{
    let d = text_chain_d(v);
    let e = bridge_text_e(d, v);
    lemma_e_split(d, v);
    lemma_shift_f(e, v);
    lemma_shift_g(bridge_text_f(e, v), v);
    lemma_shift_h(bridge_text_g(bridge_text_f(e, v), v), v);
    lemma_shift_i(bridge_text_h(bridge_text_g(bridge_text_f(e, v), v), v), v);
    assert(bridge_text(v) == e + text_tail_f(v) + text_tail_g(v) + text_tail_h(v) + text_tail_i(
        v,
    ));
    let x = mask_pre(v) + mask_phrase(v);
    assert(e == x + e_close(v));
    lemma_assoc3(x, e_close(v), text_tail_f(v));
    lemma_assoc3(x, e_close(v) + text_tail_f(v), text_tail_g(v));
    lemma_assoc3(x, e_close(v) + text_tail_f(v) + text_tail_g(v), text_tail_h(v));
    lemma_assoc3(
        x,
        e_close(v) + text_tail_f(v) + text_tail_g(v) + text_tail_h(v),
        text_tail_i(v),
    );
    assert(bridge_text(v) == mask_pre(v) + mask_phrase(v) + mask_suf(v));
    if v.group_fwd_mask == 0 {
        reveal_strlit("group_fwd_mask ");
        reveal_strlit("0");
        reveal_strlit(" ");
        reveal_strlit("group_fwd_mask 0 ");
        assert(mask_phrase(v) =~= "group_fwd_mask 0 "@);
        lemma_concat_contains(mask_pre(v), mask_phrase(v), mask_suf(v));
    } else {
        lemma_concat_contains(mask_pre(v), mask_phrase(v), mask_suf(v));
    }
}

/// The learned-address phrase of the text: present exactly when the
/// attribute was seen.
pub open spec fn fdb_n_phrase(v: BridgeView) -> Seq<char> {
    match v.fdb_n_learned {
        Some(x) => "fdb_n_learned "@ + dec_nat(x as nat) + " "@,
        None => Seq::<char>::empty(),
    }
}

/// One timer phrase: the label, the seven-wide two-decimal image of the
/// raw centisecond count, and a space.
pub open spec fn timer_phrase(label: Seq<char>, t: u64) -> Seq<char> {
    label + timer_text(t) + " "@
}

/// The timers that open segment d.
pub open spec fn d_head(v: BridgeView) -> Seq<char> {
    timer_phrase("topology_change_timer "@, v.topology_change_timer) + timer_phrase(
        "gc_timer "@,
        v.gc_timer,
    )
}

/// What closes segment d after the learned-address phrases.
pub open spec fn d_close(v: BridgeView) -> Seq<char> {
    "vlan_default_pvid "@ + dec_nat(v.vlan_default_pvid as nat) + " "@
}

/// The optional learned-address limit phrase.
pub open spec fn fdb_max_phrase(v: BridgeView) -> Seq<char> {
    match v.fdb_max_learned {
        Some(x) => "fdb_max_learned "@ + dec_nat(x as nat) + " "@,
        None => Seq::<char>::empty(),
    }
}

/// Segment d splits exactly into its timers, the two learned-address
/// phrases and its closing counter.
#[verifier::rlimit(100)]
pub proof fn lemma_d_split(p: Seq<char>, v: BridgeView)
    ensures
        bridge_text_d(p, v) == p + d_head(v) + fdb_n_phrase(v) + fdb_max_phrase(v) + d_close(v),
{
    assert(bridge_text_d(p, v) =~= p + d_head(v) + fdb_n_phrase(v) + fdb_max_phrase(v) + d_close(
        v,
    ));
}

/// What precedes the learned-address phrase.
pub open spec fn fdb_n_pre(v: BridgeView) -> Seq<char> {
    text_chain_c(v) + d_head(v)
}

/// What follows the learned-address phrase.
pub open spec fn fdb_n_suf(v: BridgeView) -> Seq<char> {
    fdb_max_phrase(v) + d_close(v) + text_tail_e(v) + text_tail_f(v) + text_tail_g(v)
        + text_tail_h(v) + text_tail_i(v)
}

/// The bridge text splits exactly around the learned-address phrase: a
/// record decoded without the attribute renders nothing there, and a record
/// with it contains the full phrase.
#[verifier::rlimit(100)]
pub proof fn lemma_fdb_learned_rendering(v: BridgeView)
    ensures
        bridge_text(v) == fdb_n_pre(v) + fdb_n_phrase(v) + fdb_n_suf(v),
        v.fdb_n_learned is None ==> fdb_n_phrase(v) == Seq::<char>::empty(),
        v.fdb_n_learned matches Some(x) ==> text_contains(
            bridge_text(v),
            "fdb_n_learned "@ + dec_nat(x as nat) + " "@,
        ),
{
    let c = text_chain_c(v);
    let d = bridge_text_d(c, v);
    lemma_d_split(c, v);
    lemma_shift_e(d, v);
    lemma_shift_f(bridge_text_e(d, v), v);
    lemma_shift_g(bridge_text_f(bridge_text_e(d, v), v), v);
    lemma_shift_h(bridge_text_g(bridge_text_f(bridge_text_e(d, v), v), v), v);
    lemma_shift_i(
        bridge_text_h(bridge_text_g(bridge_text_f(bridge_text_e(d, v), v), v), v),
        v,
    );
    assert(bridge_text(v) == d + text_tail_e(v) + text_tail_f(v) + text_tail_g(v) + text_tail_h(v)
        + text_tail_i(v));
    let x = fdb_n_pre(v) + fdb_n_phrase(v);
    assert(d == x + fdb_max_phrase(v) + d_close(v));
    lemma_assoc3(x, fdb_max_phrase(v), d_close(v));
    lemma_assoc3(x, fdb_max_phrase(v) + d_close(v), text_tail_e(v));
    lemma_assoc3(x, fdb_max_phrase(v) + d_close(v) + text_tail_e(v), text_tail_f(v));
    lemma_assoc3(
        x,
        fdb_max_phrase(v) + d_close(v) + text_tail_e(v) + text_tail_f(v),
        text_tail_g(v),
    );
    lemma_assoc3(
        x,
        fdb_max_phrase(v) + d_close(v) + text_tail_e(v) + text_tail_f(v) + text_tail_g(v),
        text_tail_h(v),
    );
    lemma_assoc3(
        x,
        fdb_max_phrase(v) + d_close(v) + text_tail_e(v) + text_tail_f(v) + text_tail_g(v)
            + text_tail_h(v),
        text_tail_i(v),
    );
    assert(bridge_text(v) == fdb_n_pre(v) + fdb_n_phrase(v) + fdb_n_suf(v));
    if v.fdb_n_learned is Some {
        lemma_concat_contains(fdb_n_pre(v), fdb_n_phrase(v), fdb_n_suf(v));
    }
}

/// The two timer phrases that close segment c, after its counters.
pub open spec fn c_head(v: BridgeView) -> Seq<char> {
    "root_path_cost "@ + dec_nat(v.root_path_cost as nat) + " "@ + "topology_change "@ + dec_nat(
        v.topology_change as nat,
    ) + " "@ + "topology_change_detected "@ + dec_nat(v.topology_change_detected as nat) + " "@
}

/// Segment c splits exactly into its counters and its two timer phrases.
#[verifier::rlimit(100)]
pub proof fn lemma_c_split(p: Seq<char>, v: BridgeView)
    ensures
        bridge_text_c(p, v) == p + c_head(v) + timer_phrase("hello_timer "@, v.hello_timer)
            + timer_phrase("tcn_timer "@, v.tcn_timer),
{
    assert(bridge_text_c(p, v) =~= p + c_head(v) + timer_phrase("hello_timer "@, v.hello_timer)
        + timer_phrase("tcn_timer "@, v.tcn_timer));
}

/// Every timer field renders through the fixed-point timer image: the text
/// contains each timer phrase, the label followed by the seven-wide
/// two-decimal image of the raw centisecond count.
#[verifier::rlimit(100)]
pub proof fn lemma_timer_rendering(v: BridgeView)
    ensures
        text_contains(bridge_text(v), timer_phrase("hello_timer "@, v.hello_timer)),
        text_contains(bridge_text(v), timer_phrase("tcn_timer "@, v.tcn_timer)),
        text_contains(
            bridge_text(v),
            timer_phrase("topology_change_timer "@, v.topology_change_timer),
        ),
        text_contains(bridge_text(v), timer_phrase("gc_timer "@, v.gc_timer)),
{
    lemma_fdb_learned_rendering(v);
    let b = bridge_text_b(bridge_text_a(Seq::<char>::empty(), v), v);
    lemma_c_split(b, v);
    let hello = timer_phrase("hello_timer "@, v.hello_timer);
    let tcn = timer_phrase("tcn_timer "@, v.tcn_timer);
    let tct = timer_phrase("topology_change_timer "@, v.topology_change_timer);
    let gc = timer_phrase("gc_timer "@, v.gc_timer);
    let fp = fdb_n_phrase(v);
    let fs = fdb_n_suf(v);
    let c = b + c_head(v) + hello + tcn;
    assert(text_chain_c(v) == c);
    // The whole text around the segment-c timers.
    assert(bridge_text(v) == (c + d_head(v)) + fp + fs);
    lemma_assoc3(c, d_head(v), fp);
    lemma_assoc3(c, d_head(v) + fp, fs);
    let s = d_head(v) + fp + fs;
    assert(bridge_text(v) == c + s);
    lemma_assoc3(b + c_head(v) + hello, tcn, s);
    lemma_concat_contains(b + c_head(v) + hello, tcn, s);
    lemma_assoc3(b + c_head(v), hello, tcn + s);
    lemma_concat_contains(b + c_head(v), hello, tcn + s);
    // The whole text around the segment-d timers.
    assert(d_head(v) == tct + gc);
    lemma_assoc3(c, tct, gc);
    assert(bridge_text(v) == ((c + tct) + gc) + fp + fs);
    lemma_assoc3((c + tct) + gc, fp, fs);
    lemma_concat_contains(c + tct, gc, fp + fs);
    lemma_assoc3(c + tct, gc, fp + fs);
    lemma_concat_contains(c, tct, gc + (fp + fs));
}

/// Segment e of the JSON, taken on its own.
pub open spec fn json_tail_e(v: BridgeView) -> Seq<char> {
    bridge_json_e(Seq::<char>::empty(), v)
}

/// Segment f of the JSON, taken on its own.
pub open spec fn json_tail_f(v: BridgeView) -> Seq<char> {
    bridge_json_f(Seq::<char>::empty(), v)
}

/// Segment g of the JSON, taken on its own.
pub open spec fn json_tail_g(v: BridgeView) -> Seq<char> {
    bridge_json_g(Seq::<char>::empty(), v)
}

/// Segment h of the JSON, taken on its own.
pub open spec fn json_tail_h(v: BridgeView) -> Seq<char> {
    bridge_json_h(Seq::<char>::empty(), v)
}

/// Segment i of the JSON, taken on its own.
pub open spec fn json_tail_i(v: BridgeView) -> Seq<char> {
    bridge_json_i(Seq::<char>::empty(), v)
}

/// JSON segment e only appends to its prefix.
#[verifier::rlimit(100)]
pub proof fn lemma_json_shift_e(p: Seq<char>, v: BridgeView)
    ensures
        bridge_json_e(p, v) == p + json_tail_e(v),
{
    assert(bridge_json_e(p, v) =~= p + json_tail_e(v));
}

/// JSON segment f only appends to its prefix.
#[verifier::rlimit(100)]
pub proof fn lemma_json_shift_f(p: Seq<char>, v: BridgeView)
    ensures
        bridge_json_f(p, v) == p + json_tail_f(v),
{
    assert(bridge_json_f(p, v) =~= p + json_tail_f(v));
}

/// JSON segment g only appends to its prefix.
#[verifier::rlimit(100)]
pub proof fn lemma_json_shift_g(p: Seq<char>, v: BridgeView)
    ensures
        bridge_json_g(p, v) == p + json_tail_g(v),
{
    assert(bridge_json_g(p, v) =~= p + json_tail_g(v));
}

/// JSON segment h only appends to its prefix.
#[verifier::rlimit(100)]
pub proof fn lemma_json_shift_h(p: Seq<char>, v: BridgeView)
    ensures
        bridge_json_h(p, v) == p + json_tail_h(v),
{
    assert(bridge_json_h(p, v) =~= p + json_tail_h(v));
}

/// JSON segment i only appends to its prefix.
#[verifier::rlimit(100)]
pub proof fn lemma_json_shift_i(p: Seq<char>, v: BridgeView)
    ensures
        bridge_json_i(p, v) == p + json_tail_i(v),
{
    assert(bridge_json_i(p, v) =~= p + json_tail_i(v));
}

/// The learned-address member of the JSON object: present exactly when the
/// attribute was seen, never emitted as zero or null.
pub open spec fn fdb_n_member(v: BridgeView) -> Seq<char> {
    match v.fdb_n_learned {
        Some(x) => ",\"fdb_n_learned\":"@ + dec_nat(x as nat),
        None => Seq::<char>::empty(),
    }
}

/// The optional learned-address limit member.
pub open spec fn fdb_max_member(v: BridgeView) -> Seq<char> {
    match v.fdb_max_learned {
        Some(x) => ",\"fdb_max_learned\":"@ + dec_nat(x as nat),
        None => Seq::<char>::empty(),
    }
}

/// The timer members that open JSON segment d.
pub open spec fn json_d_head(v: BridgeView) -> Seq<char> {
    ",\"topology_change_timer\":"@ + dec_nat(v.topology_change_timer as nat) + ",\"gc_timer\":"@
        + dec_nat(v.gc_timer as nat)
}

/// The member that closes JSON segment d.
pub open spec fn json_d_close(v: BridgeView) -> Seq<char> {
    ",\"vlan_default_pvid\":"@ + dec_nat(v.vlan_default_pvid as nat)
}

/// JSON segment d splits exactly into its timers, the two learned-address
/// members and its closing counter.
#[verifier::rlimit(100)]
pub proof fn lemma_json_d_split(p: Seq<char>, v: BridgeView)
    ensures
        bridge_json_d(p, v) == p + json_d_head(v) + fdb_n_member(v) + fdb_max_member(v)
            + json_d_close(v),
{
    assert(bridge_json_d(p, v) =~= p + json_d_head(v) + fdb_n_member(v) + fdb_max_member(v)
        + json_d_close(v));
}

/// What precedes the learned-address member.
pub open spec fn fdb_n_json_pre(v: BridgeView) -> Seq<char> {
    bridge_json_c(bridge_json_b(bridge_json_a(Seq::<char>::empty(), v), v), v) + json_d_head(v)
}

/// What follows the learned-address member.
pub open spec fn fdb_n_json_suf(v: BridgeView) -> Seq<char> {
    fdb_max_member(v) + json_d_close(v) + json_tail_e(v) + json_tail_f(v) + json_tail_g(v)
        + json_tail_h(v) + json_tail_i(v)
}

/// The bridge JSON splits exactly around the learned-address member: a
/// record decoded without the attribute emits no such key at all.
#[verifier::rlimit(100)]
pub proof fn lemma_fdb_learned_json(v: BridgeView)
    ensures
        bridge_json(v) == fdb_n_json_pre(v) + fdb_n_member(v) + fdb_n_json_suf(v),
        v.fdb_n_learned is None ==> fdb_n_member(v) == Seq::<char>::empty(),
        v.fdb_n_learned matches Some(x) ==> text_contains(
            bridge_json(v),
            ",\"fdb_n_learned\":"@ + dec_nat(x as nat),
        ),
{
    let c = bridge_json_c(bridge_json_b(bridge_json_a(Seq::<char>::empty(), v), v), v);
    let d = bridge_json_d(c, v);
    lemma_json_d_split(c, v);
    lemma_json_shift_e(d, v);
    lemma_json_shift_f(bridge_json_e(d, v), v);
    lemma_json_shift_g(bridge_json_f(bridge_json_e(d, v), v), v);
    lemma_json_shift_h(bridge_json_g(bridge_json_f(bridge_json_e(d, v), v), v), v);
    lemma_json_shift_i(
        bridge_json_h(bridge_json_g(bridge_json_f(bridge_json_e(d, v), v), v), v),
        v,
    );
    assert(bridge_json(v) == d + json_tail_e(v) + json_tail_f(v) + json_tail_g(v) + json_tail_h(v)
        + json_tail_i(v));
    let x = fdb_n_json_pre(v) + fdb_n_member(v);
    assert(d == x + fdb_max_member(v) + json_d_close(v));
    lemma_assoc3(x, fdb_max_member(v), json_d_close(v));
    lemma_assoc3(x, fdb_max_member(v) + json_d_close(v), json_tail_e(v));
    lemma_assoc3(x, fdb_max_member(v) + json_d_close(v) + json_tail_e(v), json_tail_f(v));
    lemma_assoc3(
        x,
        fdb_max_member(v) + json_d_close(v) + json_tail_e(v) + json_tail_f(v),
        json_tail_g(v),
    );
    lemma_assoc3(
        x,
        fdb_max_member(v) + json_d_close(v) + json_tail_e(v) + json_tail_f(v) + json_tail_g(v),
        json_tail_h(v),
    );
    lemma_assoc3(
        x,
        fdb_max_member(v) + json_d_close(v) + json_tail_e(v) + json_tail_f(v) + json_tail_g(v)
            + json_tail_h(v),
        json_tail_i(v),
    );
    assert(bridge_json(v) == fdb_n_json_pre(v) + fdb_n_member(v) + fdb_n_json_suf(v));
    if v.fdb_n_learned is Some {
        lemma_concat_contains(fdb_n_json_pre(v), fdb_n_member(v), fdb_n_json_suf(v));
    }
}

} // verus!
