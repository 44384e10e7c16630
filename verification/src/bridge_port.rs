//! Decoding and rendering of a bridge port's subordinate attribute list.

use vstd::prelude::*;
use vstd::string::StringExecFns;

use crate::jsonfmt::json_bool;
use crate::jsonfmt::json_str;
use crate::jsonfmt::push_json_bool;
use crate::jsonfmt::push_json_str;
use crate::names::port_state_string;
use crate::names::port_state_text;
use crate::textfmt::bridge_id_text;
use crate::textfmt::dec_nat;
use crate::textfmt::format_bridge_id;
use crate::textfmt::hex0x;
use crate::textfmt::on_off_text;
use crate::textfmt::push_dec_u64;
use crate::textfmt::push_hex0x;
use crate::textfmt::push_on_off;
use crate::textfmt::push_timer;
use crate::textfmt::timer_text;
use crate::wire::InfoBridgePort;

verus! {

/// Decoded bridge-port data.
pub struct CliLinkInfoDataBridgePort {
    pub state: String,
    pub priority: u32,
    pub cost: u32,
    pub hairpin: bool,
    pub guard: bool,
    pub root_block: bool,
    pub fastleave: bool,
    pub learning: bool,
    pub flood: bool,
    pub id: String,
    pub no: String,
    pub designated_port: u32,
    pub designated_cost: u32,
    pub bridge_id: Option<String>,
    pub root_id: Option<String>,
    pub hold_timer: u64,
    pub message_age_timer: u64,
    pub forward_delay_timer: u64,
    pub topology_change_ack: u8,
    pub config_pending: u8,
    pub proxy_arp: bool,
    pub proxy_arp_wifi: bool,
    pub multicast_router: u8,
    pub mcast_flood: bool,
    pub bcast_flood: bool,
    pub mcast_to_unicast: bool,
    pub neigh_suppress: bool,
    pub neigh_vlan_suppress: Option<bool>,
    pub group_fwd_mask: u16,
    pub vlan_tunnel: bool,
    pub isolated: bool,
    pub locked: bool,
    pub mab: Option<bool>,
}

/// The ghost image of [`CliLinkInfoDataBridgePort`].
pub ghost struct PortView {
    pub state: Seq<char>,
    pub priority: u32,
    pub cost: u32,
    pub hairpin: bool,
    pub guard: bool,
    pub root_block: bool,
    pub fastleave: bool,
    pub learning: bool,
    pub flood: bool,
    pub id: Seq<char>,
    pub no: Seq<char>,
    pub designated_port: u32,
    pub designated_cost: u32,
    pub bridge_id: Option<Seq<char>>,
    pub root_id: Option<Seq<char>>,
    pub hold_timer: u64,
    pub message_age_timer: u64,
    pub forward_delay_timer: u64,
    pub topology_change_ack: u8,
    pub config_pending: u8,
    pub proxy_arp: bool,
    pub proxy_arp_wifi: bool,
    pub multicast_router: u8,
    pub mcast_flood: bool,
    pub bcast_flood: bool,
    pub mcast_to_unicast: bool,
    pub neigh_suppress: bool,
    pub neigh_vlan_suppress: Option<bool>,
    pub group_fwd_mask: u16,
    pub vlan_tunnel: bool,
    pub isolated: bool,
    pub locked: bool,
    pub mab: Option<bool>,
}

impl View for CliLinkInfoDataBridgePort {
    type V = PortView;

    open spec fn view(&self) -> PortView {
        PortView {
            state: self.state@,
            priority: self.priority,
            cost: self.cost,
            hairpin: self.hairpin,
            guard: self.guard,
            root_block: self.root_block,
            fastleave: self.fastleave,
            learning: self.learning,
            flood: self.flood,
            id: self.id@,
            no: self.no@,
            designated_port: self.designated_port,
            designated_cost: self.designated_cost,
            bridge_id: self.bridge_id.deep_view(),
            root_id: self.root_id.deep_view(),
            hold_timer: self.hold_timer,
            message_age_timer: self.message_age_timer,
            forward_delay_timer: self.forward_delay_timer,
            topology_change_ack: self.topology_change_ack,
            config_pending: self.config_pending,
            proxy_arp: self.proxy_arp,
            proxy_arp_wifi: self.proxy_arp_wifi,
            multicast_router: self.multicast_router,
            mcast_flood: self.mcast_flood,
            bcast_flood: self.bcast_flood,
            mcast_to_unicast: self.mcast_to_unicast,
            neigh_suppress: self.neigh_suppress,
            neigh_vlan_suppress: self.neigh_vlan_suppress,
            group_fwd_mask: self.group_fwd_mask,
            vlan_tunnel: self.vlan_tunnel,
            isolated: self.isolated,
            locked: self.locked,
            mab: self.mab,
        }
    }
}

/// The empty port record every decode starts from.
pub open spec fn port_init() -> PortView {
    PortView {
        state: Seq::<char>::empty(),
        priority: 0,
        cost: 0,
        hairpin: false,
        guard: false,
        root_block: false,
        fastleave: false,
        learning: false,
        flood: false,
        id: Seq::<char>::empty(),
        no: Seq::<char>::empty(),
        designated_port: 0,
        designated_cost: 0,
        bridge_id: None,
        root_id: None,
        hold_timer: 0,
        message_age_timer: 0,
        forward_delay_timer: 0,
        topology_change_ack: 0,
        config_pending: 0,
        proxy_arp: false,
        proxy_arp_wifi: false,
        multicast_router: 0,
        mcast_flood: false,
        bcast_flood: false,
        mcast_to_unicast: false,
        neigh_suppress: false,
        neigh_vlan_suppress: None,
        group_fwd_mask: 0,
        vlan_tunnel: false,
        isolated: false,
        locked: false,
        mab: None,
    }
}

/// One decode step over the port record.
pub open spec fn port_step(acc: PortView, a: InfoBridgePort) -> PortView {
    match a {
        InfoBridgePort::State(v) => PortView { state: port_state_text(v), ..acc },
        InfoBridgePort::Priority(v) => PortView { priority: v as u32, ..acc },
        InfoBridgePort::Cost(v) => PortView { cost: v, ..acc },
        InfoBridgePort::HairpinMode(v) => PortView { hairpin: v, ..acc },
        InfoBridgePort::Guard(v) => PortView { guard: v, ..acc },
        InfoBridgePort::Protect(v) => PortView { root_block: v, ..acc },
        InfoBridgePort::FastLeave(v) => PortView { fastleave: v, ..acc },
        InfoBridgePort::Learning(v) => PortView { learning: v, ..acc },
        InfoBridgePort::UnicastFlood(v) => PortView { flood: v, ..acc },
        InfoBridgePort::PortId(v) => PortView { id: hex0x(v as nat), ..acc },
        InfoBridgePort::PortNumber(v) => PortView { no: hex0x(v as nat), ..acc },
        InfoBridgePort::DesignatedPort(v) => PortView { designated_port: v as u32, ..acc },
        InfoBridgePort::DesignatedCost(v) => PortView { designated_cost: v as u32, ..acc },
        InfoBridgePort::BridgeId(b) => PortView {
            bridge_id: Some(bridge_id_text(b.priority, b.address@)),
            ..acc
        },
        InfoBridgePort::RootId(b) => PortView {
            root_id: Some(bridge_id_text(b.priority, b.address@)),
            ..acc
        },
        InfoBridgePort::HoldTimer(v) => PortView { hold_timer: v, ..acc },
        InfoBridgePort::MessageAgeTimer(v) => PortView { message_age_timer: v, ..acc },
        InfoBridgePort::ForwardDelayTimer(v) => PortView { forward_delay_timer: v, ..acc },
        InfoBridgePort::TopologyChangeAck(v) => PortView {
            topology_change_ack: if v {
                1
            } else {
                0
            },
            ..acc
        },
        InfoBridgePort::ConfigPending(v) => PortView {
            config_pending: if v {
                1
            } else {
                0
            },
            ..acc
        },
        InfoBridgePort::ProxyArp(v) => PortView { proxy_arp: v, ..acc },
        InfoBridgePort::ProxyArpWifi(v) => PortView { proxy_arp_wifi: v, ..acc },
        InfoBridgePort::MulticastRouter(v) => PortView { multicast_router: v, ..acc },
        InfoBridgePort::MulticastFlood(v) => PortView { mcast_flood: v, ..acc },
        InfoBridgePort::BroadcastFlood(v) => PortView { bcast_flood: v, ..acc },
        InfoBridgePort::MulticastToUnicast(v) => PortView { mcast_to_unicast: v, ..acc },
        InfoBridgePort::NeighSuppress(v) => PortView { neigh_suppress: v, ..acc },
        InfoBridgePort::NeighVlanSuppress(v) => PortView { neigh_vlan_suppress: Some(v), ..acc },
        InfoBridgePort::GroupFwdMask(v) => PortView { group_fwd_mask: v, ..acc },
        InfoBridgePort::VlanTunnel(v) => PortView { vlan_tunnel: v, ..acc },
        InfoBridgePort::Isolated(v) => PortView { isolated: v, ..acc },
        InfoBridgePort::Locked(v) => PortView { locked: v, ..acc },
        InfoBridgePort::Mab(v) => PortView { mab: Some(v), ..acc },
        _ => acc,
    }
}

/// The decode of a whole port attribute list, in list order.
pub open spec fn port_fold(s: Seq<InfoBridgePort>) -> PortView
    decreases s.len(),
{
    if s.len() == 0 {
        port_init()
    } else {
        port_step(port_fold(s.drop_last()), s.last())
    }
}

impl CliLinkInfoDataBridgePort {
    /// Decodes a port attribute list; absent attributes keep their zero,
    /// empty or `None` defaults, repeated attributes keep the last value.
    pub fn new(info: &[InfoBridgePort]) -> (r: Self)
        ensures
            r@ == port_fold(info@),
    {
        let mut r = port_zeroed();
        assert(info@.take(0) =~= Seq::<InfoBridgePort>::empty());
        let n: usize = info.len();
        let mut i: usize = 0;
        while i < n
            invariant
                i <= n,
                n == info@.len(),
                r@ == port_fold(info@.take(i as int)),
            decreases n - i,
        {
            port_apply(&mut r, &info[i]);
            proof {
                let t = info@.take(i + 1 as int);
                assert(t.drop_last() =~= info@.take(i as int));
                assert(t.last() == info@[i as int]);
            }
            i = i + 1;
        }
        assert(info@.take(n as int) =~= info@);
        r
    }
}

/// The empty port record.
fn port_zeroed() -> (r: CliLinkInfoDataBridgePort)
    ensures
        r@ == port_init(),
{
    let r = CliLinkInfoDataBridgePort {
        state: String::new(),
        priority: 0,
        cost: 0,
        hairpin: false,
        guard: false,
        root_block: false,
        fastleave: false,
        learning: false,
        flood: false,
        id: String::new(),
        no: String::new(),
        designated_port: 0,
        designated_cost: 0,
        bridge_id: None,
        root_id: None,
        hold_timer: 0,
        message_age_timer: 0,
        forward_delay_timer: 0,
        topology_change_ack: 0,
        config_pending: 0,
        proxy_arp: false,
        proxy_arp_wifi: false,
        multicast_router: 0,
        mcast_flood: false,
        bcast_flood: false,
        mcast_to_unicast: false,
        neigh_suppress: false,
        neigh_vlan_suppress: None,
        group_fwd_mask: 0,
        vlan_tunnel: false,
        isolated: false,
        locked: false,
        mab: None,
    };
    assert(r@ == port_init());
    r
}

/// The `0x`-prefixed hex image of `v` as a `String`.
fn hex0x_string(v: u64) -> (r: String)
    ensures
        r@ == hex0x(v as nat),
{
    let mut s = String::new();
    push_hex0x(&mut s, v);
    assert(s@ =~= hex0x(v as nat));
    s
}

/// Applies one attribute to the record under construction; each setter
/// carries its own field-update contract.
#[verifier::rlimit(100)]
fn port_apply(r: &mut CliLinkInfoDataBridgePort, a: &InfoBridgePort)
    ensures
        final(r)@ == port_step(old(r)@, *a),
{
    match a {
        InfoBridgePort::State(v) => port_set_state(r, *v),
        InfoBridgePort::Priority(v) => port_set_priority(r, *v),
        InfoBridgePort::Cost(v) => port_set_cost(r, *v),
        InfoBridgePort::HairpinMode(v) => port_set_hairpin(r, *v),
        InfoBridgePort::Guard(v) => port_set_guard(r, *v),
        InfoBridgePort::Protect(v) => port_set_root_block(r, *v),
        InfoBridgePort::FastLeave(v) => port_set_fastleave(r, *v),
        InfoBridgePort::Learning(v) => port_set_learning(r, *v),
        InfoBridgePort::UnicastFlood(v) => port_set_flood(r, *v),
        InfoBridgePort::PortId(v) => port_set_id(r, *v),
        InfoBridgePort::PortNumber(v) => port_set_no(r, *v),
        InfoBridgePort::DesignatedPort(v) => port_set_designated_port(r, *v),
        InfoBridgePort::DesignatedCost(v) => port_set_designated_cost(r, *v),
        InfoBridgePort::BridgeId(b) => port_set_bridge_id(r, b),
        InfoBridgePort::RootId(b) => port_set_root_id(r, b),
        InfoBridgePort::HoldTimer(v) => port_set_hold_timer(r, *v),
        InfoBridgePort::MessageAgeTimer(v) => port_set_message_age_timer(r, *v),
        InfoBridgePort::ForwardDelayTimer(v) => port_set_forward_delay_timer(r, *v),
        InfoBridgePort::TopologyChangeAck(v) => port_set_topology_change_ack(r, *v),
        InfoBridgePort::ConfigPending(v) => port_set_config_pending(r, *v),
        InfoBridgePort::ProxyArp(v) => port_set_proxy_arp(r, *v),
        InfoBridgePort::ProxyArpWifi(v) => port_set_proxy_arp_wifi(r, *v),
        InfoBridgePort::MulticastRouter(v) => port_set_multicast_router(r, *v),
        InfoBridgePort::MulticastFlood(v) => port_set_mcast_flood(r, *v),
        InfoBridgePort::BroadcastFlood(v) => port_set_bcast_flood(r, *v),
        InfoBridgePort::MulticastToUnicast(v) => port_set_mcast_to_unicast(r, *v),
        InfoBridgePort::NeighSuppress(v) => port_set_neigh_suppress(r, *v),
        InfoBridgePort::NeighVlanSuppress(v) => port_set_neigh_vlan_suppress(r, *v),
        InfoBridgePort::GroupFwdMask(v) => port_set_group_fwd_mask(r, *v),
        InfoBridgePort::VlanTunnel(v) => port_set_vlan_tunnel(r, *v),
        InfoBridgePort::Isolated(v) => port_set_isolated(r, *v),
        InfoBridgePort::Locked(v) => port_set_locked(r, *v),
        InfoBridgePort::Mab(v) => port_set_mab(r, *v),
        _ => {},
    }
}

fn port_set_state(r: &mut CliLinkInfoDataBridgePort, v: u8)
    ensures
        final(r)@ == (PortView { state: port_state_text(v), ..old(r)@ }),
{
    r.state = port_state_string(v);
}

fn port_set_priority(r: &mut CliLinkInfoDataBridgePort, v: u16)
    ensures
        final(r)@ == (PortView { priority: v as u32, ..old(r)@ }),
{
    r.priority = v as u32;
}

fn port_set_cost(r: &mut CliLinkInfoDataBridgePort, v: u32)
    ensures
        final(r)@ == (PortView { cost: v, ..old(r)@ }),
{
    r.cost = v;
}

fn port_set_hairpin(r: &mut CliLinkInfoDataBridgePort, v: bool)
    ensures
        final(r)@ == (PortView { hairpin: v, ..old(r)@ }),
{
    r.hairpin = v;
}

fn port_set_guard(r: &mut CliLinkInfoDataBridgePort, v: bool)
    ensures
        final(r)@ == (PortView { guard: v, ..old(r)@ }),
{
    r.guard = v;
}

fn port_set_root_block(r: &mut CliLinkInfoDataBridgePort, v: bool)
    ensures
        final(r)@ == (PortView { root_block: v, ..old(r)@ }),
{
    r.root_block = v;
}

fn port_set_fastleave(r: &mut CliLinkInfoDataBridgePort, v: bool)
    ensures
        final(r)@ == (PortView { fastleave: v, ..old(r)@ }),
{
    r.fastleave = v;
}

fn port_set_learning(r: &mut CliLinkInfoDataBridgePort, v: bool)
    ensures
        final(r)@ == (PortView { learning: v, ..old(r)@ }),
{
    r.learning = v;
}

fn port_set_flood(r: &mut CliLinkInfoDataBridgePort, v: bool)
    ensures
        final(r)@ == (PortView { flood: v, ..old(r)@ }),
{
    r.flood = v;
}

fn port_set_id(r: &mut CliLinkInfoDataBridgePort, v: u16)
    ensures
        final(r)@ == (PortView { id: hex0x(v as nat), ..old(r)@ }),
{
    r.id = hex0x_string(v as u64);
}

fn port_set_no(r: &mut CliLinkInfoDataBridgePort, v: u16)
    ensures
        final(r)@ == (PortView { no: hex0x(v as nat), ..old(r)@ }),
{
    r.no = hex0x_string(v as u64);
}

fn port_set_designated_port(r: &mut CliLinkInfoDataBridgePort, v: u16)
    ensures
        final(r)@ == (PortView { designated_port: v as u32, ..old(r)@ }),
{
    r.designated_port = v as u32;
}

fn port_set_designated_cost(r: &mut CliLinkInfoDataBridgePort, v: u16)
    ensures
        final(r)@ == (PortView { designated_cost: v as u32, ..old(r)@ }),
{
    r.designated_cost = v as u32;
}

fn port_set_bridge_id(r: &mut CliLinkInfoDataBridgePort, b: &crate::wire::BridgeId)
    ensures
        final(r)@ == (PortView { bridge_id: Some(bridge_id_text(b.priority, b.address@)), ..old(r)@ }),
{
    r.bridge_id = Some(format_bridge_id(b.priority, b.address));
}

fn port_set_root_id(r: &mut CliLinkInfoDataBridgePort, b: &crate::wire::BridgeId)
    ensures
        final(r)@ == (PortView { root_id: Some(bridge_id_text(b.priority, b.address@)), ..old(r)@ }),
{
    r.root_id = Some(format_bridge_id(b.priority, b.address));
}

fn port_set_hold_timer(r: &mut CliLinkInfoDataBridgePort, v: u64)
    ensures
        final(r)@ == (PortView { hold_timer: v, ..old(r)@ }),
{
    r.hold_timer = v;
}

fn port_set_message_age_timer(r: &mut CliLinkInfoDataBridgePort, v: u64)
    ensures
        final(r)@ == (PortView { message_age_timer: v, ..old(r)@ }),
{
    r.message_age_timer = v;
}

fn port_set_forward_delay_timer(r: &mut CliLinkInfoDataBridgePort, v: u64)
    ensures
        final(r)@ == (PortView { forward_delay_timer: v, ..old(r)@ }),
{
    r.forward_delay_timer = v;
}

fn port_set_topology_change_ack(r: &mut CliLinkInfoDataBridgePort, v: bool)
    ensures
        final(r)@ == (PortView { topology_change_ack: if v { 1 } else { 0 }, ..old(r)@ }),
{
    r.topology_change_ack = if v { 1 } else { 0 };
}

fn port_set_config_pending(r: &mut CliLinkInfoDataBridgePort, v: bool)
    ensures
        final(r)@ == (PortView { config_pending: if v { 1 } else { 0 }, ..old(r)@ }),
{
    r.config_pending = if v { 1 } else { 0 };
}

fn port_set_proxy_arp(r: &mut CliLinkInfoDataBridgePort, v: bool)
    ensures
        final(r)@ == (PortView { proxy_arp: v, ..old(r)@ }),
{
    r.proxy_arp = v;
}

fn port_set_proxy_arp_wifi(r: &mut CliLinkInfoDataBridgePort, v: bool)
    ensures
        final(r)@ == (PortView { proxy_arp_wifi: v, ..old(r)@ }),
{
    r.proxy_arp_wifi = v;
}

fn port_set_multicast_router(r: &mut CliLinkInfoDataBridgePort, v: u8)
    ensures
        final(r)@ == (PortView { multicast_router: v, ..old(r)@ }),
{
    r.multicast_router = v;
}

fn port_set_mcast_flood(r: &mut CliLinkInfoDataBridgePort, v: bool)
    ensures
        final(r)@ == (PortView { mcast_flood: v, ..old(r)@ }),
{
    r.mcast_flood = v;
}

fn port_set_bcast_flood(r: &mut CliLinkInfoDataBridgePort, v: bool)
    ensures
        final(r)@ == (PortView { bcast_flood: v, ..old(r)@ }),
{
    r.bcast_flood = v;
}

fn port_set_mcast_to_unicast(r: &mut CliLinkInfoDataBridgePort, v: bool)
    ensures
        final(r)@ == (PortView { mcast_to_unicast: v, ..old(r)@ }),
{
    r.mcast_to_unicast = v;
}

fn port_set_neigh_suppress(r: &mut CliLinkInfoDataBridgePort, v: bool)
    ensures
        final(r)@ == (PortView { neigh_suppress: v, ..old(r)@ }),
{
    r.neigh_suppress = v;
}

fn port_set_neigh_vlan_suppress(r: &mut CliLinkInfoDataBridgePort, v: bool)
    ensures
        final(r)@ == (PortView { neigh_vlan_suppress: Some(v), ..old(r)@ }),
{
    r.neigh_vlan_suppress = Some(v);
}

fn port_set_group_fwd_mask(r: &mut CliLinkInfoDataBridgePort, v: u16)
    ensures
        final(r)@ == (PortView { group_fwd_mask: v, ..old(r)@ }),
{
    r.group_fwd_mask = v;
}

fn port_set_vlan_tunnel(r: &mut CliLinkInfoDataBridgePort, v: bool)
    ensures
        final(r)@ == (PortView { vlan_tunnel: v, ..old(r)@ }),
{
    r.vlan_tunnel = v;
}

fn port_set_isolated(r: &mut CliLinkInfoDataBridgePort, v: bool)
    ensures
        final(r)@ == (PortView { isolated: v, ..old(r)@ }),
{
    r.isolated = v;
}

fn port_set_locked(r: &mut CliLinkInfoDataBridgePort, v: bool)
    ensures
        final(r)@ == (PortView { locked: v, ..old(r)@ }),
{
    r.locked = v;
}

fn port_set_mab(r: &mut CliLinkInfoDataBridgePort, v: bool)
    ensures
        final(r)@ == (PortView { mab: Some(v), ..old(r)@ }),
{
    r.mab = Some(v);
}

// ---------------------------------------------------------------------------
// Compatibility text form
// ---------------------------------------------------------------------------

/// The compatibility text image of a port record, built segment by segment.
pub open spec fn port_text(v: PortView) -> Seq<char> {
    port_text_f(
        port_text_e(port_text_d(port_text_c(port_text_b(port_text_a(Seq::<char>::empty(), v), v), v), v), v),
        v,
    )
}

/// State, spanning-tree numbers and the first switch block.
pub open spec fn port_text_a(p: Seq<char>, v: PortView) -> Seq<char> {
    p + "state "@ + v.state + " "@ + "priority "@ + dec_nat(v.priority as nat) + " "@ + "cost "@
        + dec_nat(v.cost as nat) + " "@ + "hairpin "@ + on_off_text(v.hairpin) + " "@ + "guard "@
        + on_off_text(v.guard) + " "@ + "root_block "@ + on_off_text(v.root_block) + " "@
}

/// Learning and flooding switches and the port numbering.
pub open spec fn port_text_b(p: Seq<char>, v: PortView) -> Seq<char> {
    p + "fastleave "@ + on_off_text(v.fastleave) + " "@ + "learning "@ + on_off_text(v.learning)
        + " "@ + "flood "@ + on_off_text(v.flood) + " "@ + "port_id "@ + v.id + " "@ + "port_no "@
        + v.no + " "@ + "designated_port "@ + dec_nat(v.designated_port as nat) + " "@
}

/// Designated references and the timers.
pub open spec fn port_text_c(p: Seq<char>, v: PortView) -> Seq<char> {
    p + "designated_cost "@ + dec_nat(v.designated_cost as nat) + " "@ + (match v.bridge_id {
        Some(t) => "designated_bridge "@ + t + " "@,
        None => Seq::<char>::empty(),
    }) + (match v.root_id {
        Some(t) => "designated_root "@ + t + " "@,
        None => Seq::<char>::empty(),
    }) + "hold_timer "@ + timer_text(v.hold_timer) + " "@ + "message_age_timer "@ + timer_text(
        v.message_age_timer,
    ) + " "@ + "forward_delay_timer "@ + timer_text(v.forward_delay_timer) + " "@
}

/// Topology acknowledgement and the proxy switches.
pub open spec fn port_text_d(p: Seq<char>, v: PortView) -> Seq<char> {
    p + "topology_change_ack "@ + dec_nat(v.topology_change_ack as nat) + " "@ + "config_pending "@
        + dec_nat(v.config_pending as nat) + " "@ + "proxy_arp "@ + on_off_text(v.proxy_arp) + " "@
        + "proxy_arp_wifi "@ + on_off_text(v.proxy_arp_wifi) + " "@ + "mcast_router "@ + dec_nat(
        v.multicast_router as nat,
    ) + " "@ + "mcast_fast_leave "@ + on_off_text(v.fastleave) + " "@
}

/// The multicast flood switches and neighbour suppression.
pub open spec fn port_text_e(p: Seq<char>, v: PortView) -> Seq<char> {
    p + "mcast_flood "@ + on_off_text(v.mcast_flood) + " "@ + "bcast_flood "@ + on_off_text(
        v.bcast_flood,
    ) + " "@ + "mcast_to_unicast "@ + on_off_text(v.mcast_to_unicast) + " "@ + "neigh_suppress "@
        + on_off_text(v.neigh_suppress) + " "@ + "neigh_vlan_suppress "@ + (
    match v.neigh_vlan_suppress {
        Some(b) => on_off_text(b),
        None => "off"@,
    }) + " "@
}

/// The forwarding mask in both images, isolation, and the closing switches.
pub open spec fn port_text_f(p: Seq<char>, v: PortView) -> Seq<char> {
    p + "group_fwd_mask "@ + dec_nat(v.group_fwd_mask as nat) + " "@ + "group_fwd_mask_str "@
        + hex0x(v.group_fwd_mask as nat) + " "@ + "vlan_tunnel "@ + on_off_text(v.vlan_tunnel)
        + " "@ + "isolated "@ + on_off_text(v.isolated) + " "@ + "locked "@ + on_off_text(v.locked)
        + " "@ + "mab "@ + (match v.mab {
        Some(b) => on_off_text(b),
        None => "off"@,
    })
}

impl CliLinkInfoDataBridgePort {
    /// The compatibility text form.
    pub fn gen_string(&self) -> (r: String)
        ensures
            r@ == port_text(self@),
    {
        let mut out = String::new();
        self.push_text_a(&mut out);
        self.push_text_b(&mut out);
        self.push_text_c(&mut out);
        self.push_text_d(&mut out);
        self.push_text_e(&mut out);
        self.push_text_f(&mut out);
        out
    }

    fn push_text_a(&self, out: &mut String)
        ensures
            final(out)@ == port_text_a(old(out)@, self@),
    {
        out.append("state ");
        out.append(self.state.as_str());
        out.append(" ");
        out.append("priority ");
        push_dec_u64(out, self.priority as u64);
        out.append(" ");
        out.append("cost ");
        push_dec_u64(out, self.cost as u64);
        out.append(" ");
        out.append("hairpin ");
        push_on_off(out, self.hairpin);
        out.append(" ");
        out.append("guard ");
        push_on_off(out, self.guard);
        out.append(" ");
        out.append("root_block ");
        push_on_off(out, self.root_block);
        out.append(" ");
    }

    fn push_text_b(&self, out: &mut String)
        ensures
            final(out)@ == port_text_b(old(out)@, self@),
    {
        out.append("fastleave ");
        push_on_off(out, self.fastleave);
        out.append(" ");
        out.append("learning ");
        push_on_off(out, self.learning);
        out.append(" ");
        out.append("flood ");
        push_on_off(out, self.flood);
        out.append(" ");
        out.append("port_id ");
        out.append(self.id.as_str());
        out.append(" ");
        out.append("port_no ");
        out.append(self.no.as_str());
        out.append(" ");
        out.append("designated_port ");
        push_dec_u64(out, self.designated_port as u64);
        out.append(" ");
    }

    fn push_text_c(&self, out: &mut String)
        ensures
            final(out)@ == port_text_c(old(out)@, self@),
    {
        out.append("designated_cost ");
        push_dec_u64(out, self.designated_cost as u64);
        out.append(" ");
        if let Some(t) = &self.bridge_id {
            out.append("designated_bridge ");
            out.append(t.as_str());
            out.append(" ");
        }
        if let Some(t) = &self.root_id {
            out.append("designated_root ");
            out.append(t.as_str());
            out.append(" ");
        }
        out.append("hold_timer ");
        push_timer(out, self.hold_timer);
        out.append(" ");
        out.append("message_age_timer ");
        push_timer(out, self.message_age_timer);
        out.append(" ");
        out.append("forward_delay_timer ");
        push_timer(out, self.forward_delay_timer);
        out.append(" ");
    }

    fn push_text_d(&self, out: &mut String)
        ensures
            final(out)@ == port_text_d(old(out)@, self@),
    {
        out.append("topology_change_ack ");
        push_dec_u64(out, self.topology_change_ack as u64);
        out.append(" ");
        out.append("config_pending ");
        push_dec_u64(out, self.config_pending as u64);
        out.append(" ");
        out.append("proxy_arp ");
        push_on_off(out, self.proxy_arp);
        out.append(" ");
        out.append("proxy_arp_wifi ");
        push_on_off(out, self.proxy_arp_wifi);
        out.append(" ");
        out.append("mcast_router ");
        push_dec_u64(out, self.multicast_router as u64);
        out.append(" ");
        out.append("mcast_fast_leave ");
        push_on_off(out, self.fastleave);
        out.append(" ");
    }

    fn push_text_e(&self, out: &mut String)
        ensures
            final(out)@ == port_text_e(old(out)@, self@),
    {
        out.append("mcast_flood ");
        push_on_off(out, self.mcast_flood);
        out.append(" ");
        out.append("bcast_flood ");
        push_on_off(out, self.bcast_flood);
        out.append(" ");
        out.append("mcast_to_unicast ");
        push_on_off(out, self.mcast_to_unicast);
        out.append(" ");
        out.append("neigh_suppress ");
        push_on_off(out, self.neigh_suppress);
        out.append(" ");
        out.append("neigh_vlan_suppress ");
        match self.neigh_vlan_suppress {
            Some(b) => push_on_off(out, b),
            None => out.append("off"),
        }
        out.append(" ");
    }

    fn push_text_f(&self, out: &mut String)
        ensures
            final(out)@ == port_text_f(old(out)@, self@),
    {
        out.append("group_fwd_mask ");
        push_dec_u64(out, self.group_fwd_mask as u64);
        out.append(" ");
        out.append("group_fwd_mask_str ");
        push_hex0x(out, self.group_fwd_mask as u64);
        out.append(" ");
        out.append("vlan_tunnel ");
        push_on_off(out, self.vlan_tunnel);
        out.append(" ");
        out.append("isolated ");
        push_on_off(out, self.isolated);
        out.append(" ");
        out.append("locked ");
        push_on_off(out, self.locked);
        out.append(" ");
        out.append("mab ");
        match self.mab {
            Some(b) => push_on_off(out, b),
            None => out.append("off"),
        }
    }
}

// ---------------------------------------------------------------------------
// JSON form
// ---------------------------------------------------------------------------

/// The JSON object image of a port record; the forwarding mask renders as a
/// decimal string beside its hex form, and optional switches are omitted
/// when absent.
pub open spec fn port_json(v: PortView) -> Seq<char> {
    port_json_f(
        port_json_e(port_json_d(port_json_c(port_json_b(port_json_a(Seq::<char>::empty(), v), v), v), v), v),
        v,
    )
}

/// Opens the object with the state and spanning-tree numbers.
pub open spec fn port_json_a(p: Seq<char>, v: PortView) -> Seq<char> {
    p + "{\"state\":"@ + json_str(v.state) + ",\"priority\":"@ + dec_nat(v.priority as nat)
        + ",\"cost\":"@ + dec_nat(v.cost as nat) + ",\"hairpin\":"@ + json_bool(v.hairpin)
        + ",\"guard\":"@ + json_bool(v.guard) + ",\"root_block\":"@ + json_bool(v.root_block)
}

/// Learning and flooding switches and the port numbering.
pub open spec fn port_json_b(p: Seq<char>, v: PortView) -> Seq<char> {
    p + ",\"fastleave\":"@ + json_bool(v.fastleave) + ",\"learning\":"@ + json_bool(v.learning)
        + ",\"flood\":"@ + json_bool(v.flood) + ",\"id\":"@ + json_str(v.id) + ",\"no\":"@
        + json_str(v.no) + ",\"designated_port\":"@ + dec_nat(v.designated_port as nat)
}

/// Designated references and the timers.
pub open spec fn port_json_c(p: Seq<char>, v: PortView) -> Seq<char> {
    p + ",\"designated_cost\":"@ + dec_nat(v.designated_cost as nat) + (match v.bridge_id {
        Some(t) => ",\"bridge_id\":"@ + json_str(t),
        None => Seq::<char>::empty(),
    }) + (match v.root_id {
        Some(t) => ",\"root_id\":"@ + json_str(t),
        None => Seq::<char>::empty(),
    }) + ",\"hold_timer\":"@ + dec_nat(v.hold_timer as nat) + ",\"message_age_timer\":"@ + dec_nat(
        v.message_age_timer as nat,
    ) + ",\"forward_delay_timer\":"@ + dec_nat(v.forward_delay_timer as nat)
}

/// Topology acknowledgement and the proxy switches.
pub open spec fn port_json_d(p: Seq<char>, v: PortView) -> Seq<char> {
    p + ",\"topology_change_ack\":"@ + dec_nat(v.topology_change_ack as nat)
        + ",\"config_pending\":"@ + dec_nat(v.config_pending as nat) + ",\"proxy_arp\":"@
        + json_bool(v.proxy_arp) + ",\"proxy_arp_wifi\":"@ + json_bool(v.proxy_arp_wifi)
        + ",\"multicast_router\":"@ + dec_nat(v.multicast_router as nat) + ",\"mcast_flood\":"@
        + json_bool(v.mcast_flood)
}

/// Broadcast flooding and neighbour suppression.
pub open spec fn port_json_e(p: Seq<char>, v: PortView) -> Seq<char> {
    p + ",\"bcast_flood\":"@ + json_bool(v.bcast_flood) + ",\"mcast_to_unicast\":"@ + json_bool(
        v.mcast_to_unicast,
    ) + ",\"neigh_suppress\":"@ + json_bool(v.neigh_suppress) + (match v.neigh_vlan_suppress {
        Some(b) => ",\"neigh_vlan_suppress\":"@ + json_bool(b),
        None => Seq::<char>::empty(),
    }) + ",\"group_fwd_mask\":\""@ + dec_nat(v.group_fwd_mask as nat) + "\""@
        + ",\"group_fwd_mask_str\":\""@ + hex0x(v.group_fwd_mask as nat) + "\""@
}

/// Isolation and the closing switches.
pub open spec fn port_json_f(p: Seq<char>, v: PortView) -> Seq<char> {
    p + ",\"vlan_tunnel\":"@ + json_bool(v.vlan_tunnel) + ",\"isolated\":"@ + json_bool(v.isolated)
        + ",\"locked\":"@ + json_bool(v.locked) + (match v.mab {
        Some(b) => ",\"mab\":"@ + json_bool(b),
        None => Seq::<char>::empty(),
    }) + "}"@
}

impl CliLinkInfoDataBridgePort {
    /// The JSON object form.
    pub fn to_json_string(&self) -> (r: String)
        ensures
            r@ == port_json(self@),
    {
        let mut out = String::new();
        self.push_json_a(&mut out);
        self.push_json_b(&mut out);
        self.push_json_c(&mut out);
        self.push_json_d(&mut out);
        self.push_json_e(&mut out);
        self.push_json_f(&mut out);
        out
    }

    fn push_json_a(&self, out: &mut String)
        ensures
            final(out)@ == port_json_a(old(out)@, self@),
    {
        out.append("{\"state\":");
        push_json_str(out, self.state.as_str());
        out.append(",\"priority\":");
        push_dec_u64(out, self.priority as u64);
        out.append(",\"cost\":");
        push_dec_u64(out, self.cost as u64);
        out.append(",\"hairpin\":");
        push_json_bool(out, self.hairpin);
        out.append(",\"guard\":");
        push_json_bool(out, self.guard);
        out.append(",\"root_block\":");
        push_json_bool(out, self.root_block);
    }

    fn push_json_b(&self, out: &mut String)
        ensures
            final(out)@ == port_json_b(old(out)@, self@),
    {
        out.append(",\"fastleave\":");
        push_json_bool(out, self.fastleave);
        out.append(",\"learning\":");
        push_json_bool(out, self.learning);
        out.append(",\"flood\":");
        push_json_bool(out, self.flood);
        out.append(",\"id\":");
        push_json_str(out, self.id.as_str());
        out.append(",\"no\":");
        push_json_str(out, self.no.as_str());
        out.append(",\"designated_port\":");
        push_dec_u64(out, self.designated_port as u64);
    }

    fn push_json_c(&self, out: &mut String)
        ensures
            final(out)@ == port_json_c(old(out)@, self@),
    {
        out.append(",\"designated_cost\":");
        push_dec_u64(out, self.designated_cost as u64);
        if let Some(t) = &self.bridge_id {
            out.append(",\"bridge_id\":");
            push_json_str(out, t.as_str());
        }
        if let Some(t) = &self.root_id {
            out.append(",\"root_id\":");
            push_json_str(out, t.as_str());
        }
        out.append(",\"hold_timer\":");
        push_dec_u64(out, self.hold_timer);
        out.append(",\"message_age_timer\":");
        push_dec_u64(out, self.message_age_timer);
        out.append(",\"forward_delay_timer\":");
        push_dec_u64(out, self.forward_delay_timer);
    }

    fn push_json_d(&self, out: &mut String)
        ensures
            final(out)@ == port_json_d(old(out)@, self@),
    {
        out.append(",\"topology_change_ack\":");
        push_dec_u64(out, self.topology_change_ack as u64);
        out.append(",\"config_pending\":");
        push_dec_u64(out, self.config_pending as u64);
        out.append(",\"proxy_arp\":");
        push_json_bool(out, self.proxy_arp);
        out.append(",\"proxy_arp_wifi\":");
        push_json_bool(out, self.proxy_arp_wifi);
        out.append(",\"multicast_router\":");
        push_dec_u64(out, self.multicast_router as u64);
        out.append(",\"mcast_flood\":");
        push_json_bool(out, self.mcast_flood);
    }

    fn push_json_e(&self, out: &mut String)
        ensures
            final(out)@ == port_json_e(old(out)@, self@),
    {
        out.append(",\"bcast_flood\":");
        push_json_bool(out, self.bcast_flood);
        out.append(",\"mcast_to_unicast\":");
        push_json_bool(out, self.mcast_to_unicast);
        out.append(",\"neigh_suppress\":");
        push_json_bool(out, self.neigh_suppress);
        if let Some(b) = self.neigh_vlan_suppress {
            out.append(",\"neigh_vlan_suppress\":");
            push_json_bool(out, b);
        }
        out.append(",\"group_fwd_mask\":\"");
        push_dec_u64(out, self.group_fwd_mask as u64);
        out.append("\"");
        out.append(",\"group_fwd_mask_str\":\"");
        push_hex0x(out, self.group_fwd_mask as u64);
        out.append("\"");
    }

    fn push_json_f(&self, out: &mut String)
        ensures
            final(out)@ == port_json_f(old(out)@, self@),
    {
        out.append(",\"vlan_tunnel\":");
        push_json_bool(out, self.vlan_tunnel);
        out.append(",\"isolated\":");
        push_json_bool(out, self.isolated);
        out.append(",\"locked\":");
        push_json_bool(out, self.locked);
        if let Some(b) = self.mab {
            out.append(",\"mab\":");
            push_json_bool(out, b);
        }
        out.append("}");
    }
}

} // verus!
