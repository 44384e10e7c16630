//! The plain-value model of the kernel's link attribute lists.
//!
//! Each record arrives as a tagged/length/value list; the protocol codec
//! outside this crate turns the wire bytes into these enumerations, which
//! carry only plain values (integers, booleans, byte strings, text). Kinds
//! the structured schema omits are carried as `Other(kind, payload)` and fed
//! to the raw fallback decoder.

use vstd::prelude::*;

verus! {

/// A bridge identifier value: a 16-bit priority and a 6-byte address.
pub struct BridgeId {
    pub priority: u16,
    pub address: [u8; 6],
}

/// One attribute of a bridge's kind-specific sub-list.
pub enum InfoBridge {
    ForwardDelay(u32),
    HelloTime(u32),
    MaxAge(u32),
    AgeingTime(u32),
    /// STP mode as its numeric wire value.
    StpState(u32),
    Priority(u16),
    VlanFiltering(bool),
    /// Protocol tag as its numeric wire value (for instance 0x8100).
    VlanProtocol(u16),
    BridgeId(BridgeId),
    RootId(BridgeId),
    RootPort(u16),
    RootPathCost(u32),
    TopologyChange(u8),
    TopologyChangeDetected(u8),
    HelloTimer(u64),
    TcnTimer(u64),
    TopologyChangeTimer(u64),
    GcTimer(u64),
    GroupFwdMask(u16),
    GroupAddr([u8; 6]),
    MulticastRouter(u8),
    MulticastSnooping(bool),
    MulticastQueryUseIfaddr(bool),
    MulticastQuerier(bool),
    MulticastHashElasticity(u32),
    MulticastHashMax(u32),
    MulticastLastMemberCount(u32),
    MulticastStartupQueryCount(u32),
    MulticastLastMemberInterval(u64),
    MulticastMembershipInterval(u64),
    MulticastQuerierInterval(u64),
    MulticastQueryInterval(u64),
    MulticastQueryResponseInterval(u64),
    MulticastStartupQueryInterval(u64),
    NfCallIpTables(bool),
    NfCallIp6Tables(bool),
    NfCallArpTables(bool),
    VlanDefaultPvid(u16),
    VlanStatsEnabled(bool),
    VlanStatsPerPort(bool),
    MulticastStatsEnabled(bool),
    MulticastIgmpVersion(u8),
    MulticastMldVersion(u8),
    /// A kind outside the structured schema, with its raw payload.
    Other(u16, Vec<u8>),
}

/// One attribute of a bridge port's sub-list.
pub enum InfoBridgePort {
    /// Port state as its numeric wire value.
    State(u8),
    Priority(u16),
    Cost(u32),
    HairpinMode(bool),
    Guard(bool),
    Protect(bool),
    FastLeave(bool),
    Learning(bool),
    UnicastFlood(bool),
    PortId(u16),
    PortNumber(u16),
    DesignatedPort(u16),
    DesignatedCost(u16),
    BridgeId(BridgeId),
    RootId(BridgeId),
    HoldTimer(u64),
    MessageAgeTimer(u64),
    ForwardDelayTimer(u64),
    TopologyChangeAck(bool),
    ConfigPending(bool),
    ProxyArp(bool),
    ProxyArpWifi(bool),
    MulticastRouter(u8),
    MulticastFlood(bool),
    BroadcastFlood(bool),
    MulticastToUnicast(bool),
    NeighSuppress(bool),
    NeighVlanSuppress(bool),
    GroupFwdMask(u16),
    VlanTunnel(bool),
    Isolated(bool),
    Locked(bool),
    Mab(bool),
    /// A kind outside the structured schema, with its raw payload.
    Other(u16, Vec<u8>),
}

/// One attribute of a VLAN sub-interface's sub-list.
pub enum InfoVlan {
    Id(u16),
    /// Active flag bits and the mask of bits being set.
    Flags(u32, u32),
    /// Protocol tag as its numeric wire value.
    Protocol(u16),
    /// A kind outside the structured schema, with its raw payload.
    Other(u16, Vec<u8>),
}

/// Kind-specific data of a nested link-info list.
pub enum InfoData {
    Bridge(Vec<InfoBridge>),
    Vlan(Vec<InfoVlan>),
    /// A kind this crate does not structure; only the kind name renders.
    Other,
}

/// Port-specific data of a nested link-info list.
pub enum InfoPortData {
    BridgePort(Vec<InfoBridgePort>),
    /// A port kind this crate does not structure.
    Other,
}

/// One attribute of the nested link-info list.
pub enum LinkInfo {
    Kind(String),
    Data(InfoData),
    PortKind(String),
    PortData(InfoPortData),
    /// A kind outside the structured schema, with its raw payload.
    Other(u16, Vec<u8>),
}

/// One attribute of the IPv6-specific sub-list.
pub enum AfSpecInet6 {
    /// Address-generation mode as its numeric wire value.
    AddrGenMode(u8),
    /// A kind outside the structured schema, with its raw payload.
    Other(u16, Vec<u8>),
}

/// One per-family entry of the address-family attribute.
pub enum AfSpecUnspec {
    Inet6(Vec<AfSpecInet6>),
    /// A family this crate does not structure.
    Other,
}

/// One entry of the property list.
pub enum Prop {
    AltIfName(String),
    /// A kind outside the structured schema, with its raw payload.
    Other(u16, Vec<u8>),
}

/// One top-level attribute of a link record.
pub enum LinkAttribute {
    IfName(String),
    Mtu(u32),
    Address(Vec<u8>),
    Broadcast(Vec<u8>),
    PermAddress(Vec<u8>),
    Qdisc(String),
    /// Operational state as its numeric wire value.
    OperState(u8),
    TxQueueLen(u32),
    Group(u32),
    /// Link mode as its numeric wire value.
    Mode(u8),
    Controller(u32),
    Link(u32),
    LinkNetNsId(i32),
    PropList(Vec<Prop>),
    LinkInfo(Vec<LinkInfo>),
    Promiscuity(u32),
    MinMtu(u32),
    MaxMtu(u32),
    AfSpecUnspec(Vec<AfSpecUnspec>),
    NumTxQueues(u32),
    NumRxQueues(u32),
    GsoMaxSize(u32),
    GsoMaxSegs(u32),
    /// A kind outside the structured schema, with its raw payload.
    Other(u16, Vec<u8>),
}

/// One link record as delivered by the transport: the fixed header fields
/// this crate reads, and the attribute list.
pub struct LinkMessage {
    /// Interface index.
    pub index: u32,
    /// Operational flag bits.
    pub flags: u32,
    /// Link-layer type as its numeric wire value.
    pub link_layer_type: u16,
    pub attributes: Vec<LinkAttribute>,
}

} // verus!
