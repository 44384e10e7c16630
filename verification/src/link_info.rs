//! The nested link-info layer: kind-specific data, the kind/data pair, and
//! the combined kind + subordinate-port view that a detailed record renders.

use vstd::prelude::*;
use vstd::string::StringExecFns;

use crate::bridge::bridge_fold;
use crate::bridge::bridge_json;
use crate::bridge::bridge_text;
use crate::bridge::BridgeView;
use crate::bridge::CliLinkInfoDataBridge;
use crate::bridge_port::port_fold;
use crate::bridge_port::port_json;
use crate::bridge_port::port_text;
use crate::bridge_port::CliLinkInfoDataBridgePort;
use crate::bridge_port::PortView;
use crate::jsonfmt::json_str;
use crate::jsonfmt::push_json_str;
use crate::vlan::vlan_fold;
use crate::vlan::vlan_json;
use crate::vlan::vlan_text;
use crate::vlan::CliLinkInfoDataVlan;
use crate::vlan::VlanView;
use crate::wire::InfoData;
use crate::wire::InfoPortData;
use crate::wire::LinkInfo;

verus! {

/// Kind-specific data of one interface: a VLAN, a bridge, or a bridge port.
pub enum CliLinkInfoData {
    Vlan(CliLinkInfoDataVlan),
    Bridge(CliLinkInfoDataBridge),
    BridgePort(CliLinkInfoDataBridgePort),
}

/// The ghost image of [`CliLinkInfoData`].
pub ghost enum DataView {
    Vlan(VlanView),
    Bridge(BridgeView),
    BridgePort(PortView),
}

impl View for CliLinkInfoData {
    type V = DataView;

    open spec fn view(&self) -> DataView {
        match self {
            CliLinkInfoData::Vlan(v) => DataView::Vlan(v@),
            CliLinkInfoData::Bridge(b) => DataView::Bridge(b@),
            CliLinkInfoData::BridgePort(p) => DataView::BridgePort(p@),
        }
    }
}

/// The text image of kind-specific data.
pub open spec fn data_text(d: DataView) -> Seq<char> {
    match d {
        DataView::Vlan(v) => vlan_text(v),
        DataView::Bridge(b) => bridge_text(b),
        DataView::BridgePort(p) => port_text(p),
    }
}

/// The JSON image of kind-specific data.
pub open spec fn data_json(d: DataView) -> Seq<char> {
    match d {
        DataView::Vlan(v) => vlan_json(v),
        DataView::Bridge(b) => bridge_json(b),
        DataView::BridgePort(p) => port_json(p),
    }
}

/// What the structured schema makes of a kind-data attribute: recognized
/// kinds decode; unrecognized kinds carry no structured data.
pub open spec fn data_of(d: InfoData) -> Option<DataView> {
    match d {
        InfoData::Bridge(v) => Some(DataView::Bridge(bridge_fold(v@))),
        InfoData::Vlan(v) => Some(DataView::Vlan(vlan_fold(v@))),
        InfoData::Other => None,
    }
}

/// What the structured schema makes of a port-data attribute.
pub open spec fn port_data_of(d: InfoPortData) -> Option<DataView> {
    match d {
        InfoPortData::BridgePort(v) => Some(DataView::BridgePort(port_fold(v@))),
        InfoPortData::Other => None,
    }
}

impl CliLinkInfoData {
    /// Decodes a kind-data attribute; `None` for kinds outside the
    /// structured schema.
    pub fn new(info_data: &InfoData) -> (r: Option<Self>)
        ensures
            match r {
                Some(d) => data_of(*info_data) == Some(d@),
                None => data_of(*info_data) is None,
            },
    {
        match info_data {
            InfoData::Bridge(v) => Some(CliLinkInfoData::Bridge(CliLinkInfoDataBridge::new(v.as_slice()))),
            InfoData::Vlan(v) => Some(CliLinkInfoData::Vlan(CliLinkInfoDataVlan::new(v.as_slice()))),
            InfoData::Other => None,
        }
    }

    /// Decodes a port-data attribute; `None` for port kinds outside the
    /// structured schema.
    pub fn new_port(info_data: &InfoPortData) -> (r: Option<Self>)
        ensures
            match r {
                Some(d) => port_data_of(*info_data) == Some(d@),
                None => port_data_of(*info_data) is None,
            },
    {
        match info_data {
            InfoPortData::BridgePort(v) => Some(
                CliLinkInfoData::BridgePort(CliLinkInfoDataBridgePort::new(v.as_slice())),
            ),
            InfoPortData::Other => None,
        }
    }

    /// The compatibility text form of the data.
    pub fn gen_string(&self) -> (r: String)
        ensures
            r@ == data_text(self@),
    {
        match self {
            CliLinkInfoData::Vlan(v) => v.gen_string(),
            CliLinkInfoData::Bridge(b) => b.gen_string(),
            CliLinkInfoData::BridgePort(p) => p.gen_string(),
        }
    }

    /// The JSON object form of the data.
    pub fn to_json_string(&self) -> (r: String)
        ensures
            r@ == data_json(self@),
    {
        match self {
            CliLinkInfoData::Vlan(v) => v.to_json_string(),
            CliLinkInfoData::Bridge(b) => b.to_json_string(),
            CliLinkInfoData::BridgePort(p) => p.to_json_string(),
        }
    }
}

/// One kind name with its optional structured data.
pub struct CliLinkInfoKindNData {
    pub info_kind: String,
    pub info_data: Option<CliLinkInfoData>,
}

/// The ghost image of [`CliLinkInfoKindNData`].
#[verifier::ext_equal]
pub ghost struct KindNDataView {
    pub info_kind: Seq<char>,
    pub info_data: Option<DataView>,
}

impl View for CliLinkInfoKindNData {
    type V = KindNDataView;

    open spec fn view(&self) -> KindNDataView {
        KindNDataView {
            info_kind: self.info_kind@,
            info_data: match self.info_data {
                Some(d) => Some(d@),
                None => None,
            },
        }
    }
}

/// The kind and data recovered from a link-info list, in list order with
/// last-write-wins.
pub open spec fn kind_fold(s: Seq<LinkInfo>) -> KindNDataView
    decreases s.len(),
{
    if s.len() == 0 {
        KindNDataView { info_kind: Seq::<char>::empty(), info_data: None }
    } else {
        let acc = kind_fold(s.drop_last());
        match s.last() {
            LinkInfo::Kind(t) => KindNDataView { info_kind: t@, ..acc },
            LinkInfo::Data(d) => KindNDataView { info_data: data_of(d), ..acc },
            _ => acc,
        }
    }
}

/// The subordinate-port kind and data recovered from a link-info list, in
/// list order with last-write-wins.
pub open spec fn port_kind_fold(s: Seq<LinkInfo>) -> KindNDataView
    decreases s.len(),
{
    if s.len() == 0 {
        KindNDataView { info_kind: Seq::<char>::empty(), info_data: None }
    } else {
        let acc = port_kind_fold(s.drop_last());
        match s.last() {
            LinkInfo::PortKind(t) => KindNDataView { info_kind: t@, ..acc },
            LinkInfo::PortData(d) => KindNDataView { info_data: port_data_of(d), ..acc },
            _ => acc,
        }
    }
}

/// True when the list carries a port-kind attribute, which is what makes an
/// interface a subordinate of another.
pub open spec fn has_port_kind(s: Seq<LinkInfo>) -> bool
    decreases s.len(),
{
    if s.len() == 0 {
        false
    } else {
        has_port_kind(s.drop_last()) || s.last() matches LinkInfo::PortKind(_)
    }
}

impl CliLinkInfoKindNData {
    /// Decodes the interface's own kind and data from a link-info list.
    pub fn new(link_info: &[LinkInfo]) -> (r: Option<Self>)
        ensures
            r matches Some(k) && k@ == kind_fold(link_info@),
    {
        let mut kind = String::new();
        let mut data: Option<CliLinkInfoData> = None;
        let n: usize = link_info.len();
        let mut i: usize = 0;
        while i < n
            invariant
                i <= n,
                n == link_info@.len(),
                kind@ == kind_fold(link_info@.take(i as int)).info_kind,
                (match data {
                    Some(d) => Some(d@) == kind_fold(link_info@.take(i as int)).info_data,
                    None => kind_fold(link_info@.take(i as int)).info_data is None,
                }),
            decreases n - i,
        {
            match &link_info[i] {
                LinkInfo::Kind(t) => {
                    kind = t.clone();
                },
                LinkInfo::Data(d) => {
                    data = CliLinkInfoData::new(d);
                },
                _ => {},
            }
            proof {
                let t = link_info@.take(i + 1 as int);
                assert(t.drop_last() =~= link_info@.take(i as int));
                assert(t.last() == link_info@[i as int]);
            }
            i = i + 1;
        }
        assert(link_info@.take(n as int) =~= link_info@);
        Some(CliLinkInfoKindNData { info_kind: kind, info_data: data })
    }

    /// Decodes the subordinate-port kind and data; `None` when the list
    /// carries no port kind, since only a subordinate renders a port block.
    pub fn new_slave(link_info: &[LinkInfo]) -> (r: Option<Self>)
        ensures
            has_port_kind(link_info@) ==> (r matches Some(k) && k@ == port_kind_fold(link_info@)),
            !has_port_kind(link_info@) ==> r is None,
    {
        let mut kind = String::new();
        let mut data: Option<CliLinkInfoData> = None;
        let mut seen: bool = false;
        let n: usize = link_info.len();
        let mut i: usize = 0;
        while i < n
            invariant
                i <= n,
                n == link_info@.len(),
                seen == has_port_kind(link_info@.take(i as int)),
                kind@ == port_kind_fold(link_info@.take(i as int)).info_kind,
                (match data {
                    Some(d) => Some(d@) == port_kind_fold(link_info@.take(i as int)).info_data,
                    None => port_kind_fold(link_info@.take(i as int)).info_data is None,
                }),
            decreases n - i,
        {
            match &link_info[i] {
                LinkInfo::PortKind(t) => {
                    kind = t.clone();
                    seen = true;
                },
                LinkInfo::PortData(d) => {
                    data = CliLinkInfoData::new_port(d);
                },
                _ => {},
            }
            proof {
                let t = link_info@.take(i + 1 as int);
                assert(t.drop_last() =~= link_info@.take(i as int));
                assert(t.last() == link_info@[i as int]);
            }
            i = i + 1;
        }
        assert(link_info@.take(n as int) =~= link_info@);
        if seen {
            Some(CliLinkInfoKindNData { info_kind: kind, info_data: data })
        } else {
            None
        }
    }
}

/// The interface's own kind and data together with the subordinate-port
/// block, as one detailed record renders them.
pub struct CliLinkInfoCombined {
    pub info_kind: String,
    pub info_data: Option<CliLinkInfoData>,
    pub info_slave_kind: Option<String>,
    pub info_slave_data: Option<CliLinkInfoData>,
}

/// The ghost image of [`CliLinkInfoCombined`].
#[verifier::ext_equal]
pub ghost struct CombinedView {
    pub info_kind: Seq<char>,
    pub info_data: Option<DataView>,
    pub info_slave_kind: Option<Seq<char>>,
    pub info_slave_data: Option<DataView>,
}

impl View for CliLinkInfoCombined {
    type V = CombinedView;

    open spec fn view(&self) -> CombinedView {
        CombinedView {
            info_kind: self.info_kind@,
            info_data: match self.info_data {
                Some(d) => Some(d@),
                None => None,
            },
            info_slave_kind: self.info_slave_kind.deep_view(),
            info_slave_data: match self.info_slave_data {
                Some(d) => Some(d@),
                None => None,
            },
        }
    }
}

/// The combined decode of a link-info list: the kind block always, the
/// subordinate block only when a port kind occurs.
pub open spec fn combined_of(s: Seq<LinkInfo>) -> CombinedView {
    let main = kind_fold(s);
    if has_port_kind(s) {
        let slave = port_kind_fold(s);
        CombinedView {
            info_kind: main.info_kind,
            info_data: main.info_data,
            info_slave_kind: Some(slave.info_kind),
            info_slave_data: slave.info_data,
        }
    } else {
        CombinedView {
            info_kind: main.info_kind,
            info_data: main.info_data,
            info_slave_kind: None,
            info_slave_data: None,
        }
    }
}

/// The text image of the combined block: the kind on its own indented line,
/// then the subordinate kind suffixed `_slave` on another.
pub open spec fn combined_text(v: CombinedView) -> Seq<char> {
    Seq::<char>::empty() + "\n    "@ + v.info_kind + " "@ + (match v.info_data {
        Some(d) => data_text(d) + " "@,
        None => Seq::<char>::empty(),
    }) + (match v.info_slave_kind {
        Some(k) => "\n    "@ + k + "_slave "@ + (match v.info_slave_data {
            Some(d) => data_text(d) + " "@,
            None => Seq::<char>::empty(),
        }),
        None => Seq::<char>::empty(),
    })
}

/// The JSON image of the combined block.
pub open spec fn combined_json(v: CombinedView) -> Seq<char> {
    Seq::<char>::empty() + "{\"info_kind\":"@ + json_str(v.info_kind) + (match v.info_data {
        Some(d) => ",\"info_data\":"@ + data_json(d),
        None => Seq::<char>::empty(),
    }) + (match v.info_slave_kind {
        Some(k) => ",\"info_slave_kind\":"@ + json_str(k),
        None => Seq::<char>::empty(),
    }) + (match v.info_slave_data {
        Some(d) => ",\"info_slave_data\":"@ + data_json(d),
        None => Seq::<char>::empty(),
    }) + "}"@
}

impl CliLinkInfoCombined {
    /// Combines the kind block and the subordinate block of one link-info
    /// list.
    pub fn new(link_info: &[LinkInfo]) -> (r: Self)
        ensures
            r@ == combined_of(link_info@),
    {
        let main = CliLinkInfoKindNData::new(link_info);
        let slave = CliLinkInfoKindNData::new_slave(link_info);
        let (main_kind, main_data) = match main {
            Some(m) => (m.info_kind, m.info_data),
            None => (String::new(), None),
        };
        let r = match slave {
            Some(s) => CliLinkInfoCombined {
                info_kind: main_kind,
                info_data: main_data,
                info_slave_kind: Some(s.info_kind),
                info_slave_data: s.info_data,
            },
            None => CliLinkInfoCombined {
                info_kind: main_kind,
                info_data: main_data,
                info_slave_kind: None,
                info_slave_data: None,
            },
        };
        assert(r@ =~= combined_of(link_info@));
        r
    }

    /// The compatibility text form.
    pub fn gen_string(&self) -> (r: String)
        ensures
            r@ == combined_text(self@),
    {
        let mut out = String::new();
        out.append("\n    ");
        out.append(self.info_kind.as_str());
        out.append(" ");
        let data_chunk = data_phrase(&self.info_data);
        out.append(data_chunk.as_str());
        let slave_chunk = self.slave_phrase();
        out.append(slave_chunk.as_str());
        out
    }

    /// The text of the subordinate block, empty when the interface is not a
    /// port.
    fn slave_phrase(&self) -> (r: String)
        ensures
            r@ == (match self@.info_slave_kind {
                Some(k) => "\n    "@ + k + "_slave "@ + (match self@.info_slave_data {
                    Some(d) => data_text(d) + " "@,
                    None => Seq::<char>::empty(),
                }),
                None => Seq::<char>::empty(),
            }),
    {
        let mut out = String::new();
        if let Some(k) = &self.info_slave_kind {
            out.append("\n    ");
            out.append(k.as_str());
            out.append("_slave ");
            let chunk = data_phrase(&self.info_slave_data);
            out.append(chunk.as_str());
            assert(out@ =~= "\n    "@ + k@ + "_slave "@ + (match self@.info_slave_data {
                Some(d) => data_text(d) + " "@,
                None => Seq::<char>::empty(),
            }));
        }
        out
    }

    /// The JSON object form.
    pub fn to_json_string(&self) -> (r: String)
        ensures
            r@ == combined_json(self@),
    {
        let mut out = String::new();
        out.append("{\"info_kind\":");
        push_json_str(&mut out, self.info_kind.as_str());
        let data_chunk = json_member(&self.info_data, ",\"info_data\":");
        out.append(data_chunk.as_str());
        let slave_kind_chunk = self.slave_kind_member();
        out.append(slave_kind_chunk.as_str());
        let slave_data_chunk = json_member(&self.info_slave_data, ",\"info_slave_data\":");
        out.append(slave_data_chunk.as_str());
        out.append("}");
        out
    }

    /// The optional subordinate-kind member of the JSON object.
    fn slave_kind_member(&self) -> (r: String)
        ensures
            r@ == (match self@.info_slave_kind {
                Some(k) => ",\"info_slave_kind\":"@ + json_str(k),
                None => Seq::<char>::empty(),
            }),
    {
        let mut out = String::new();
        if let Some(k) = &self.info_slave_kind {
            out.append(",\"info_slave_kind\":");
            push_json_str(&mut out, k.as_str());
            assert(out@ =~= ",\"info_slave_kind\":"@ + json_str(k@));
        }
        out
    }
}


/// The text of an optional kind-data block followed by one space; empty
/// when there is no data.
fn data_phrase(d: &Option<CliLinkInfoData>) -> (r: String)
    ensures
        r@ == (match d {
            Some(x) => data_text(x@) + " "@,
            None => Seq::<char>::empty(),
        }),
{
    let mut out = String::new();
    if let Some(x) = d {
        let t = x.gen_string();
        out.append(t.as_str());
        out.append(" ");
        assert(out@ =~= data_text(x@) + " "@);
    }
    out
}

/// An optional JSON member holding a kind-data object, prefixed by its
/// comma and key; empty when there is no data.
fn json_member(d: &Option<CliLinkInfoData>, prefix: &str) -> (r: String)
    ensures
        r@ == (match d {
            Some(x) => prefix@ + data_json(x@),
            None => Seq::<char>::empty(),
        }),
{
    let mut out = String::new();
    if let Some(x) = d {
        out.append(prefix);
        let t = x.to_json_string();
        out.append(t.as_str());
        assert(out@ =~= prefix@ + data_json(x@));
    }
    out
}

} // verus!

