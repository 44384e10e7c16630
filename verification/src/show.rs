//! The top-level link record: building it from one delivered message,
//! resolving controller / underlying-link / namespace references across a
//! record set, and rendering one record or a list of records.

use vstd::prelude::*;
use vstd::string::StrSliceExecFns;
use vstd::string::StringExecFns;

use crate::color::colored;
use crate::color::push_colored;
use crate::color::CliColor;
use crate::error::CliError;
use crate::jsonfmt::json_str;
use crate::jsonfmt::json_str_array;
use crate::jsonfmt::push_json_str;
use crate::jsonfmt::push_json_str_array;
use crate::link_details::details_err;
use crate::link_details::details_fold;
use crate::link_details::details_json_body;
use crate::link_details::details_text;
use crate::link_details::CliLinkInfoDetails;
use crate::link_details::DetailsView;
use crate::names::link_flag_tokens;
use crate::names::link_flags_to_string;
use crate::names::link_layer_type_string;
use crate::names::link_layer_type_text;
use crate::names::link_mode_string;
use crate::names::link_mode_text;
use crate::names::oper_state_string;
use crate::names::oper_state_text;
use crate::result::group_name_text;
use crate::result::resolve_ip_link_group_name;
use crate::result::CanOutput;
use crate::textfmt::dec_int;
use crate::textfmt::dec_nat;
use crate::textfmt::join_comma;
use crate::textfmt::mac_text;
use crate::textfmt::mac_to_string;
use crate::textfmt::push_dec_i32;
use crate::textfmt::push_dec_u64;
use crate::textfmt::push_join_comma;
use crate::wire::LinkAttribute;
use crate::wire::LinkMessage;
use crate::wire::Prop;

verus! {

/// One decoded link record.
pub struct CliLinkInfo {
    pub ifindex: u32,
    pub link: Option<String>,
    pub link_index: Option<u32>,
    pub ifname: String,
    pub flags: Vec<String>,
    pub mtu: u32,
    pub qdisc: String,
    pub controller: Option<String>,
    pub controller_ifindex: Option<u32>,
    pub operstate: String,
    pub linkmode: String,
    pub group: String,
    pub txqlen: Option<u32>,
    pub link_type: String,
    pub address: String,
    pub broadcast: String,
    pub permaddr: String,
    pub link_netns: String,
    pub link_netnsid: Option<i32>,
    pub details: Option<CliLinkInfoDetails>,
    pub altnames: Vec<String>,
}

/// The ghost image of [`CliLinkInfo`].
#[verifier::ext_equal]
pub ghost struct LinkView {
    pub ifindex: u32,
    pub link: Option<Seq<char>>,
    pub link_index: Option<u32>,
    pub ifname: Seq<char>,
    pub flags: Seq<Seq<char>>,
    pub mtu: u32,
    pub qdisc: Seq<char>,
    pub controller: Option<Seq<char>>,
    pub controller_ifindex: Option<u32>,
    pub operstate: Seq<char>,
    pub linkmode: Seq<char>,
    pub group: Seq<char>,
    pub txqlen: Option<u32>,
    pub link_type: Seq<char>,
    pub address: Seq<char>,
    pub broadcast: Seq<char>,
    pub permaddr: Seq<char>,
    pub link_netns: Seq<char>,
    pub link_netnsid: Option<i32>,
    pub details: Option<DetailsView>,
    pub altnames: Seq<Seq<char>>,
}

impl View for CliLinkInfo {
    type V = LinkView;

    open spec fn view(&self) -> LinkView {
        LinkView {
            ifindex: self.ifindex,
            link: self.link.deep_view(),
            link_index: self.link_index,
            ifname: self.ifname@,
            flags: self.flags.deep_view(),
            mtu: self.mtu,
            qdisc: self.qdisc@,
            controller: self.controller.deep_view(),
            controller_ifindex: self.controller_ifindex,
            operstate: self.operstate@,
            linkmode: self.linkmode@,
            group: self.group@,
            txqlen: self.txqlen,
            link_type: self.link_type@,
            address: self.address@,
            broadcast: self.broadcast@,
            permaddr: self.permaddr@,
            link_netns: self.link_netns@,
            link_netnsid: self.link_netnsid,
            details: match self.details {
                Some(d) => Some(d@),
                None => None,
            },
            altnames: self.altnames.deep_view(),
        }
    }
}

// ---------------------------------------------------------------------------
// Building a record from one message
// ---------------------------------------------------------------------------

/// The record under construction together with the not-yet-promoted
/// permanent address.
#[verifier::ext_equal]
pub ghost struct LinkAcc {
    pub rec: LinkView,
    pub temp_permaddr: Seq<char>,
}

/// The record before any attribute is applied: header fields set, the rest
/// at their zero / empty / absent defaults.
pub open spec fn link_init(msg: LinkMessage) -> LinkView {
    LinkView {
        ifindex: msg.index,
        link: None,
        link_index: None,
        ifname: Seq::<char>::empty(),
        flags: link_flag_tokens(msg.flags),
        mtu: 0,
        qdisc: Seq::<char>::empty(),
        controller: None,
        controller_ifindex: None,
        operstate: Seq::<char>::empty(),
        linkmode: Seq::<char>::empty(),
        group: Seq::<char>::empty(),
        txqlen: None,
        link_type: link_layer_type_text(msg.link_layer_type),
        address: Seq::<char>::empty(),
        broadcast: Seq::<char>::empty(),
        permaddr: Seq::<char>::empty(),
        link_netns: Seq::<char>::empty(),
        link_netnsid: None,
        details: None,
        altnames: Seq::<Seq<char>>::empty(),
    }
}

/// The alternate names carried by a property list, in list order.
pub open spec fn altnames_of(s: Seq<Prop>) -> Seq<Seq<char>>
    decreases s.len(),
{
    if s.len() == 0 {
        Seq::<Seq<char>>::empty()
    } else {
        altnames_of(s.drop_last()) + (match s.last() {
            Prop::AltIfName(n) => seq![n@],
            _ => Seq::<Seq<char>>::empty(),
        })
    }
}

/// One build step: a later attribute of the same kind overwrites an earlier
/// one, a zero queue length is treated as absent, alternate names
/// accumulate, and the permanent address is only held aside here.
pub open spec fn link_step(acc: LinkAcc, a: LinkAttribute) -> LinkAcc {
    match a {
        LinkAttribute::IfName(n) => LinkAcc { rec: LinkView { ifname: n@, ..acc.rec }, ..acc },
        LinkAttribute::Mtu(m) => LinkAcc { rec: LinkView { mtu: m, ..acc.rec }, ..acc },
        LinkAttribute::Address(mac) => LinkAcc {
            rec: LinkView { address: mac_text(mac@), ..acc.rec },
            ..acc
        },
        LinkAttribute::Broadcast(mac) => LinkAcc {
            rec: LinkView { broadcast: mac_text(mac@), ..acc.rec },
            ..acc
        },
        LinkAttribute::PermAddress(mac) => LinkAcc { temp_permaddr: mac_text(mac@), ..acc },
        LinkAttribute::Qdisc(q) => LinkAcc { rec: LinkView { qdisc: q@, ..acc.rec }, ..acc },
        LinkAttribute::OperState(s) => LinkAcc {
            rec: LinkView { operstate: oper_state_text(s), ..acc.rec },
            ..acc
        },
        LinkAttribute::TxQueueLen(v) => if v > 0 {
            LinkAcc { rec: LinkView { txqlen: Some(v), ..acc.rec }, ..acc }
        } else {
            acc
        },
        LinkAttribute::Group(v) => LinkAcc {
            rec: LinkView { group: group_name_text(v), ..acc.rec },
            ..acc
        },
        LinkAttribute::Mode(v) => LinkAcc {
            rec: LinkView { linkmode: link_mode_text(v), ..acc.rec },
            ..acc
        },
        LinkAttribute::Controller(d) => LinkAcc {
            rec: LinkView { controller_ifindex: Some(d), ..acc.rec },
            ..acc
        },
        LinkAttribute::Link(i) => LinkAcc {
            rec: LinkView { link_index: Some(i), ..acc.rec },
            ..acc
        },
        LinkAttribute::LinkNetNsId(i) => LinkAcc {
            rec: LinkView { link_netnsid: Some(i), ..acc.rec },
            ..acc
        },
        LinkAttribute::PropList(props) => LinkAcc {
            rec: LinkView { altnames: acc.rec.altnames + altnames_of(props@), ..acc.rec },
            ..acc
        },
        _ => acc,
    }
}

/// The build over a whole attribute list, in list order.
pub open spec fn link_attr_fold(s: Seq<LinkAttribute>, init: LinkAcc) -> LinkAcc
    decreases s.len(),
{
    if s.len() == 0 {
        init
    } else {
        link_step(link_attr_fold(s.drop_last(), init), s.last())
    }
}

/// The fully built record of one message: the attribute fold, then the
/// permanent address promoted only when it was seen and differs from the
/// recorded address, and the details block attached when asked for.
pub open spec fn parse_spec(msg: LinkMessage, include_details: bool) -> LinkView {
    let acc = link_attr_fold(
        msg.attributes@,
        LinkAcc { rec: link_init(msg), temp_permaddr: Seq::<char>::empty() },
    );
    LinkView {
        permaddr: if acc.temp_permaddr.len() > 0 && acc.temp_permaddr != acc.rec.address {
            acc.temp_permaddr
        } else {
            Seq::<char>::empty()
        },
        details: if include_details {
            Some(details_fold(msg.attributes@))
        } else {
            None
        },
        ..acc.rec
    }
}

/// Builds one link record from a delivered message. The one fatal
/// condition is a malformed parent-name payload while details are asked
/// for; everything else decodes to defaults or is dropped.
pub fn parse_link_message(msg: &LinkMessage, include_details: bool) -> (r: Result<
    CliLinkInfo,
    CliError,
>)
    ensures
        r is Err <==> (include_details && details_err(msg.attributes@)),
        r matches Ok(l) ==> l@ == parse_spec(*msg, include_details),
{
    let details: Option<CliLinkInfoDetails> = if include_details {
        match CliLinkInfoDetails::new(msg.attributes.as_slice()) {
            Ok(d) => Some(d),
            Err(e) => {
                return Err(e);
            },
        }
    } else {
        None
    };
    let mut ret = link_zeroed(msg);
    let mut temp = String::new();
    let n: usize = msg.attributes.len();
    let mut i: usize = 0;
    while i < n
        invariant
            i <= n,
            n == msg.attributes@.len(),
            (LinkAcc { rec: ret@, temp_permaddr: temp@ }) == link_attr_fold(
                msg.attributes@.take(i as int),
                LinkAcc { rec: link_init(*msg), temp_permaddr: Seq::<char>::empty() },
            ),
        decreases n - i,
    {
        link_apply(&mut ret, &mut temp, &msg.attributes[i]);
        proof {
            let t = msg.attributes@.take(i + 1 as int);
            assert(t.drop_last() =~= msg.attributes@.take(i as int));
            assert(t.last() == msg.attributes@[i as int]);
        }
        i = i + 1;
    }
    assert(msg.attributes@.take(n as int) =~= msg.attributes@);
    let ghost acc = link_attr_fold(
        msg.attributes@,
        LinkAcc { rec: link_init(*msg), temp_permaddr: Seq::<char>::empty() },
    );
    if temp.as_str().unicode_len() > 0 && !temp.eq(&ret.address) {
        ret.permaddr = temp;
    } else {
        ret.permaddr = String::new();
    }
    ret.details = details;
    assert(ret@ =~= parse_spec(*msg, include_details));
    Ok(ret)
}

/// The record before any attribute is applied.
fn link_zeroed(msg: &LinkMessage) -> (r: CliLinkInfo)
    ensures
        r@ == link_init(*msg),
{
    let r = CliLinkInfo {
        ifindex: msg.index,
        link: None,
        link_index: None,
        ifname: String::new(),
        flags: link_flags_to_string(msg.flags),
        mtu: 0,
        qdisc: String::new(),
        controller: None,
        controller_ifindex: None,
        operstate: String::new(),
        linkmode: String::new(),
        group: String::new(),
        txqlen: None,
        link_type: link_layer_type_string(msg.link_layer_type),
        address: String::new(),
        broadcast: String::new(),
        permaddr: String::new(),
        link_netns: String::new(),
        link_netnsid: None,
        details: None,
        altnames: Vec::new(),
    };
    assert(r@ =~= link_init(*msg));
    r
}

/// Applies one attribute to the record under construction.
#[verifier::rlimit(100)]
fn link_apply(ret: &mut CliLinkInfo, temp: &mut String, a: &LinkAttribute)
    ensures
        (LinkAcc { rec: final(ret)@, temp_permaddr: final(temp)@ }) == link_step(
            LinkAcc { rec: old(ret)@, temp_permaddr: old(temp)@ },
            *a,
        ),
{
    let ghost prev = LinkAcc { rec: ret@, temp_permaddr: temp@ };
    match a {
        LinkAttribute::IfName(n) => {
            ret.ifname = n.clone();
        },
        LinkAttribute::Mtu(m) => {
            ret.mtu = *m;
        },
        LinkAttribute::Address(mac) => {
            ret.address = mac_to_string(mac.as_slice());
        },
        LinkAttribute::Broadcast(mac) => {
            ret.broadcast = mac_to_string(mac.as_slice());
        },
        LinkAttribute::PermAddress(mac) => {
            *temp = mac_to_string(mac.as_slice());
        },
        LinkAttribute::Qdisc(q) => {
            ret.qdisc = q.clone();
        },
        LinkAttribute::OperState(s) => {
            ret.operstate = oper_state_string(*s);
        },
        LinkAttribute::TxQueueLen(v) => {
            if *v > 0 {
                ret.txqlen = Some(*v);
            }
        },
        LinkAttribute::Group(v) => {
            ret.group = resolve_ip_link_group_name(*v);
        },
        LinkAttribute::Mode(v) => {
            ret.linkmode = link_mode_string(*v);
        },
        LinkAttribute::Controller(d) => {
            ret.controller_ifindex = Some(*d);
        },
        LinkAttribute::Link(idx) => {
            ret.link_index = Some(*idx);
        },
        LinkAttribute::LinkNetNsId(idx) => {
            ret.link_netnsid = Some(*idx);
        },
        LinkAttribute::PropList(props) => {
            append_altnames(&mut ret.altnames, props.as_slice());
        },
        _ => {},
    }
    assert((LinkAcc { rec: final(ret)@, temp_permaddr: final(temp)@ }) =~= link_step(prev, *a));
}

/// Appends the alternate names of one property list.
fn append_altnames(v: &mut Vec<String>, props: &[Prop])
    ensures
        final(v).deep_view() == old(v).deep_view() + altnames_of(props@),
{
    let n: usize = props.len();
    let mut i: usize = 0;
    while i < n
        invariant
            i <= n,
            n == props@.len(),
            v.deep_view() == old(v).deep_view() + altnames_of(props@.take(i as int)),
        decreases n - i,
    {
        match &props[i] {
            Prop::AltIfName(name) => {
                crate::textfmt::push_token(v, name.as_str());
            },
            _ => {},
        }
        proof {
            let t = props@.take(i + 1 as int);
            assert(t.drop_last() =~= props@.take(i as int));
            assert(t.last() == props@[i as int]);
        }
        i = i + 1;
        assert(v.deep_view() =~= old(v).deep_view() + altnames_of(props@.take(i as int)));
    }
    assert(props@.take(n as int) =~= props@);
}

// ---------------------------------------------------------------------------
// Cross-reference resolution
// ---------------------------------------------------------------------------

/// The views of a record list.
pub open spec fn views_of(s: Seq<CliLinkInfo>) -> Seq<LinkView> {
    Seq::new(s.len(), |i: int| s[i]@)
}

/// The index→name pairs of a record list, in list order.
pub open spec fn pairs_of(s: Seq<LinkView>) -> Seq<(u32, Seq<char>)> {
    Seq::new(s.len(), |i: int| (s[i].ifindex, s[i].ifname))
}

/// The views of an index→name pair list.
pub open spec fn pair_views(s: Seq<(u32, String)>) -> Seq<(u32, Seq<char>)> {
    Seq::new(s.len(), |i: int| (s[i].0, s[i].1@))
}

/// The name of the given index, later pairs taking precedence (as a map
/// built by insertion would resolve them).
pub open spec fn idx_name(pairs: Seq<(u32, Seq<char>)>, idx: u32) -> Option<Seq<char>>
    decreases pairs.len(),
{
    if pairs.len() == 0 {
        None
    } else if pairs.last().0 == idx {
        Some(pairs.last().1)
    } else {
        idx_name(pairs.drop_last(), idx)
    }
}

/// One record after the controller and underlying-link pass: the
/// controller index resolves to a name when one exists in the set; a
/// non-zero link index resolves only for records of the local namespace,
/// and then the index is cleared so that exactly one of the two forms
/// remains.
pub open spec fn resolve_one(l: LinkView, pairs: Seq<(u32, Seq<char>)>) -> LinkView {
    let l1 = match l.controller_ifindex {
        Some(ci) => match idx_name(pairs, ci) {
            Some(n) => LinkView { controller: Some(n), ..l },
            None => l,
        },
        None => l,
    };
    match l1.link_index {
        Some(li) => if li == 0 {
            l1
        } else {
            match idx_name(pairs, li) {
                Some(n) => if l1.link_netnsid is None {
                    LinkView { link: Some(n), link_index: None, ..l1 }
                } else {
                    l1
                },
                None => l1,
            }
        },
        None => l1,
    }
}

/// Rewrites controller and underlying-link indices into names wherever the
/// referenced index exists in the same record set.
pub fn resolve_controller_and_link_names(links: &mut Vec<CliLinkInfo>)
    ensures
        final(links)@.len() == old(links)@.len(),
        forall|i: int|
            0 <= i < old(links)@.len() ==> #[trigger] final(links)@[i]@ == resolve_one(
                old(links)@[i]@,
                pairs_of(views_of(old(links)@)),
            ),
{
    let pairs = index_name_pairs(links);
    proof {
        assert(pair_views(pairs@) =~= pairs_of(views_of(links@)));
    }
    let mut out: Vec<CliLinkInfo> = Vec::new();
    while links.len() > 0
        invariant
            out@.len() + links@.len() == old(links)@.len(),
            links@ == old(links)@.skip(out@.len() as int),
            pair_views(pairs@) == pairs_of(views_of(old(links)@)),
            forall|j: int|
                0 <= j < out@.len() ==> #[trigger] out@[j]@ == resolve_one(
                    old(links)@[j]@,
                    pairs_of(views_of(old(links)@)),
                ),
        decreases links@.len(),
    {
        let ghost k = out@.len() as int;
        let l = links.remove(0);
        proof {
            assert(l == old(links)@[k]);
            assert(links@ =~= old(links)@.skip(k + 1));
        }
        let resolved = resolve_one_record(l, &pairs);
        out.push(resolved);
    }
    *links = out;
}

/// The index→name pairs of the record set, in record order.
fn index_name_pairs(links: &Vec<CliLinkInfo>) -> (r: Vec<(u32, String)>)
    ensures
        pair_views(r@) == pairs_of(views_of(links@)),
{
    let n: usize = links.len();
    let mut r: Vec<(u32, String)> = Vec::new();
    let mut i: usize = 0;
    while i < n
        invariant
            i <= n,
            n == links@.len(),
            r@.len() == i,
            forall|j: int|
                0 <= j < i ==> (#[trigger] r@[j]).0 == links@[j]@.ifindex && r@[j].1@
                    == links@[j]@.ifname,
        decreases n - i,
    {
        r.push((links[i].ifindex, links[i].ifname.clone()));
        i = i + 1;
    }
    proof {
        assert(pair_views(r@) =~= pairs_of(views_of(links@)));
    }
    r
}

/// The name held for `idx`, later pairs taking precedence.
fn lookup_name(pairs: &Vec<(u32, String)>, idx: u32) -> (r: Option<String>)
    ensures
        match r {
            Some(s) => idx_name(pair_views(pairs@), idx) == Some(s@),
            None => idx_name(pair_views(pairs@), idx) is None,
        },
{
    let mut i: usize = pairs.len();
    assert(pair_views(pairs@).take(pairs@.len() as int) =~= pair_views(pairs@));
    while i > 0
        invariant
            i <= pairs@.len(),
            idx_name(pair_views(pairs@), idx) == idx_name(pair_views(pairs@).take(i as int), idx),
        decreases i,
    {
        i = i - 1;
        proof {
            let t = pair_views(pairs@).take(i + 1 as int);
            assert(t.drop_last() =~= pair_views(pairs@).take(i as int));
            assert(t.last() == pair_views(pairs@)[i as int]);
        }
        if pairs[i].0 == idx {
            return Some(pairs[i].1.clone());
        }
    }
    assert(pair_views(pairs@).take(0) =~= Seq::<(u32, Seq<char>)>::empty());
    None
}

/// Resolves the two references of one record against the pair list.
fn resolve_one_record(l: CliLinkInfo, pairs: &Vec<(u32, String)>) -> (r: CliLinkInfo)
    ensures
        r@ == resolve_one(l@, pair_views(pairs@)),
{
    let mut r = l;
    if let Some(ci) = r.controller_ifindex {
        if let Some(n) = lookup_name(pairs, ci) {
            r.controller = Some(n);
        }
    }
    if let Some(li) = r.link_index {
        if li != 0 {
            if let Some(n) = lookup_name(pairs, li) {
                if r.link_netnsid.is_none() {
                    r.link = Some(n);
                    r.link_index = None;
                }
            }
        }
    }
    assert(r@ =~= resolve_one(l@, pair_views(pairs@)));
    r
}

/// The name held for a namespace id, later pairs taking precedence.
pub open spec fn nsid_name(pairs: Seq<(i32, Seq<char>)>, id: i32) -> Option<Seq<char>>
    decreases pairs.len(),
{
    if pairs.len() == 0 {
        None
    } else if pairs.last().0 == id {
        Some(pairs.last().1)
    } else {
        nsid_name(pairs.drop_last(), id)
    }
}

/// The views of a namespace id→name pair list.
pub open spec fn nsid_pair_views(s: Seq<(i32, String)>) -> Seq<(i32, Seq<char>)> {
    Seq::new(s.len(), |i: int| (s[i].0, s[i].1@))
}

/// One record after the namespace pass: a record whose namespace id is in
/// the map gets the textual name; the id itself is kept, but a named
/// record renders the name instead of the id.
pub open spec fn resolve_ns_one(l: LinkView, pairs: Seq<(i32, Seq<char>)>) -> LinkView {
    match l.link_netnsid {
        Some(id) => match nsid_name(pairs, id) {
            Some(n) => LinkView { link_netns: n, ..l },
            None => l,
        },
        None => l,
    }
}

/// Rewrites namespace ids into names using the id→name pairs recovered by
/// the caller's supplementary requests; an empty pair list (no local
/// namespace handles) changes nothing.
pub fn resolve_netns_names(links: &mut Vec<CliLinkInfo>, id_to_name: &Vec<(i32, String)>)
    ensures
        final(links)@.len() == old(links)@.len(),
        forall|i: int|
            0 <= i < old(links)@.len() ==> #[trigger] final(links)@[i]@ == resolve_ns_one(
                old(links)@[i]@,
                nsid_pair_views(id_to_name@),
            ),
{
    let mut out: Vec<CliLinkInfo> = Vec::new();
    while links.len() > 0
        invariant
            out@.len() + links@.len() == old(links)@.len(),
            links@ == old(links)@.skip(out@.len() as int),
            forall|j: int|
                0 <= j < out@.len() ==> #[trigger] out@[j]@ == resolve_ns_one(
                    old(links)@[j]@,
                    nsid_pair_views(id_to_name@),
                ),
        decreases links@.len(),
    {
        let ghost k = out@.len() as int;
        let l = links.remove(0);
        proof {
            assert(l == old(links)@[k]);
            assert(links@ =~= old(links)@.skip(k + 1));
        }
        let resolved = resolve_ns_one_record(l, id_to_name);
        out.push(resolved);
    }
    *links = out;
}

/// The name held for a namespace id.
fn lookup_ns_name(pairs: &Vec<(i32, String)>, id: i32) -> (r: Option<String>)
    ensures
        match r {
            Some(s) => nsid_name(nsid_pair_views(pairs@), id) == Some(s@),
            None => nsid_name(nsid_pair_views(pairs@), id) is None,
        },
{
    let mut i: usize = pairs.len();
    assert(nsid_pair_views(pairs@).take(pairs@.len() as int) =~= nsid_pair_views(pairs@));
    while i > 0
        invariant
            i <= pairs@.len(),
            nsid_name(nsid_pair_views(pairs@), id) == nsid_name(
                nsid_pair_views(pairs@).take(i as int),
                id,
            ),
        decreases i,
    {
        i = i - 1;
        proof {
            let t = nsid_pair_views(pairs@).take(i + 1 as int);
            assert(t.drop_last() =~= nsid_pair_views(pairs@).take(i as int));
            assert(t.last() == nsid_pair_views(pairs@)[i as int]);
        }
        if pairs[i].0 == id {
            return Some(pairs[i].1.clone());
        }
    }
    assert(nsid_pair_views(pairs@).take(0) =~= Seq::<(i32, Seq<char>)>::empty());
    None
}

/// Resolves the namespace reference of one record.
fn resolve_ns_one_record(l: CliLinkInfo, pairs: &Vec<(i32, String)>) -> (r: CliLinkInfo)
    ensures
        r@ == resolve_ns_one(l@, nsid_pair_views(pairs@)),
{
    let mut r = l;
    if let Some(id) = r.link_netnsid {
        if let Some(n) = lookup_ns_name(pairs, id) {
            r.link_netns = n;
        }
    }
    assert(r@ =~= resolve_ns_one(l@, nsid_pair_views(pairs@)));
    r
}


// ---------------------------------------------------------------------------
// Rendering
// ---------------------------------------------------------------------------

/// The interface-name part of the first line: the name, an `@`-suffixed
/// underlying-link reference when one exists (name preferred over index),
/// and the closing colon.
pub open spec fn namepart(v: LinkView) -> Seq<char> {
    v.ifname + (if v.link is Some || v.link_index is Some {
        "@"@ + (match v.link {
            Some(n) => n,
            None => match v.link_index {
                Some(i) => "if"@ + dec_nat(i as nat),
                None => "NONE"@,
            },
        })
    } else {
        Seq::<char>::empty()
    }) + ": "@
}

/// The controller phrase: `master <name>` once the reference is resolved,
/// nothing otherwise.
pub open spec fn master_phrase(v: LinkView) -> Seq<char> {
    match v.controller {
        Some(ctrl) => " master "@ + ctrl,
        None => Seq::<char>::empty(),
    }
}

/// The operational state, highlighted when it is `UP` or `DOWN`.
pub open spec fn state_phrase(v: LinkView, c: bool) -> Seq<char> {
    if v.operstate == "UP"@ {
        colored(c, CliColor::StateUp, v.operstate + " "@)
    } else if v.operstate == "DOWN"@ {
        colored(c, CliColor::StateDown, v.operstate + " "@)
    } else {
        v.operstate + " "@
    }
}

/// The queue-length phrase; a record without one prints nothing.
pub open spec fn qlen_phrase(v: LinkView) -> Seq<char> {
    match v.txqlen {
        Some(q) => "qlen "@ + dec_nat(q as nat),
        None => Seq::<char>::empty(),
    }
}

/// The address block: hardware and broadcast addresses, highlighted;
/// nothing for address-less interface types.
pub open spec fn addr_phrase(v: LinkView, c: bool) -> Seq<char> {
    if v.address.len() > 0 {
        colored(c, CliColor::Mac, v.address) + " brd "@ + colored(c, CliColor::Mac, v.broadcast)
    } else {
        Seq::<char>::empty()
    }
}

/// The permanent-address phrase; an empty permanent address (absent, or
/// equal to the current address) prints nothing.
pub open spec fn permaddr_phrase(v: LinkView, c: bool) -> Seq<char> {
    if v.permaddr.len() > 0 {
        " permaddr "@ + colored(c, CliColor::Mac, v.permaddr)
    } else {
        Seq::<char>::empty()
    }
}

/// The namespace phrase: the resolved name when one was found, else the
/// numeric id, never both.
pub open spec fn netns_phrase(v: LinkView) -> Seq<char> {
    if v.link_netns.len() > 0 {
        " link-netns "@ + v.link_netns
    } else {
        match v.link_netnsid {
            Some(id) => " link-netnsid "@ + dec_int(id as int),
            None => Seq::<char>::empty(),
        }
    }
}

/// The details block when it was decoded.
pub open spec fn details_phrase(v: LinkView) -> Seq<char> {
    match v.details {
        Some(d) => details_text(d),
        None => Seq::<char>::empty(),
    }
}

/// One indented `altname` line per alternate name.
pub open spec fn altnames_text(s: Seq<Seq<char>>) -> Seq<char>
    decreases s.len(),
{
    if s.len() == 0 {
        Seq::<char>::empty()
    } else {
        altnames_text(s.drop_last()) + "\n    altname "@ + s.last()
    }
}

/// The compatibility text image of one link record.
pub open spec fn link_text(v: LinkView, c: bool) -> Seq<char> {
    link_text_b(link_text_a(Seq::<char>::empty(), v, c), v, c)
}

/// The first line: index, name, flags, queueing, controller and state.
pub open spec fn link_text_a(p: Seq<char>, v: LinkView, c: bool) -> Seq<char> {
    p + dec_nat(v.ifindex as nat) + ": "@ + colored(c, CliColor::IfaceName, namepart(v)) + "<"@
        + join_comma(v.flags) + "> mtu "@ + dec_nat(v.mtu as nat) + " qdisc "@ + v.qdisc
        + master_phrase(v) + " state "@ + state_phrase(v, c) + "mode "@ + v.linkmode + " group "@
        + v.group + " "@ + qlen_phrase(v)
}

/// The second line onward: link-layer type, addresses, namespace, details
/// and alternate names.
pub open spec fn link_text_b(p: Seq<char>, v: LinkView, c: bool) -> Seq<char> {
    p + "\n    "@ + "link/"@ + v.link_type + " "@ + addr_phrase(v, c) + permaddr_phrase(v, c)
        + netns_phrase(v) + details_phrase(v) + altnames_text(v.altnames)
}

impl CliLinkInfo {
    /// The compatibility text form, optionally highlighted.
    pub fn gen_string_with_color(&self, use_color: bool) -> (r: String)
        ensures
            r@ == link_text(self@, use_color),
    {
        let mut out = String::new();
        self.push_text_a(&mut out, use_color);
        self.push_text_b(&mut out, use_color);
        out
    }

    /// The compatibility text form without highlighting.
    pub fn gen_string(&self) -> (r: String)
        ensures
            r@ == link_text(self@, false),
    {
        self.gen_string_with_color(false)
    }

    fn push_text_a(&self, out: &mut String, use_color: bool)
        ensures
            final(out)@ == link_text_a(old(out)@, self@, use_color),
    {
        push_dec_u64(out, self.ifindex as u64);
        out.append(": ");
        let name_part = self.name_part();
        push_colored(out, use_color, CliColor::IfaceName, name_part.as_str());
        out.append("<");
        push_join_comma(out, &self.flags);
        out.append("> mtu ");
        push_dec_u64(out, self.mtu as u64);
        out.append(" qdisc ");
        out.append(self.qdisc.as_str());
        let master = self.master_chunk();
        out.append(master.as_str());
        out.append(" state ");
        let state = self.state_chunk(use_color);
        out.append(state.as_str());
        out.append("mode ");
        out.append(self.linkmode.as_str());
        out.append(" group ");
        out.append(self.group.as_str());
        out.append(" ");
        let qlen = self.qlen_chunk();
        out.append(qlen.as_str());
    }

    fn push_text_b(&self, out: &mut String, use_color: bool)
        ensures
            final(out)@ == link_text_b(old(out)@, self@, use_color),
    {
        out.append("\n    ");
        out.append("link/");
        out.append(self.link_type.as_str());
        out.append(" ");
        let addr = self.addr_chunk(use_color);
        out.append(addr.as_str());
        let perm = self.permaddr_chunk(use_color);
        out.append(perm.as_str());
        let netns = self.netns_chunk();
        out.append(netns.as_str());
        let det = self.details_chunk();
        out.append(det.as_str());
        push_altnames(out, &self.altnames);
    }

    /// The name part of the first line.
    fn name_part(&self) -> (r: String)
        ensures
            r@ == namepart(self@),
    {
        let mut s = self.ifname.clone();
        if self.link_index.is_some() || self.link.is_some() {
            s.append("@");
            match &self.link {
                Some(n) => {
                    s.append(n.as_str());
                },
                None => {
                    match self.link_index {
                        Some(i) => {
                            s.append("if");
                            push_dec_u64(&mut s, i as u64);
                        },
                        None => {
                            s.append("NONE");
                        },
                    }
                },
            }
        }
        s.append(": ");
        assert(s@ =~= namepart(self@));
        s
    }

    /// The controller phrase.
    fn master_chunk(&self) -> (r: String)
        ensures
            r@ == master_phrase(self@),
    {
        let mut s = String::new();
        if let Some(ctrl) = &self.controller {
            s.append(" master ");
            s.append(ctrl.as_str());
            assert(s@ =~= " master "@ + ctrl@);
        }
        s
    }

    /// The highlighted state phrase.
    fn state_chunk(&self, use_color: bool) -> (r: String)
        ensures
            r@ == state_phrase(self@, use_color),
    {
        let mut body = self.operstate.clone();
        body.append(" ");
        let up = String::from_str("UP");
        let down = String::from_str("DOWN");
        let mut s = String::new();
        if self.operstate.eq(&up) {
            push_colored(&mut s, use_color, CliColor::StateUp, body.as_str());
        } else if self.operstate.eq(&down) {
            push_colored(&mut s, use_color, CliColor::StateDown, body.as_str());
        } else {
            s.append(body.as_str());
        }
        assert(s@ =~= state_phrase(self@, use_color));
        s
    }

    /// The queue-length phrase.
    fn qlen_chunk(&self) -> (r: String)
        ensures
            r@ == qlen_phrase(self@),
    {
        let mut s = String::new();
        if let Some(q) = self.txqlen {
            s.append("qlen ");
            push_dec_u64(&mut s, q as u64);
            assert(s@ =~= "qlen "@ + dec_nat(q as nat));
        }
        s
    }

    /// The address block.
    fn addr_chunk(&self, use_color: bool) -> (r: String)
        ensures
            r@ == addr_phrase(self@, use_color),
    {
        let mut s = String::new();
        if self.address.as_str().unicode_len() > 0 {
            push_colored(&mut s, use_color, CliColor::Mac, self.address.as_str());
            s.append(" brd ");
            push_colored(&mut s, use_color, CliColor::Mac, self.broadcast.as_str());
            assert(s@ =~= addr_phrase(self@, use_color));
        }
        s
    }

    /// The permanent-address phrase.
    fn permaddr_chunk(&self, use_color: bool) -> (r: String)
        ensures
            r@ == permaddr_phrase(self@, use_color),
    {
        let mut s = String::new();
        if self.permaddr.as_str().unicode_len() > 0 {
            s.append(" permaddr ");
            push_colored(&mut s, use_color, CliColor::Mac, self.permaddr.as_str());
            assert(s@ =~= permaddr_phrase(self@, use_color));
        }
        s
    }

    /// The namespace phrase.
    fn netns_chunk(&self) -> (r: String)
        ensures
            r@ == netns_phrase(self@),
    {
        let mut s = String::new();
        if self.link_netns.as_str().unicode_len() > 0 {
            s.append(" link-netns ");
            s.append(self.link_netns.as_str());
            assert(s@ =~= " link-netns "@ + self@.link_netns);
        } else {
            if let Some(id) = self.link_netnsid {
                s.append(" link-netnsid ");
                push_dec_i32(&mut s, id);
                assert(s@ =~= " link-netnsid "@ + dec_int(id as int));
            }
        }
        s
    }

    /// The details block.
    fn details_chunk(&self) -> (r: String)
        ensures
            r@ == details_phrase(self@),
    {
        match &self.details {
            Some(d) => d.gen_string(),
            None => String::new(),
        }
    }
}

/// Appends one indented `altname` line per alternate name.
fn push_altnames(out: &mut String, names: &Vec<String>)
    ensures
        final(out)@ == old(out)@ + altnames_text(names.deep_view()),
{
    let n: usize = names.len();
    let mut i: usize = 0;
    while i < n
        invariant
            i <= n,
            n == names@.len(),
            n == names.deep_view().len(),
            out@ == old(out)@ + altnames_text(names.deep_view().take(i as int)),
        decreases n - i,
    {
        out.append("\n    altname ");
        out.append(names[i].as_str());
        proof {
            let dv = names.deep_view();
            let t = dv.take(i + 1 as int);
            assert(t.drop_last() =~= dv.take(i as int));
            assert(dv[i as int] == names@[i as int]@);
            assert(t.last() == names@[i as int]@);
        }
        i = i + 1;
        assert(out@ =~= old(out)@ + altnames_text(names.deep_view().take(i as int)));
    }
    assert(names.deep_view().take(n as int) =~= names.deep_view());
}

// ---------------------------------------------------------------------------
// JSON rendering
// ---------------------------------------------------------------------------

/// The optional permanent-address member; an empty permanent address emits
/// no key at all.
pub open spec fn permaddr_member(v: LinkView) -> Seq<char> {
    if v.permaddr.len() > 0 {
        ",\"permaddr\":"@ + json_str(v.permaddr)
    } else {
        Seq::<char>::empty()
    }
}

/// The JSON object image of one link record; the controller renders under
/// the key `master`, absent optional fields are omitted entirely, and the
/// details members are inlined.
#[verifier::opaque]
pub open spec fn link_json(v: LinkView) -> Seq<char> {
    link_json_b(link_json_a(Seq::<char>::empty(), v), v)
}

/// Index, references, name, flags and queueing.
pub open spec fn link_json_a(p: Seq<char>, v: LinkView) -> Seq<char> {
    p + "{\"ifindex\":"@ + dec_nat(v.ifindex as nat) + (match v.link {
        Some(n) => ",\"link\":"@ + json_str(n),
        None => Seq::<char>::empty(),
    }) + (match v.link_index {
        Some(i) => ",\"link_index\":"@ + dec_nat(i as nat),
        None => Seq::<char>::empty(),
    }) + ",\"ifname\":"@ + json_str(v.ifname) + ",\"flags\":"@ + json_str_array(v.flags)
        + ",\"mtu\":"@ + dec_nat(v.mtu as nat) + ",\"qdisc\":"@ + json_str(v.qdisc) + (
    match v.controller {
        Some(ctrl) => ",\"master\":"@ + json_str(ctrl),
        None => Seq::<char>::empty(),
    }) + ",\"operstate\":"@ + json_str(v.operstate) + ",\"linkmode\":"@ + json_str(v.linkmode)
        + ",\"group\":"@ + json_str(v.group) + (match v.txqlen {
        Some(q) => ",\"txqlen\":"@ + dec_nat(q as nat),
        None => Seq::<char>::empty(),
    })
}

/// Link-layer type, addresses, namespace id, details and alternate names.
pub open spec fn link_json_b(p: Seq<char>, v: LinkView) -> Seq<char> {
    p + ",\"link_type\":"@ + json_str(v.link_type) + (if v.address.len() > 0 {
        ",\"address\":"@ + json_str(v.address)
    } else {
        Seq::<char>::empty()
    }) + (if v.broadcast.len() > 0 {
        ",\"broadcast\":"@ + json_str(v.broadcast)
    } else {
        Seq::<char>::empty()
    }) + permaddr_member(v) + (match v.link_netnsid {
        Some(id) => ",\"link_netnsid\":"@ + dec_int(id as int),
        None => Seq::<char>::empty(),
    }) + (match v.details {
        Some(d) => details_json_body(d),
        None => Seq::<char>::empty(),
    }) + (if v.altnames.len() > 0 {
        ",\"altnames\":"@ + json_str_array(v.altnames)
    } else {
        Seq::<char>::empty()
    }) + "}"@
}

impl CliLinkInfo {
    /// The JSON object form.
    pub fn to_json_string(&self) -> (r: String)
        ensures
            r@ == link_json(self@),
    {
        proof {
            reveal(link_json);
        }
        let mut out = String::new();
        self.push_json_a(&mut out);
        self.push_json_b(&mut out);
        out
    }

    fn push_json_a(&self, out: &mut String)
        ensures
            final(out)@ == link_json_a(old(out)@, self@),
    {
        out.append("{\"ifindex\":");
        push_dec_u64(out, self.ifindex as u64);
        let link = self.link_member();
        out.append(link.as_str());
        let li = self.link_index_member();
        out.append(li.as_str());
        out.append(",\"ifname\":");
        push_json_str(out, self.ifname.as_str());
        out.append(",\"flags\":");
        push_json_str_array(out, &self.flags);
        out.append(",\"mtu\":");
        push_dec_u64(out, self.mtu as u64);
        out.append(",\"qdisc\":");
        push_json_str(out, self.qdisc.as_str());
        let master = self.master_member();
        out.append(master.as_str());
        out.append(",\"operstate\":");
        push_json_str(out, self.operstate.as_str());
        out.append(",\"linkmode\":");
        push_json_str(out, self.linkmode.as_str());
        out.append(",\"group\":");
        push_json_str(out, self.group.as_str());
        let q = self.txqlen_member();
        out.append(q.as_str());
    }

    fn push_json_b(&self, out: &mut String)
        ensures
            final(out)@ == link_json_b(old(out)@, self@),
    {
        out.append(",\"link_type\":");
        push_json_str(out, self.link_type.as_str());
        let addr = self.address_member();
        out.append(addr.as_str());
        let brd = self.broadcast_member();
        out.append(brd.as_str());
        let perm = self.permaddr_json_chunk();
        out.append(perm.as_str());
        let ns = self.netnsid_member();
        out.append(ns.as_str());
        let det = self.details_members();
        out.append(det.as_str());
        let alt = self.altnames_member();
        out.append(alt.as_str());
        out.append("}");
    }

    fn link_member(&self) -> (r: String)
        ensures
            r@ == (match self@.link {
                Some(n) => ",\"link\":"@ + json_str(n),
                None => Seq::<char>::empty(),
            }),
    {
        let mut s = String::new();
        if let Some(n) = &self.link {
            s.append(",\"link\":");
            push_json_str(&mut s, n.as_str());
            assert(s@ =~= ",\"link\":"@ + json_str(n@));
        }
        s
    }

    fn link_index_member(&self) -> (r: String)
        ensures
            r@ == (match self@.link_index {
                Some(i) => ",\"link_index\":"@ + dec_nat(i as nat),
                None => Seq::<char>::empty(),
            }),
    {
        let mut s = String::new();
        if let Some(i) = self.link_index {
            s.append(",\"link_index\":");
            push_dec_u64(&mut s, i as u64);
            assert(s@ =~= ",\"link_index\":"@ + dec_nat(i as nat));
        }
        s
    }

    fn master_member(&self) -> (r: String)
        ensures
            r@ == (match self@.controller {
                Some(ctrl) => ",\"master\":"@ + json_str(ctrl),
                None => Seq::<char>::empty(),
            }),
    {
        let mut s = String::new();
        if let Some(ctrl) = &self.controller {
            s.append(",\"master\":");
            push_json_str(&mut s, ctrl.as_str());
            assert(s@ =~= ",\"master\":"@ + json_str(ctrl@));
        }
        s
    }

    fn txqlen_member(&self) -> (r: String)
        ensures
            r@ == (match self@.txqlen {
                Some(q) => ",\"txqlen\":"@ + dec_nat(q as nat),
                None => Seq::<char>::empty(),
            }),
    {
        let mut s = String::new();
        if let Some(q) = self.txqlen {
            s.append(",\"txqlen\":");
            push_dec_u64(&mut s, q as u64);
            assert(s@ =~= ",\"txqlen\":"@ + dec_nat(q as nat));
        }
        s
    }

    fn address_member(&self) -> (r: String)
        ensures
            r@ == (if self@.address.len() > 0 {
                ",\"address\":"@ + json_str(self@.address)
            } else {
                Seq::<char>::empty()
            }),
    {
        let mut s = String::new();
        if self.address.as_str().unicode_len() > 0 {
            s.append(",\"address\":");
            push_json_str(&mut s, self.address.as_str());
            assert(s@ =~= ",\"address\":"@ + json_str(self@.address));
        }
        s
    }

    fn broadcast_member(&self) -> (r: String)
        ensures
            r@ == (if self@.broadcast.len() > 0 {
                ",\"broadcast\":"@ + json_str(self@.broadcast)
            } else {
                Seq::<char>::empty()
            }),
    {
        let mut s = String::new();
        if self.broadcast.as_str().unicode_len() > 0 {
            s.append(",\"broadcast\":");
            push_json_str(&mut s, self.broadcast.as_str());
            assert(s@ =~= ",\"broadcast\":"@ + json_str(self@.broadcast));
        }
        s
    }

    /// The optional permanent-address member.
    fn permaddr_json_chunk(&self) -> (r: String)
        ensures
            r@ == permaddr_member(self@),
    {
        let mut s = String::new();
        if self.permaddr.as_str().unicode_len() > 0 {
            s.append(",\"permaddr\":");
            push_json_str(&mut s, self.permaddr.as_str());
            assert(s@ =~= permaddr_member(self@));
        }
        s
    }

    fn netnsid_member(&self) -> (r: String)
        ensures
            r@ == (match self@.link_netnsid {
                Some(id) => ",\"link_netnsid\":"@ + dec_int(id as int),
                None => Seq::<char>::empty(),
            }),
    {
        let mut s = String::new();
        if let Some(id) = self.link_netnsid {
            s.append(",\"link_netnsid\":");
            push_dec_i32(&mut s, id);
            assert(s@ =~= ",\"link_netnsid\":"@ + dec_int(id as int));
        }
        s
    }

    fn details_members(&self) -> (r: String)
        ensures
            r@ == (match self@.details {
                Some(d) => details_json_body(d),
                None => Seq::<char>::empty(),
            }),
    {
        match &self.details {
            Some(d) => d.json_body(),
            None => String::new(),
        }
    }

    fn altnames_member(&self) -> (r: String)
        ensures
            r@ == (if self@.altnames.len() > 0 {
                ",\"altnames\":"@ + json_str_array(self@.altnames)
            } else {
                Seq::<char>::empty()
            }),
    {
        let mut s = String::new();
        if self.altnames.len() > 0 {
            s.append(",\"altnames\":");
            push_json_str_array(&mut s, &self.altnames);
            assert(s@ =~= ",\"altnames\":"@ + json_str_array(self@.altnames));
        }
        s
    }
}

// ---------------------------------------------------------------------------
// Record lists
// ---------------------------------------------------------------------------

/// The text of a record list: records joined by single newlines.
pub open spec fn links_text(s: Seq<LinkView>, c: bool) -> Seq<char>
    decreases s.len(),
{
    if s.len() == 0 {
        Seq::<char>::empty()
    } else if s.len() == 1 {
        link_text(s[0], c)
    } else {
        links_text(s.drop_last(), c) + "\n"@ + link_text(s.last(), c)
    }
}

/// The JSON array body of a record list.
pub open spec fn links_json_body(s: Seq<LinkView>) -> Seq<char>
    decreases s.len(),
{
    if s.len() == 0 {
        Seq::<char>::empty()
    } else if s.len() == 1 {
        link_json(s[0])
    } else {
        links_json_body(s.drop_last()) + ","@ + link_json(s.last())
    }
}

/// The JSON array of a record list.
pub open spec fn links_json(s: Seq<LinkView>) -> Seq<char> {
    "["@ + links_json_body(s) + "]"@
}

/// Renders a record list as newline-joined text, optionally highlighted.
#[verifier::rlimit(100)]
pub fn links_to_string(links: &Vec<CliLinkInfo>, use_color: bool) -> (r: String)
    ensures
        r@ == links_text(views_of(links@), use_color),
{
    let n: usize = links.len();
    let mut out = String::new();
    let mut i: usize = 0;
    while i < n
        invariant
            i <= n,
            n == links@.len(),
            out@ == links_text(views_of(links@).take(i as int), use_color),
        decreases n - i,
    {
        if i > 0 {
            out.append("\n");
        }
        let t = links[i].gen_string_with_color(use_color);
        out.append(t.as_str());
        proof {
            let vs = views_of(links@);
            let t2 = vs.take(i + 1 as int);
            assert(t2.drop_last() =~= vs.take(i as int));
            assert(vs[i as int] == links@[i as int]@);
            assert(t2.last() == links@[i as int]@);
        }
        i = i + 1;
        assert(out@ =~= links_text(views_of(links@).take(i as int), use_color));
    }
    assert(views_of(links@).take(n as int) =~= views_of(links@));
    out
}

/// Renders a record list as a JSON array.
#[verifier::rlimit(100)]
pub fn links_to_json_string(links: &Vec<CliLinkInfo>) -> (r: String)
    ensures
        r@ == links_json(views_of(links@)),
{
    let n: usize = links.len();
    let mut out = String::new();
    out.append("[");
    let mut i: usize = 0;
    while i < n
        invariant
            i <= n,
            n == links@.len(),
            out@ == "["@ + links_json_body(views_of(links@).take(i as int)),
        decreases n - i,
    {
        if i > 0 {
            out.append(",");
        }
        let t = links[i].to_json_string();
        out.append(t.as_str());
        proof {
            let vs = views_of(links@);
            let t2 = vs.take(i + 1 as int);
            assert(t2.drop_last() =~= vs.take(i as int));
            assert(vs[i as int] == links@[i as int]@);
            assert(t2.last() == links@[i as int]@);
        }
        i = i + 1;
        assert(out@ =~= "["@ + links_json_body(views_of(links@).take(i as int)));
    }
    assert(views_of(links@).take(n as int) =~= views_of(links@));
    out.append("]");
    assert(out@ =~= links_json(views_of(links@)));
    out
}

impl CanOutput for CliLinkInfo {
    fn to_cli_string(&self) -> (r: String)
        ensures
            r@ == link_text(self@, false),
    {
        self.gen_string_with_color(false)
    }
}

impl CanOutput for Vec<CliLinkInfo> {
    fn to_cli_string(&self) -> (r: String)
        ensures
            r@ == links_text(views_of(self@), false),
    {
        links_to_string(self, false)
    }
}

// ---------------------------------------------------------------------------
// Stated properties
// ---------------------------------------------------------------------------

/// A permanent address equal to the recorded hardware address is never
/// promoted: the built record carries an empty permanent address.
pub proof fn lemma_permaddr_suppressed(msg: LinkMessage, include_details: bool)
    ensures
        ({
            let acc = link_attr_fold(
                msg.attributes@,
                LinkAcc { rec: link_init(msg), temp_permaddr: Seq::<char>::empty() },
            );
            acc.temp_permaddr == acc.rec.address ==> parse_spec(msg, include_details).permaddr
                =~= Seq::<char>::empty()
        }),
{
}

/// A record with an empty permanent address renders no `permaddr` phrase
/// in text and no `permaddr` key in JSON, whatever else it holds.
pub proof fn lemma_permaddr_omitted(v: LinkView, c: bool)
    ensures
        v.permaddr.len() == 0 ==> permaddr_phrase(v, c) =~= Seq::<char>::empty(),
        v.permaddr.len() == 0 ==> permaddr_member(v) =~= Seq::<char>::empty(),
{
}

/// Once the resolver has rewritten a controller reference, the text holds
/// the `master <name>` phrase of the resolved name.
pub proof fn lemma_controller_phrase(v: LinkView)
    ensures
        (v.controller matches Some(n) ==> master_phrase(v) == " master "@ + n),
        v.controller is None ==> master_phrase(v) =~= Seq::<char>::empty(),
{
}

} // verus!

