//! Decoding and rendering of a VLAN sub-interface's kind-specific data.

use vstd::prelude::*;
use vstd::string::StringExecFns;

use crate::jsonfmt::json_str;
use crate::jsonfmt::json_str_array;
use crate::jsonfmt::push_json_str;
use crate::jsonfmt::push_json_str_array;
use crate::names::vlan_protocol_string;
use crate::names::vlan_protocol_text;
use crate::textfmt::dec_nat;
use crate::textfmt::join_comma;
use crate::textfmt::maybe_tok;
use crate::textfmt::push_dec_u64;
use crate::textfmt::push_join_comma;
use crate::textfmt::push_maybe_token;
use crate::wire::InfoVlan;

verus! {

/// Decoded VLAN kind data: protocol tag text, VLAN id and expanded flag
/// tokens.
pub struct CliLinkInfoDataVlan {
    pub protocol: String,
    pub id: u16,
    pub flags: Vec<String>,
}

/// The ghost image of [`CliLinkInfoDataVlan`].
#[verifier::ext_equal]
pub ghost struct VlanView {
    pub protocol: Seq<char>,
    pub id: u16,
    pub flags: Seq<Seq<char>>,
}

impl View for CliLinkInfoDataVlan {
    type V = VlanView;

    open spec fn view(&self) -> VlanView {
        VlanView { protocol: self.protocol@, id: self.id, flags: self.flags.deep_view() }
    }
}

/// The flag tokens named by a VLAN flag word, in wire-bit order.
pub open spec fn vlan_flag_tokens(bits: u32) -> Seq<Seq<char>> {
    Seq::<Seq<char>>::empty() + maybe_tok(bits & 0x1 != 0, "REORDER_HDR"@) + maybe_tok(
        bits & 0x2 != 0,
        "GVRP"@,
    ) + maybe_tok(bits & 0x4 != 0, "LOOSE_BINDING"@) + maybe_tok(bits & 0x8 != 0, "MVRP"@)
        + maybe_tok(bits & 0x10 != 0, "BRIDGE_BINDING"@)
}

/// The empty VLAN record every decode starts from.
pub open spec fn vlan_init() -> VlanView {
    VlanView { protocol: Seq::<char>::empty(), id: 0, flags: Seq::<Seq<char>>::empty() }
}

/// One decode step: a later attribute of the same kind overwrites an
/// earlier one.
pub open spec fn vlan_step(acc: VlanView, a: InfoVlan) -> VlanView {
    match a {
        InfoVlan::Id(v) => VlanView { id: v, ..acc },
        InfoVlan::Flags(value, _mask) => VlanView { flags: vlan_flag_tokens(value), ..acc },
        InfoVlan::Protocol(p) => VlanView { protocol: vlan_protocol_text(p), ..acc },
        InfoVlan::Other(_, _) => acc,
    }
}

/// The decode of a whole attribute list, in list order.
pub open spec fn vlan_fold(s: Seq<InfoVlan>) -> VlanView
    decreases s.len(),
{
    if s.len() == 0 {
        vlan_init()
    } else {
        vlan_step(vlan_fold(s.drop_last()), s.last())
    }
}

/// The compatibility text image of a VLAN record: protocol, id, and the
/// flag list in angle brackets when any flag is set.
pub open spec fn vlan_text(v: VlanView) -> Seq<char> {
    "protocol "@ + v.protocol + " "@ + "id "@ + dec_nat(v.id as nat) + " "@ + (if v.flags.len()
        > 0 {
        "<"@ + join_comma(v.flags) + ">"@
    } else {
        Seq::<char>::empty()
    })
}

/// The JSON image of a VLAN record; every field is always present.
pub open spec fn vlan_json(v: VlanView) -> Seq<char> {
    "{\"protocol\":"@ + json_str(v.protocol) + ",\"id\":"@ + dec_nat(v.id as nat) + ",\"flags\":"@
        + json_str_array(v.flags) + "}"@
}

impl CliLinkInfoDataVlan {
    /// Decodes a VLAN attribute list; absent attributes keep their zero or
    /// empty defaults, repeated attributes keep the last value.
    pub fn new(info: &[InfoVlan]) -> (r: Self)
        ensures
            r@ == vlan_fold(info@),
    {
        let mut r = CliLinkInfoDataVlan { protocol: String::new(), id: 0, flags: Vec::new() };
        assert(r@ =~= vlan_fold(info@.take(0)));
        let n: usize = info.len();
        let mut i: usize = 0;
        while i < n
            invariant
                i <= n,
                n == info@.len(),
                r@ == vlan_fold(info@.take(i as int)),
            decreases n - i,
        {
            let ghost prev = r@;
            match &info[i] {
                InfoVlan::Id(v) => {
                    r.id = *v;
                },
                InfoVlan::Flags(value, _mask) => {
                    r.flags = vlan_flag_vec(*value);
                },
                InfoVlan::Protocol(p) => {
                    r.protocol = vlan_protocol_string(*p);
                },
                InfoVlan::Other(_, _) => {},
            }
            proof {
                let t = info@.take(i + 1 as int);
                assert(t.drop_last() =~= info@.take(i as int));
                assert(t.last() == info@[i as int]);
                assert(r@ =~= vlan_step(prev, info@[i as int]));
            }
            i = i + 1;
        }
        assert(info@.take(n as int) =~= info@);
        r
    }

    /// The compatibility text form.
    pub fn gen_string(&self) -> (r: String)
        ensures
            r@ == vlan_text(self@),
    {
        let mut out = String::new();
        out.append("protocol ");
        out.append(self.protocol.as_str());
        out.append(" ");
        out.append("id ");
        push_dec_u64(&mut out, self.id as u64);
        out.append(" ");
        if self.flags.len() > 0 {
            out.append("<");
            push_join_comma(&mut out, &self.flags);
            out.append(">");
        }
        assert(out@ =~= vlan_text(self@));
        out
    }

    /// The JSON object form.
    pub fn to_json_string(&self) -> (r: String)
        ensures
            r@ == vlan_json(self@),
    {
        let mut out = String::new();
        out.append("{\"protocol\":");
        push_json_str(&mut out, self.protocol.as_str());
        out.append(",\"id\":");
        push_dec_u64(&mut out, self.id as u64);
        out.append(",\"flags\":");
        push_json_str_array(&mut out, &self.flags);
        out.append("}");
        assert(out@ =~= vlan_json(self@));
        out
    }
}

/// Builds the flag token list for a VLAN flag word.
fn vlan_flag_vec(bits: u32) -> (r: Vec<String>)
    ensures
        r.deep_view() == vlan_flag_tokens(bits),
{
    let mut r: Vec<String> = Vec::new();
    push_maybe_token(&mut r, bits & 0x1 != 0, "REORDER_HDR");
    push_maybe_token(&mut r, bits & 0x2 != 0, "GVRP");
    push_maybe_token(&mut r, bits & 0x4 != 0, "LOOSE_BINDING");
    push_maybe_token(&mut r, bits & 0x8 != 0, "MVRP");
    push_maybe_token(&mut r, bits & 0x10 != 0, "BRIDGE_BINDING");
    r
}

} // verus!
