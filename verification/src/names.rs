//! Textual vocabularies for numeric wire values: operational state, link
//! mode, link-layer type, address-generation mode, port state, VLAN protocol
//! tags and the operational flag bits.

use vstd::prelude::*;
use vstd::string::StringExecFns;

use crate::textfmt::dec_nat;
use crate::textfmt::hex0x;
use crate::textfmt::hex_nat;
use crate::textfmt::maybe_tok;
use crate::textfmt::push_dec_u64;
use crate::textfmt::push_hex_u64;
use crate::textfmt::push_maybe_token;

verus! {

/// Operational state image (upper case, unknown values as `OTHER(n)`).
pub open spec fn oper_state_text(v: u8) -> Seq<char> {
    if v == 0 {
        "UNKNOWN"@
    } else if v == 1 {
        "NOTPRESENT"@
    } else if v == 2 {
        "DOWN"@
    } else if v == 3 {
        "LOWERLAYERDOWN"@
    } else if v == 4 {
        "TESTING"@
    } else if v == 5 {
        "DORMANT"@
    } else if v == 6 {
        "UP"@
    } else {
        "OTHER("@ + dec_nat(v as nat) + ")"@
    }
}

/// The operational state as a `String`.
pub fn oper_state_string(v: u8) -> (r: String)
    ensures
        r@ == oper_state_text(v),
{
    if v == 0 {
        String::from_str("UNKNOWN")
    } else if v == 1 {
        String::from_str("NOTPRESENT")
    } else if v == 2 {
        String::from_str("DOWN")
    } else if v == 3 {
        String::from_str("LOWERLAYERDOWN")
    } else if v == 4 {
        String::from_str("TESTING")
    } else if v == 5 {
        String::from_str("DORMANT")
    } else if v == 6 {
        String::from_str("UP")
    } else {
        let mut s = String::from_str("OTHER(");
        push_dec_u64(&mut s, v as u64);
        s.append(")");
        assert(s@ =~= oper_state_text(v));
        s
    }
}

/// Link mode image (unknown values as `UNKNOWN:n`).
pub open spec fn link_mode_text(v: u8) -> Seq<char> {
    if v == 0 {
        "DEFAULT"@
    } else if v == 1 {
        "DORMANT"@
    } else if v == 2 {
        "TESTING"@
    } else {
        "UNKNOWN:"@ + dec_nat(v as nat)
    }
}

/// The link mode as a `String`.
pub fn link_mode_string(v: u8) -> (r: String)
    ensures
        r@ == link_mode_text(v),
{
    if v == 0 {
        String::from_str("DEFAULT")
    } else if v == 1 {
        String::from_str("DORMANT")
    } else if v == 2 {
        String::from_str("TESTING")
    } else {
        let mut s = String::from_str("UNKNOWN:");
        push_dec_u64(&mut s, v as u64);
        assert(s@ =~= link_mode_text(v));
        s
    }
}

/// IPv6 address-generation mode image (unknown values as `other(n)`).
pub open spec fn addr_gen_mode_text(v: u8) -> Seq<char> {
    if v == 0 {
        "eui64"@
    } else if v == 1 {
        "none"@
    } else if v == 2 {
        "stable_privacy"@
    } else if v == 3 {
        "random"@
    } else {
        "other("@ + dec_nat(v as nat) + ")"@
    }
}

/// The address-generation mode as a `String`.
pub fn addr_gen_mode_string(v: u8) -> (r: String)
    ensures
        r@ == addr_gen_mode_text(v),
{
    if v == 0 {
        String::from_str("eui64")
    } else if v == 1 {
        String::from_str("none")
    } else if v == 2 {
        String::from_str("stable_privacy")
    } else if v == 3 {
        String::from_str("random")
    } else {
        let mut s = String::from_str("other(");
        push_dec_u64(&mut s, v as u64);
        s.append(")");
        assert(s@ =~= addr_gen_mode_text(v));
        s
    }
}

/// Bridge-port state image (unknown values as their decimal form).
pub open spec fn port_state_text(v: u8) -> Seq<char> {
    if v == 0 {
        "disabled"@
    } else if v == 1 {
        "listening"@
    } else if v == 2 {
        "learning"@
    } else if v == 3 {
        "forwarding"@
    } else if v == 4 {
        "blocking"@
    } else {
        dec_nat(v as nat)
    }
}

/// The bridge-port state as a `String`.
pub fn port_state_string(v: u8) -> (r: String)
    ensures
        r@ == port_state_text(v),
{
    if v == 0 {
        String::from_str("disabled")
    } else if v == 1 {
        String::from_str("listening")
    } else if v == 2 {
        String::from_str("learning")
    } else if v == 3 {
        String::from_str("forwarding")
    } else if v == 4 {
        String::from_str("blocking")
    } else {
        let mut s = String::new();
        push_dec_u64(&mut s, v as u64);
        assert(s@ =~= port_state_text(v));
        s
    }
}

/// VLAN protocol tag image: the two standard tags by name, anything else as
/// lower-case `0x`-prefixed hex.
pub open spec fn vlan_protocol_text(v: u16) -> Seq<char> {
    if v == 0x8100 {
        "802.1Q"@
    } else if v == 0x88a8 {
        "802.1ad"@
    } else {
        hex0x(v as nat)
    }
}

/// The VLAN protocol tag as a `String`.
pub fn vlan_protocol_string(v: u16) -> (r: String)
    ensures
        r@ == vlan_protocol_text(v),
{
    if v == 0x8100 {
        String::from_str("802.1Q")
    } else if v == 0x88a8 {
        String::from_str("802.1ad")
    } else {
        let mut s = String::from_str("0x");
        push_hex_u64(&mut s, v as u64);
        assert(s@ =~= vlan_protocol_text(v));
        s
    }
}

/// Link-layer type image: the kernel's ARPHRD vocabulary in lower case;
/// values outside it render as `void`, as the protocol codec reports them.
pub open spec fn link_layer_type_text(v: u16) -> Seq<char> {
    if v == 0 {
        "netrom"@
    } else if v == 1 {
        "ether"@
    } else if v == 2 {
        "eether"@
    } else if v == 3 {
        "ax25"@
    } else if v == 4 {
        "pronet"@
    } else if v == 5 {
        "chaos"@
    } else if v == 6 {
        "ieee802"@
    } else if v == 7 {
        "arcnet"@
    } else if v == 8 {
        "appletlk"@
    } else if v == 15 {
        "dlci"@
    } else if v == 19 {
        "atm"@
    } else if v == 23 {
        "metricom"@
    } else if v == 24 {
        "ieee1394"@
    } else if v == 27 {
        "eui64"@
    } else if v == 32 {
        "infiniband"@
    } else if v == 256 {
        "slip"@
    } else if v == 257 {
        "cslip"@
    } else if v == 258 {
        "slip6"@
    } else if v == 259 {
        "cslip6"@
    } else if v == 260 {
        "rsrvd"@
    } else if v == 264 {
        "adapt"@
    } else if v == 270 {
        "rose"@
    } else if v == 271 {
        "x25"@
    } else if v == 272 {
        "hwx25"@
    } else if v == 280 {
        "can"@
    } else if v == 290 {
        "mctp"@
    } else if v == 512 {
        "ppp"@
    } else if v == 513 {
        "hdlc"@
    } else if v == 516 {
        "lapb"@
    } else if v == 517 {
        "ddcmp"@
    } else if v == 518 {
        "rawhdlc"@
    } else if v == 519 {
        "rawip"@
    } else if v == 768 {
        "tunnel"@
    } else if v == 769 {
        "tunnel6"@
    } else if v == 770 {
        "frad"@
    } else if v == 771 {
        "skip"@
    } else if v == 772 {
        "loopback"@
    } else if v == 773 {
        "localtlk"@
    } else if v == 774 {
        "fddi"@
    } else if v == 775 {
        "bif"@
    } else if v == 776 {
        "sit"@
    } else if v == 777 {
        "ipddp"@
    } else if v == 778 {
        "ipgre"@
    } else if v == 779 {
        "pimreg"@
    } else if v == 780 {
        "hippi"@
    } else if v == 781 {
        "ash"@
    } else if v == 782 {
        "econet"@
    } else if v == 783 {
        "irda"@
    } else if v == 784 {
        "fcpp"@
    } else if v == 785 {
        "fcal"@
    } else if v == 786 {
        "fcpl"@
    } else if v == 787 {
        "fcfabric"@
    } else if v == 800 {
        "ieee802_tr"@
    } else if v == 801 {
        "ieee80211"@
    } else if v == 802 {
        "ieee80211_prism"@
    } else if v == 803 {
        "ieee80211_radiotap"@
    } else if v == 804 {
        "ieee802154"@
    } else if v == 805 {
        "ieee802154_monitor"@
    } else if v == 820 {
        "phonet"@
    } else if v == 821 {
        "phonet_pipe"@
    } else if v == 822 {
        "caif"@
    } else if v == 823 {
        "ip6gre"@
    } else if v == 824 {
        "netlink"@
    } else if v == 825 {
        "6lowpan"@
    } else if v == 826 {
        "vsockmon"@
    } else if v == 0xfffe {
        "none"@
    } else {
        "void"@
    }
}

/// The link-layer type as a `String`.
pub fn link_layer_type_string(v: u16) -> (r: String)
    ensures
        r@ == link_layer_type_text(v),
{
    let s: &str = if v == 0 {
        "netrom"
    } else if v == 1 {
        "ether"
    } else if v == 2 {
        "eether"
    } else if v == 3 {
        "ax25"
    } else if v == 4 {
        "pronet"
    } else if v == 5 {
        "chaos"
    } else if v == 6 {
        "ieee802"
    } else if v == 7 {
        "arcnet"
    } else if v == 8 {
        "appletlk"
    } else if v == 15 {
        "dlci"
    } else if v == 19 {
        "atm"
    } else if v == 23 {
        "metricom"
    } else if v == 24 {
        "ieee1394"
    } else if v == 27 {
        "eui64"
    } else if v == 32 {
        "infiniband"
    } else if v == 256 {
        "slip"
    } else if v == 257 {
        "cslip"
    } else if v == 258 {
        "slip6"
    } else if v == 259 {
        "cslip6"
    } else if v == 260 {
        "rsrvd"
    } else if v == 264 {
        "adapt"
    } else if v == 270 {
        "rose"
    } else if v == 271 {
        "x25"
    } else if v == 272 {
        "hwx25"
    } else if v == 280 {
        "can"
    } else if v == 290 {
        "mctp"
    } else if v == 512 {
        "ppp"
    } else if v == 513 {
        "hdlc"
    } else if v == 516 {
        "lapb"
    } else if v == 517 {
        "ddcmp"
    } else if v == 518 {
        "rawhdlc"
    } else if v == 519 {
        "rawip"
    } else if v == 768 {
        "tunnel"
    } else if v == 769 {
        "tunnel6"
    } else if v == 770 {
        "frad"
    } else if v == 771 {
        "skip"
    } else if v == 772 {
        "loopback"
    } else if v == 773 {
        "localtlk"
    } else if v == 774 {
        "fddi"
    } else if v == 775 {
        "bif"
    } else if v == 776 {
        "sit"
    } else if v == 777 {
        "ipddp"
    } else if v == 778 {
        "ipgre"
    } else if v == 779 {
        "pimreg"
    } else if v == 780 {
        "hippi"
    } else if v == 781 {
        "ash"
    } else if v == 782 {
        "econet"
    } else if v == 783 {
        "irda"
    } else if v == 784 {
        "fcpp"
    } else if v == 785 {
        "fcal"
    } else if v == 786 {
        "fcpl"
    } else if v == 787 {
        "fcfabric"
    } else if v == 800 {
        "ieee802_tr"
    } else if v == 801 {
        "ieee80211"
    } else if v == 802 {
        "ieee80211_prism"
    } else if v == 803 {
        "ieee80211_radiotap"
    } else if v == 804 {
        "ieee802154"
    } else if v == 805 {
        "ieee802154_monitor"
    } else if v == 820 {
        "phonet"
    } else if v == 821 {
        "phonet_pipe"
    } else if v == 822 {
        "caif"
    } else if v == 823 {
        "ip6gre"
    } else if v == 824 {
        "netlink"
    } else if v == 825 {
        "6lowpan"
    } else if v == 826 {
        "vsockmon"
    } else if v == 0xfffe {
        "none"
    } else {
        "void"
    };
    String::from_str(s)
}

// ---------------------------------------------------------------------------
// Operational flag bits
// ---------------------------------------------------------------------------

/// The operational flag tokens in the classic rendering order: a synthetic
/// `NO-CARRIER` when the link is administratively up but not running, then
/// the named bits, then any residual unnamed bits in hex. The running bit
/// itself is never named.
pub open spec fn link_flag_tokens(f: u32) -> Seq<Seq<char>> {
    link_flag_tokens_tail(link_flag_tokens_head(f), f)
}

/// The first half of the flag token order (down to the slave bit).
pub open spec fn link_flag_tokens_head(f: u32) -> Seq<Seq<char>> {
    Seq::<Seq<char>>::empty() + maybe_tok(f & 0x1 != 0 && f & 0x40 == 0, "NO-CARRIER"@)
        + maybe_tok(f & 0x8 != 0, "LOOPBACK"@) + maybe_tok(f & 0x2 != 0, "BROADCAST"@) + maybe_tok(
        f & 0x10 != 0,
        "POINTOPOINT"@,
    ) + maybe_tok(f & 0x1000 != 0, "MULTICAST"@) + maybe_tok(f & 0x80 != 0, "NOARP"@) + maybe_tok(
        f & 0x200 != 0,
        "ALLMULTI"@,
    ) + maybe_tok(f & 0x100 != 0, "PROMISC"@) + maybe_tok(f & 0x400 != 0, "MASTER"@) + maybe_tok(
        f & 0x800 != 0,
        "SLAVE"@,
    )
}

/// The remaining tokens appended after `prefix`: debug and media bits, the
/// administrative and layered state bits, and the residual unnamed bits.
pub open spec fn link_flag_tokens_tail(prefix: Seq<Seq<char>>, f: u32) -> Seq<Seq<char>> {
    prefix + maybe_tok(f & 0x4 != 0, "DEBUG"@) + maybe_tok(f & 0x8000 != 0, "DYNAMIC"@)
        + maybe_tok(f & 0x4000 != 0, "AUTOMEDIA"@) + maybe_tok(f & 0x2000 != 0, "PORTSEL"@)
        + maybe_tok(f & 0x20 != 0, "NOTRAILERS"@) + maybe_tok(f & 0x1 != 0, "UP"@) + maybe_tok(
        f & 0x10000 != 0,
        "LOWER_UP"@,
    ) + maybe_tok(f & 0x20000 != 0, "DORMANT"@) + maybe_tok(f & 0x40000 != 0, "ECHO"@) + maybe_tok(
        f & 0xfff80000 != 0,
        hex_nat((f & 0xfff80000) as nat),
    )
}

/// The operational flag bits expanded into their token list.
pub fn link_flags_to_string(f: u32) -> (r: Vec<String>)
    ensures
        r.deep_view() == link_flag_tokens(f),
{
    let mut r: Vec<String> = link_flag_tokens_head_vec(f);
    link_flag_tokens_tail_vec(&mut r, f);
    r
}

/// Builds the first half of the token list.
#[verifier::rlimit(60)]
fn link_flag_tokens_head_vec(f: u32) -> (r: Vec<String>)
    ensures
        r.deep_view() == link_flag_tokens_head(f),
{
    let mut r: Vec<String> = Vec::new();
    push_maybe_token(&mut r, f & 0x1 != 0 && f & 0x40 == 0, "NO-CARRIER");
    push_maybe_token(&mut r, f & 0x8 != 0, "LOOPBACK");
    push_maybe_token(&mut r, f & 0x2 != 0, "BROADCAST");
    push_maybe_token(&mut r, f & 0x10 != 0, "POINTOPOINT");
    push_maybe_token(&mut r, f & 0x1000 != 0, "MULTICAST");
    push_maybe_token(&mut r, f & 0x80 != 0, "NOARP");
    push_maybe_token(&mut r, f & 0x200 != 0, "ALLMULTI");
    push_maybe_token(&mut r, f & 0x100 != 0, "PROMISC");
    push_maybe_token(&mut r, f & 0x400 != 0, "MASTER");
    push_maybe_token(&mut r, f & 0x800 != 0, "SLAVE");
    r
}

/// Appends the second half of the token list.
#[verifier::rlimit(60)]
fn link_flag_tokens_tail_vec(r: &mut Vec<String>, f: u32)
    ensures
        final(r).deep_view() == link_flag_tokens_tail(old(r).deep_view(), f),
{
    push_maybe_token(r, f & 0x4 != 0, "DEBUG");
    push_maybe_token(r, f & 0x8000 != 0, "DYNAMIC");
    push_maybe_token(r, f & 0x4000 != 0, "AUTOMEDIA");
    push_maybe_token(r, f & 0x2000 != 0, "PORTSEL");
    push_maybe_token(r, f & 0x20 != 0, "NOTRAILERS");
    push_maybe_token(r, f & 0x1 != 0, "UP");
    push_maybe_token(r, f & 0x10000 != 0, "LOWER_UP");
    push_maybe_token(r, f & 0x20000 != 0, "DORMANT");
    push_maybe_token(r, f & 0x40000 != 0, "ECHO");
    let residual: u32 = f & 0xfff80000;
    let mut s = String::new();
    push_hex_u64(&mut s, residual as u64);
    assert(s@ =~= hex_nat((f & 0xfff80000) as nat));
    push_maybe_string(r, residual != 0, s);
}

/// Appends one already-built token when `cond` holds.
fn push_maybe_string(v: &mut Vec<String>, cond: bool, s: String)
    ensures
        final(v).deep_view() == old(v).deep_view() + maybe_tok(cond, s@),
{
    if cond {
        v.push(s);
        assert(final(v).deep_view() =~= old(v).deep_view() + maybe_tok(cond, s@));
    } else {
        assert(final(v).deep_view() =~= old(v).deep_view() + maybe_tok(cond, s@));
    }
}

} // verus!
