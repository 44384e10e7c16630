//! Verified building blocks for the text renderers: decimal and hexadecimal
//! integer images, fixed-width padding, MAC addresses, bridge identifiers and
//! centisecond timers.

use vstd::prelude::*;
use vstd::string::StrSliceExecFns;
use vstd::string::StringExecFns;

verus! {

// ---------------------------------------------------------------------------
// Digit images
// ---------------------------------------------------------------------------

/// The character image of one decimal digit.
pub open spec fn dec_digit(d: nat) -> char
    recommends
        d < 10,
{
    if d == 0 {
        '0'
    } else if d == 1 {
        '1'
    } else if d == 2 {
        '2'
    } else if d == 3 {
        '3'
    } else if d == 4 {
        '4'
    } else if d == 5 {
        '5'
    } else if d == 6 {
        '6'
    } else if d == 7 {
        '7'
    } else if d == 8 {
        '8'
    } else {
        '9'
    }
}

/// The character image of one hexadecimal digit, lower case.
pub open spec fn hex_digit(d: nat) -> char
    recommends
        d < 16,
{
    if d < 10 {
        dec_digit(d)
    } else if d == 10 {
        'a'
    } else if d == 11 {
        'b'
    } else if d == 12 {
        'c'
    } else if d == 13 {
        'd'
    } else if d == 14 {
        'e'
    } else {
        'f'
    }
}

/// The decimal image of a natural number, without leading zeros.
pub open spec fn dec_nat(n: nat) -> Seq<char>
    decreases n,
{
    if n < 10 {
        seq![dec_digit(n)]
    } else {
        dec_nat(n / 10) + seq![dec_digit(n % 10)]
    }
}

/// The lower-case hexadecimal image of a natural number, without leading
/// zeros and without a prefix.
pub open spec fn hex_nat(n: nat) -> Seq<char>
    decreases n,
{
    if n < 16 {
        seq![hex_digit(n)]
    } else {
        hex_nat(n / 16) + seq![hex_digit(n % 16)]
    }
}

/// The decimal image of a possibly negative integer.
pub open spec fn dec_int(v: int) -> Seq<char> {
    if v < 0 {
        "-"@ + dec_nat((-v) as nat)
    } else {
        dec_nat(v as nat)
    }
}

// ---------------------------------------------------------------------------
// Padding
// ---------------------------------------------------------------------------

/// `n` copies of the character `c`.
pub open spec fn repeat_char(c: char, n: nat) -> Seq<char>
    decreases n,
{
    if n == 0 {
        Seq::<char>::empty()
    } else {
        repeat_char(c, (n - 1) as nat) + seq![c]
    }
}

/// `s` left-padded with `c` up to width `w`; `s` itself if already wide
/// enough.
pub open spec fn pad_left(s: Seq<char>, c: char, w: nat) -> Seq<char> {
    if s.len() >= w {
        s
    } else {
        repeat_char(c, (w - s.len()) as nat) + s
    }
}

/// Lower-case hexadecimal, zero-padded to width 2 (one byte).
pub open spec fn hex2(n: nat) -> Seq<char> {
    pad_left(hex_nat(n), '0', 2)
}

/// Lower-case hexadecimal, zero-padded to width 4 (a 16-bit priority).
pub open spec fn hex4(n: nat) -> Seq<char> {
    pad_left(hex_nat(n), '0', 4)
}

// ---------------------------------------------------------------------------
// Compound images
// ---------------------------------------------------------------------------

/// Hardware address image: each byte as two lower-case hex digits, bytes
/// separated by colons. The empty byte string has an empty image.
pub open spec fn mac_text(bytes: Seq<u8>) -> Seq<char>
    decreases bytes.len(),
{
    if bytes.len() == 0 {
        Seq::<char>::empty()
    } else if bytes.len() == 1 {
        hex2(bytes[0] as nat)
    } else {
        mac_text(bytes.drop_last()) + ":"@ + hex2(bytes.last() as nat)
    }
}

/// Bridge identifier image: the 16-bit priority as four hex digits, a dot,
/// then the six address bytes in minimal hex (no per-byte zero padding),
/// colon-separated.
pub open spec fn bridge_id_text(priority: u16, address: Seq<u8>) -> Seq<char>
    recommends
        address.len() == 6,
{
    hex4(priority as nat) + "."@ + hex_nat(address[0] as nat) + ":"@ + hex_nat(address[1] as nat)
        + ":"@ + hex_nat(address[2] as nat) + ":"@ + hex_nat(address[3] as nat) + ":"@ + hex_nat(
        address[4] as nat,
    ) + ":"@ + hex_nat(address[5] as nat)
}

/// Timer image: the centisecond count rendered as seconds with exactly two
/// decimal places, right-justified in a field of (at least) seven characters.
pub open spec fn timer_text(v: u64) -> Seq<char> {
    pad_left(
        dec_nat((v / 100) as nat) + "."@ + pad_left(dec_nat((v % 100) as nat), '0', 2),
        ' ',
        7,
    )
}

/// Boolean image used by the text renderer: `on` / `off`.
pub open spec fn on_off_text(v: bool) -> Seq<char> {
    if v {
        "on"@
    } else {
        "off"@
    }
}

/// Forwarding-mask image: a zero mask renders as the decimal literal `0`,
/// any other value as `0x` followed by minimal lower-case hex.
pub open spec fn fwd_mask_text(v: u16) -> Seq<char> {
    if v == 0 {
        "0"@
    } else {
        "0x"@ + hex_nat(v as nat)
    }
}

/// `0x`-prefixed minimal lower-case hexadecimal.
pub open spec fn hex0x(n: nat) -> Seq<char> {
    "0x"@ + hex_nat(n)
}

/// The elements joined by commas, no trailing separator.
pub open spec fn join_comma(elems: Seq<Seq<char>>) -> Seq<char>
    decreases elems.len(),
{
    if elems.len() == 0 {
        Seq::<char>::empty()
    } else if elems.len() == 1 {
        elems[0]
    } else {
        join_comma(elems.drop_last()) + ","@ + elems.last()
    }
}

/// A token list holding `t` when `cond` holds and nothing otherwise.
pub open spec fn maybe_tok(cond: bool, t: Seq<char>) -> Seq<Seq<char>> {
    if cond {
        seq![t]
    } else {
        Seq::<Seq<char>>::empty()
    }
}

// ---------------------------------------------------------------------------
// Executable renderers
// ---------------------------------------------------------------------------

/// Relies on `String::push`: appends exactly the given character.
#[verifier::external_body]
pub fn push_char(out: &mut String, c: char)
    ensures
        final(out)@ == old(out)@ + seq![c],
{
    out.push(c);
}

fn dec_digit_char(d: u64) -> (c: char)
    requires
        d < 10,
    ensures
        c == dec_digit(d as nat),
{
    if d == 0 {
        '0'
    } else if d == 1 {
        '1'
    } else if d == 2 {
        '2'
    } else if d == 3 {
        '3'
    } else if d == 4 {
        '4'
    } else if d == 5 {
        '5'
    } else if d == 6 {
        '6'
    } else if d == 7 {
        '7'
    } else if d == 8 {
        '8'
    } else {
        '9'
    }
}

fn hex_digit_char(d: u64) -> (c: char)
    requires
        d < 16,
    ensures
        c == hex_digit(d as nat),
{
    if d < 10 {
        dec_digit_char(d)
    } else if d == 10 {
        'a'
    } else if d == 11 {
        'b'
    } else if d == 12 {
        'c'
    } else if d == 13 {
        'd'
    } else if d == 14 {
        'e'
    } else {
        'f'
    }
}

/// Appends the decimal image of `v`.
pub fn push_dec_u64(out: &mut String, v: u64)
    ensures
        final(out)@ == old(out)@ + dec_nat(v as nat),
    decreases v,
{
    if v < 10 {
        let c = dec_digit_char(v);
        push_char(out, c);
    } else {
        push_dec_u64(out, v / 10);
        let c = dec_digit_char(v % 10);
        push_char(out, c);
        assert(final(out)@ =~= old(out)@ + dec_nat(v as nat));
    }
}

/// Appends the minimal lower-case hexadecimal image of `v`.
pub fn push_hex_u64(out: &mut String, v: u64)
    ensures
        final(out)@ == old(out)@ + hex_nat(v as nat),
    decreases v,
{
    if v < 16 {
        let c = hex_digit_char(v);
        push_char(out, c);
    } else {
        push_hex_u64(out, v / 16);
        let c = hex_digit_char(v % 16);
        push_char(out, c);
        assert(final(out)@ =~= old(out)@ + hex_nat(v as nat));
    }
}

/// Appends the decimal image of a signed value.
pub fn push_dec_i32(out: &mut String, v: i32)
    ensures
        final(out)@ == old(out)@ + dec_int(v as int),
{
    if v < 0 {
        out.append("-");
        let m: i64 = -(v as i64);
        push_dec_u64(out, m as u64);
        assert(final(out)@ =~= old(out)@ + dec_int(v as int));
    } else {
        push_dec_u64(out, v as u64);
    }
}

/// Appends `n` copies of `c`.
pub fn push_repeat(out: &mut String, c: char, n: usize)
    ensures
        final(out)@ == old(out)@ + repeat_char(c, n as nat),
{
    let mut i: usize = 0;
    while i < n
        invariant
            i <= n,
            out@ == old(out)@ + repeat_char(c, i as nat),
        decreases n - i,
    {
        push_char(out, c);
        i = i + 1;
        assert(out@ =~= old(out)@ + repeat_char(c, i as nat));
    }
}

/// Appends the hexadecimal image of `v` zero-padded on the left to `w`
/// characters.
pub fn push_hex_pad(out: &mut String, v: u64, w: usize)
    ensures
        final(out)@ == old(out)@ + pad_left(hex_nat(v as nat), '0', w as nat),
{
    let mut body = String::new();
    push_hex_u64(&mut body, v);
    assert(body@ =~= hex_nat(v as nat));
    let n: usize = body.as_str().unicode_len();
    if n < w {
        push_repeat(out, '0', w - n);
    }
    out.append(body.as_str());
    assert(final(out)@ =~= old(out)@ + pad_left(hex_nat(v as nat), '0', w as nat));
}

/// The decimal image of `v` as a `String`.
pub fn dec_u64_string(v: u64) -> (r: String)
    ensures
        r@ == dec_nat(v as nat),
{
    let mut out = String::new();
    push_dec_u64(&mut out, v);
    assert(out@ =~= dec_nat(v as nat));
    out
}

/// Appends the timer image of `v` centiseconds (see [`timer_text`]).
pub fn push_timer(out: &mut String, v: u64)
    ensures
        final(out)@ == old(out)@ + timer_text(v),
{
    let mut body = String::new();
    push_dec_u64(&mut body, v / 100);
    body.append(".");
    let f: u64 = v % 100;
    if f < 10 {
        body.append("0");
        assert(dec_nat(f as nat).len() == 1);
        proof {
            reveal_strlit("0");
            assert(repeat_char('0', 0) =~= Seq::<char>::empty());
            assert(repeat_char('0', 1) =~= "0"@);
        }
        assert(pad_left(dec_nat(f as nat), '0', 2) =~= "0"@ + dec_nat(f as nat));
    } else {
        assert(dec_nat((f / 10) as nat).len() == 1);
        assert(dec_nat(f as nat).len() == 2);
    }
    push_dec_u64(&mut body, f);
    assert(body@ =~= dec_nat((v / 100) as nat) + "."@ + pad_left(dec_nat((v % 100) as nat), '0', 2));
    let n: usize = body.as_str().unicode_len();
    if n < 7 {
        push_repeat(out, ' ', 7 - n);
    }
    out.append(body.as_str());
    assert(final(out)@ =~= old(out)@ + timer_text(v));
}

/// The timer image of `v` centiseconds: fixed two decimal places, at least
/// seven characters wide.
pub fn format_bridge_timer(v: u64) -> (r: String)
    ensures
        r@ == timer_text(v),
{
    let mut out = String::new();
    push_timer(&mut out, v);
    assert(out@ =~= timer_text(v));
    out
}

/// Appends the hardware-address image of `bytes` (see [`mac_text`]).
pub fn push_mac(out: &mut String, bytes: &[u8])
    ensures
        final(out)@ == old(out)@ + mac_text(bytes@),
{
    let n: usize = bytes.len();
    let mut i: usize = 0;
    while i < n
        invariant
            i <= n,
            n == bytes@.len(),
            out@ == old(out)@ + mac_text(bytes@.take(i as int)),
        decreases n - i,
    {
        if i > 0 {
            out.append(":");
        }
        push_hex_pad(out, bytes[i] as u64, 2);
        proof {
            let t = bytes@.take(i + 1 as int);
            assert(t.drop_last() =~= bytes@.take(i as int));
            assert(t.last() == bytes@[i as int]);
        }
        i = i + 1;
        assert(out@ =~= old(out)@ + mac_text(bytes@.take(i as int)));
    }
    assert(bytes@.take(n as int) =~= bytes@);
}

/// The hardware-address image of `bytes` as a `String`.
pub fn mac_to_string(bytes: &[u8]) -> (r: String)
    ensures
        r@ == mac_text(bytes@),
{
    let mut out = String::new();
    push_mac(&mut out, bytes);
    assert(out@ =~= mac_text(bytes@));
    out
}

/// Appends the bridge-identifier image (see [`bridge_id_text`]).
#[verifier::rlimit(40)]
pub fn push_bridge_id(out: &mut String, priority: u16, address: &[u8; 6])
    ensures
        final(out)@ == old(out)@ + bridge_id_text(priority, address@),
{
    push_hex_pad(out, priority as u64, 4);
    out.append(".");
    push_hex_u64(out, address[0] as u64);
    out.append(":");
    push_hex_u64(out, address[1] as u64);
    out.append(":");
    push_hex_u64(out, address[2] as u64);
    out.append(":");
    push_hex_u64(out, address[3] as u64);
    out.append(":");
    push_hex_u64(out, address[4] as u64);
    out.append(":");
    push_hex_u64(out, address[5] as u64);
    assert(final(out)@ =~= old(out)@ + bridge_id_text(priority, address@));
}

/// The bridge-identifier image: four-hex-digit priority, then the six
/// address bytes in minimal hex, colon-separated.
pub fn format_bridge_id(priority: u16, mac_bytes: [u8; 6]) -> (r: String)
    ensures
        r@ == bridge_id_text(priority, mac_bytes@),
{
    let mut out = String::new();
    push_bridge_id(&mut out, priority, &mac_bytes);
    assert(out@ =~= bridge_id_text(priority, mac_bytes@));
    out
}

/// Appends `on` or `off`.
pub fn push_on_off(out: &mut String, v: bool)
    ensures
        final(out)@ == old(out)@ + on_off_text(v),
{
    if v {
        out.append("on");
    } else {
        out.append("off");
    }
}

/// Appends the forwarding-mask image: `0` for zero, `0x…` otherwise.
pub fn push_fwd_mask(out: &mut String, v: u16)
    ensures
        final(out)@ == old(out)@ + fwd_mask_text(v),
{
    if v == 0 {
        out.append("0");
    } else {
        out.append("0x");
        push_hex_u64(out, v as u64);
        assert(final(out)@ =~= old(out)@ + fwd_mask_text(v));
    }
}

/// Appends the elements of `elems` joined by commas.
pub fn push_join_comma(out: &mut String, elems: &Vec<String>)
    ensures
        final(out)@ == old(out)@ + join_comma(elems.deep_view()),
{
    let n: usize = elems.len();
    let mut i: usize = 0;
    while i < n
        invariant
            i <= n,
            n == elems@.len(),
            n == elems.deep_view().len(),
            out@ == old(out)@ + join_comma(elems.deep_view().take(i as int)),
        decreases n - i,
    {
        if i > 0 {
            out.append(",");
        }
        out.append(elems[i].as_str());
        proof {
            let dv = elems.deep_view();
            let t = dv.take(i + 1 as int);
            assert(t.drop_last() =~= dv.take(i as int));
            assert(dv[i as int] == elems@[i as int]@);
            assert(t.last() == elems@[i as int]@);
        }
        i = i + 1;
        assert(out@ =~= old(out)@ + join_comma(elems.deep_view().take(i as int)));
    }
    assert(elems.deep_view().take(n as int) =~= elems.deep_view());
}

/// Appends one token to a token list.
pub fn push_token(v: &mut Vec<String>, s: &str)
    ensures
        final(v).deep_view() == old(v).deep_view().push(s@),
{
    let t = String::from_str(s);
    v.push(t);
    assert(final(v).deep_view() =~= old(v).deep_view().push(s@));
}

/// Appends one token when `cond` holds.
pub fn push_maybe_token(v: &mut Vec<String>, cond: bool, s: &str)
    ensures
        final(v).deep_view() == old(v).deep_view() + maybe_tok(cond, s@),
{
    if cond {
        push_token(v, s);
    }
    assert(final(v).deep_view() =~= old(v).deep_view() + maybe_tok(cond, s@));
}

/// Appends `0x` followed by the minimal hex image of `v`.
pub fn push_hex0x(out: &mut String, v: u64)
    ensures
        final(out)@ == old(out)@ + hex0x(v as nat),
{
    out.append("0x");
    push_hex_u64(out, v);
    assert(final(out)@ =~= old(out)@ + hex0x(v as nat));
}


/// True when `p` occurs as a contiguous run inside `t`.
pub open spec fn text_contains(t: Seq<char>, p: Seq<char>) -> bool {
    exists|k: int| 0 <= k && k + p.len() <= t.len() && #[trigger] t.subrange(k, k + p.len() as int) == p
}

/// A run placed between two others is contained in the whole.
pub proof fn lemma_concat_contains(pre: Seq<char>, mid: Seq<char>, suf: Seq<char>)
    ensures
        text_contains(pre + mid + suf, mid),
{
    let t = pre + mid + suf;
    assert(t.subrange(pre.len() as int, (pre.len() + mid.len()) as int) =~= mid);
    assert(0 <= pre.len() as int && (pre.len() + mid.len()) as int <= t.len());
}


/// Concatenation is associative.
pub proof fn lemma_assoc3(a: Seq<char>, b: Seq<char>, c: Seq<char>)
    ensures
        a + b + c == a + (b + c),
{
    assert(a + b + c =~= a + (b + c));
}

} // verus!


