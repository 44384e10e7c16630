//! Verified helpers for the structured renderer: JSON string escaping and
//! string arrays. Object layout is produced field by field in the record
//! modules.

use vstd::prelude::*;
use vstd::string::StrSliceExecFns;
use vstd::string::StringExecFns;

use crate::textfmt::hex2;
use crate::textfmt::push_char;
use crate::textfmt::push_hex_pad;

verus! {

/// The escaped image of one character inside a JSON string literal.
pub open spec fn esc_char(c: char) -> Seq<char> {
    if c == '"' {
        "\\\""@
    } else if c == '\\' {
        "\\\\"@
    } else if c == '\n' {
        "\\n"@
    } else if c == '\r' {
        "\\r"@
    } else if c == '\t' {
        "\\t"@
    } else if c == '\u{8}' {
        "\\b"@
    } else if c == '\u{c}' {
        "\\f"@
    } else if (c as u32) < 0x20 {
        "\\u00"@ + hex2((c as u32) as nat)
    } else {
        seq![c]
    }
}

/// The body of a JSON string literal: every character escaped.
pub open spec fn json_escape(s: Seq<char>) -> Seq<char>
    decreases s.len(),
{
    if s.len() == 0 {
        Seq::<char>::empty()
    } else {
        json_escape(s.drop_last()) + esc_char(s.last())
    }
}

/// A complete JSON string literal for `s`, quotes included.
pub open spec fn json_str(s: Seq<char>) -> Seq<char> {
    "\""@ + json_escape(s) + "\""@
}

/// A JSON array of string literals, one per element.
pub open spec fn json_str_array(elems: Seq<Seq<char>>) -> Seq<char> {
    "["@ + json_str_array_body(elems) + "]"@
}

/// The comma-separated body of [`json_str_array`].
pub open spec fn json_str_array_body(elems: Seq<Seq<char>>) -> Seq<char>
    decreases elems.len(),
{
    if elems.len() == 0 {
        Seq::<char>::empty()
    } else if elems.len() == 1 {
        json_str(elems[0])
    } else {
        json_str_array_body(elems.drop_last()) + ","@ + json_str(elems.last())
    }
}

/// The JSON image of a boolean.
pub open spec fn json_bool(b: bool) -> Seq<char> {
    if b {
        "true"@
    } else {
        "false"@
    }
}

/// Appends `true` or `false`.
pub fn push_json_bool(out: &mut String, b: bool)
    ensures
        final(out)@ == old(out)@ + json_bool(b),
{
    if b {
        out.append("true");
    } else {
        out.append("false");
    }
}

/// Appends the escaped body of `s` (no quotes).
pub fn push_json_escaped(out: &mut String, s: &str)
    ensures
        final(out)@ == old(out)@ + json_escape(s@),
{
    let n: usize = s.unicode_len();
    let mut i: usize = 0;
    while i < n
        invariant
            i <= n,
            n == s@.len(),
            out@ == old(out)@ + json_escape(s@.take(i as int)),
        decreases n - i,
    {
        let c = s.get_char(i);
        if c == '"' {
            out.append("\\\"");
        } else if c == '\\' {
            out.append("\\\\");
        } else if c == '\n' {
            out.append("\\n");
        } else if c == '\r' {
            out.append("\\r");
        } else if c == '\t' {
            out.append("\\t");
        } else if c == '\u{8}' {
            out.append("\\b");
        } else if c == '\u{c}' {
            out.append("\\f");
        } else if (c as u32) < 0x20 {
            out.append("\\u00");
            push_hex_pad(out, (c as u32) as u64, 2);
        } else {
            push_char(out, c);
        }
        proof {
            let t = s@.take(i + 1 as int);
            assert(t.drop_last() =~= s@.take(i as int));
            assert(t.last() == s@[i as int]);
        }
        i = i + 1;
        assert(out@ =~= old(out)@ + json_escape(s@.take(i as int)));
    }
    assert(s@.take(n as int) =~= s@);
}

/// Appends a complete JSON string literal for `s`.
pub fn push_json_str(out: &mut String, s: &str)
    ensures
        final(out)@ == old(out)@ + json_str(s@),
{
    out.append("\"");
    push_json_escaped(out, s);
    out.append("\"");
    assert(final(out)@ =~= old(out)@ + json_str(s@));
}

/// Appends a JSON array of string literals.
pub fn push_json_str_array(out: &mut String, elems: &Vec<String>)
    ensures
        final(out)@ == old(out)@ + json_str_array(elems.deep_view()),
{
    out.append("[");
    let n: usize = elems.len();
    let mut i: usize = 0;
    while i < n
        invariant
            i <= n,
            n == elems@.len(),
            n == elems.deep_view().len(),
            out@ == old(out)@ + "["@ + json_str_array_body(elems.deep_view().take(i as int)),
        decreases n - i,
    {
        if i > 0 {
            out.append(",");
        }
        push_json_str(out, elems[i].as_str());
        proof {
            let dv = elems.deep_view();
            let t = dv.take(i + 1 as int);
            assert(t.drop_last() =~= dv.take(i as int));
            assert(dv[i as int] == elems@[i as int]@);
            assert(t.last() == elems@[i as int]@);
        }
        i = i + 1;
        assert(out@ =~= old(out)@ + "["@ + json_str_array_body(elems.deep_view().take(i as int)));
    }
    assert(elems.deep_view().take(n as int) =~= elems.deep_view());
    out.append("]");
    assert(final(out)@ =~= old(out)@ + json_str_array(elems.deep_view()));
}

} // verus!
