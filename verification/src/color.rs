//! ANSI color highlighting for the compatibility text form. Rendering takes
//! an explicit flag; when it is off, a highlighted span is exactly its body.

use vstd::prelude::*;
use vstd::string::StringExecFns;

verus! {

/// The highlight classes used by the text renderer.
pub enum CliColor {
    /// Interface names: cyan.
    IfaceName,
    /// Operational state `UP`: green.
    StateUp,
    /// Operational state `DOWN`: red.
    StateDown,
    /// Hardware addresses: yellow.
    Mac,
}

/// The escape sequence that starts a highlight of the given class.
pub open spec fn color_start(c: CliColor) -> Seq<char> {
    match c {
        CliColor::IfaceName => "\u{1b}[36m"@,
        CliColor::StateUp => "\u{1b}[32m"@,
        CliColor::StateDown => "\u{1b}[31m"@,
        CliColor::Mac => "\u{1b}[33m"@,
    }
}

/// A span of text, highlighted when `enabled` holds and bare otherwise.
pub open spec fn colored(enabled: bool, c: CliColor, body: Seq<char>) -> Seq<char> {
    if enabled {
        color_start(c) + body + "\u{1b}[0m"@
    } else {
        body
    }
}

/// The escape sequence starting a highlight of class `c`.
pub fn color_start_str(c: &CliColor) -> (r: &'static str)
    ensures
        r@ == color_start(*c),
{
    match c {
        CliColor::IfaceName => "\u{1b}[36m",
        CliColor::StateUp => "\u{1b}[32m",
        CliColor::StateDown => "\u{1b}[31m",
        CliColor::Mac => "\u{1b}[33m",
    }
}

/// Appends `body` to `out`, wrapped in the highlight of class `c` when
/// `enabled` holds.
pub fn push_colored(out: &mut String, enabled: bool, c: CliColor, body: &str)
    ensures
        final(out)@ == old(out)@ + colored(enabled, c, body@),
{
    if enabled {
        let start = color_start_str(&c);
        out.append(start);
        out.append(body);
        out.append("\u{1b}[0m");
        assert(final(out)@ =~= old(out)@ + colored(enabled, c, body@));
    } else {
        out.append(body);
    }
}

} // verus!
