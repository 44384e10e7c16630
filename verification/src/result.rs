//! Output-format selection and the rendering entry points shared by the
//! record types.

use vstd::prelude::*;
use vstd::string::StringExecFns;

use crate::textfmt::dec_nat;
use crate::textfmt::push_dec_u64;

verus! {

/// The encodings a record can be rendered into.
#[derive(Copy, Clone, Default, Debug, PartialEq, Eq, Hash, PartialOrd, Ord)]
pub enum OutputFormat {
    #[default]
    Cli,
    Yaml,
    Json,
}

/// A value that can be rendered for the command-line output path.
pub trait CanOutput {
    /// The compatibility text form.
    fn to_cli_string(&self) -> String;
}

impl CanOutput for String {
    fn to_cli_string(&self) -> (r: String)
        ensures
            r@ == self@,
    {
        self.clone()
    }
}

/// The interface-group name: group zero is the default group, any other
/// group renders as its decimal number.
pub open spec fn group_name_text(id: u32) -> Seq<char> {
    if id == 0 {
        "default"@
    } else {
        dec_nat(id as nat)
    }
}

/// Resolves a numeric interface-group id to its display name.
pub fn resolve_ip_link_group_name(id: u32) -> (r: String)
    ensures
        r@ == group_name_text(id),
{
    if id == 0 {
        String::from_str("default")
    } else {
        let mut s = String::new();
        push_dec_u64(&mut s, id as u64);
        assert(s@ =~= group_name_text(id));
        s
    }
}

} // verus!
