//! The typed failure value surfaced to callers when a wire payload is
//! malformed. Recoverable conditions (unknown attribute kinds, unresolved
//! references) never produce one.

use vstd::prelude::*;

verus! {

/// A fatal decode failure: carries a process exit code and a message.
#[derive(Debug)]
pub struct CliError {
    pub code: i32,
    pub msg: String,
}

impl CliError {
    /// A failure with the given message and exit code 1.
    pub fn new(msg: String) -> (r: CliError)
        ensures
            r.code == 1,
            r.msg@ == msg@,
    {
        CliError { code: 1, msg }
    }

    /// The message carried by this failure.
    pub fn message(&self) -> (r: &str)
        ensures
            r@ == self.msg@,
    {
        self.msg.as_str()
    }
}

} // verus!
