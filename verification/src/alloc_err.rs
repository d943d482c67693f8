//! The single error of this crate: the allocator had no memory to give.

use core::fmt::{Display, Formatter};
use vstd::prelude::*;

verus! {

/// Indicates a failure to allocate memory.
#[derive(Clone, Debug, PartialEq, Eq, Structural)]
pub struct AllocErr;

/// Calls `Formatter::write_str`.
///
/// Trusted, and nothing is claimed: whether the sink takes the text is up
/// to the sink.
#[verifier::external_body]
fn write_text(f: &mut Formatter<'_>, text: &str) -> (r: core::fmt::Result) {
    f.write_str(text)
}

impl AllocErr {
    /// The text shown to a human for this error.
    pub open spec fn spec_message() -> Seq<char> {
        "failed to allocate memory"@
    }

    /// The text shown to a human for this error.
    pub fn message(&self) -> (s: &'static str)
        ensures
            s@ == Self::spec_message(),
    {
        "failed to allocate memory"
    }
}

impl Display for AllocErr {
    /// Writes [`AllocErr::message`] to `f`.
    fn fmt(&self, f: &mut Formatter<'_>) -> (r: core::fmt::Result) {
        write_text(f, self.message())
    }
}

impl std::error::Error for AllocErr {

}

} // verus!
