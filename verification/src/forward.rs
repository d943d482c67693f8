//! Capabilities of the value, offered by the box unchanged.
//!
//! Each one hands the value in the box to the value's own implementation.
//! Equality and order live beside their laws, where the box compares.

use crate::boxed::Box;
use core::fmt::{Debug, Display, Formatter};
use core::hash::{Hash, Hasher};
use vstd::prelude::*;

verus! {

/// `core::fmt::Formatter`, a sink for text of which nothing is known here.
#[verifier::external_type_specification]
#[verifier::external_body]
pub struct ExFormatter<'a>(Formatter<'a>);

/// `core::fmt::Error`, which says only that writing to a sink failed.
#[verifier::external_type_specification]
#[verifier::external_body]
pub struct ExFmtError(core::fmt::Error);

/// Calls `Hash::hash` of `T` on `x`.
///
/// Trusted, and nothing is claimed: what reaches `state` is up to `T`.
#[verifier::external_body]
fn hash_value<T: Hash, H: Hasher>(x: &T, state: &mut H) {
    x.hash(state)
}

/// Calls `Debug::fmt` of `T` on `x`.
///
/// Trusted, and nothing is claimed: what reaches `f` is up to `T`.
#[verifier::external_body]
fn debug_value<T: Debug>(x: &T, f: &mut Formatter<'_>) -> (r: core::fmt::Result) {
    x.fmt(f)
}

/// Calls `Display::fmt` of `T` on `x`.
///
/// Trusted, and nothing is claimed: what reaches `f` is up to `T`.
#[verifier::external_body]
fn display_value<T: Display>(x: &T, f: &mut Formatter<'_>) -> (r: core::fmt::Result) {
    x.fmt(f)
}

impl<T: Hash> Hash for Box<T> {
    /// Feeds the value in the box to `state`, as the value itself would.
    fn hash<H: Hasher>(&self, state: &mut H) {
        hash_value(self.as_ref(), state)
    }
}

impl<T: Debug> Debug for Box<T> {
    /// Formats the value in the box, as the value itself would.
    fn fmt(&self, f: &mut Formatter<'_>) -> (r: core::fmt::Result) {
        debug_value(self.as_ref(), f)
    }
}

impl<T: Display> Display for Box<T> {
    /// Formats the value in the box, as the value itself would.
    fn fmt(&self, f: &mut Formatter<'_>) -> (r: core::fmt::Result) {
        display_value(self.as_ref(), f)
    }
}

} // verus!
