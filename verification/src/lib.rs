//! A heap box whose construction reports allocation failure as an error
//! value instead of ending the process.
//!
//! A [`Box`] owns exactly one heap slot holding exactly one value. Every
//! operation is described over the box's view, which is the value it holds.

pub mod alloc_err;
pub mod boxed;
pub mod compare;
pub mod erased;
pub mod forward;
pub mod handle;
pub mod laws;
pub mod layout;

pub use alloc_err::AllocErr;
pub use boxed::{alloc_memory, granted, Box, Slot};
pub use erased::AnyBox;
pub use handle::RawHandle;
pub use layout::{layout_of, layout_of_val, Layout};
