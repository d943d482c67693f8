//! What is left of a box once it has given up its duty to release.

use core::mem::ManuallyDrop;
use vstd::prelude::*;

verus! {

/// The slot and value of a former box, without the duty to tear down the
/// value or to release the slot.
///
/// A handle that goes out of scope leaves value and memory where they are.
/// It cannot be copied, so at most one box is ever rebuilt from it.
pub struct RawHandle<T> {
    cell: ManuallyDrop<Vec<T>>,
}

impl<T> View for RawHandle<T> {
    type V = T;

    closed spec fn view(&self) -> T {
        self.cell@@[0]
    }
}

impl<T> RawHandle<T> {
    #[verifier::type_invariant]
    spec fn well_formed(self) -> bool {
        self.cell@@.len() == 1
    }

    /// Takes over the storage of a box.
    pub(crate) fn from_cell(cell: Vec<T>) -> (h: Self)
        requires
            cell@.len() == 1,
        ensures
            h@ == cell@[0],
    {
        RawHandle { cell: ManuallyDrop::new(cell) }
    }

    /// Gives the storage back, to a box that will release it.
    pub(crate) fn into_cell(self) -> (cell: Vec<T>)
        ensures
            cell@.len() == 1,
            cell@[0] == self@,
    {
        proof {
            use_type_invariant(&self);
        }
        ManuallyDrop::into_inner(self.cell)
    }

    /// Shared access to the value that the handle refers to.
    pub fn as_ref(&self) -> (r: &T)
        ensures
            *r == self@,
    {
        proof {
            use_type_invariant(self);
        }
        let cell: &Vec<T> = &self.cell;
        &cell[0]
    }
}

} // verus!
