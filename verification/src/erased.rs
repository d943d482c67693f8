//! A box that has forgotten the type of its value, and how to ask it back.

use crate::boxed::Box;
use crate::layout::{layout_of, Layout};
use core::any::Any;
use vstd::prelude::*;

verus! {

/// A heap value of a type that this struct does not name.
///
/// Trusted: it holds a `Box<dyn Any>`, which Verus cannot read, so to
/// contracts a cell is an opaque token. All they say of one is whether it
/// is the one that was handed in.
#[verifier::external_body]
struct ErasedCell {
    inner: std::boxed::Box<dyn Any>,
}

/// A box whose value is known only as "some value of some type".
///
/// The type of the value is recorded at run time beside it, and so is the
/// layout of the value, which is all of the type that contracts can speak
/// of. [`AnyBox::downcast`] compares both records with the type asked for.
pub struct AnyBox {
    cell: ErasedCell,
    layout: Layout,
}

/// Calls `Vec::into_boxed_slice`.
///
/// Trusted: the boxed slice holds the elements of the vector, in order.
#[verifier::external_body]
fn into_boxed<T>(cell: Vec<T>) -> (r: std::boxed::Box<[T]>)
    ensures
        r@ == cell@,
{
    cell.into_boxed_slice()
}

/// Calls `TryFrom<Box<[T]>>` for a boxed array of one element, and forgets
/// the type of the array it got.
///
/// Trusted: the conversion succeeds exactly on a slice of one element, and
/// a slice that it refuses comes back as it was.
#[verifier::external_body]
fn seal<T: 'static>(cell: std::boxed::Box<[T]>) -> (r: Result<ErasedCell, std::boxed::Box<[T]>>)
    ensures
        r is Ok <==> cell@.len() == 1,
        r matches Err(c) ==> c == cell,
{
    match std::boxed::Box::<[T; 1]>::try_from(cell) {
        Ok(one) => Ok(ErasedCell { inner: one }),
        Err(c) => Err(c),
    }
}

/// Calls `Box<dyn Any>::downcast` for a boxed array of one `T`.
///
/// Trusted: what comes back on success is a slice of one element, and a box
/// that holds something else comes back as it was. Which of the two happens
/// depends on the type recorded in the box, of which contracts know nothing.
#[verifier::external_body]
fn unseal<T: 'static>(cell: ErasedCell) -> (r: Result<std::boxed::Box<[T]>, ErasedCell>)
    ensures
        r matches Ok(c) ==> c@.len() == 1,
        r matches Err(e) ==> e == cell,
{
    match cell.inner.downcast::<[T; 1]>() {
        Ok(one) => Ok(one),
        Err(c) => Err(ErasedCell { inner: c }),
    }
}

impl<T: 'static> Box<T> {
    /// Forgets the type of the value in the box.
    ///
    /// The slot and the value stay where they are. What is kept of the type
    /// for contracts to see is the layout of its values.
    pub fn erase(b: Self) -> (r: AnyBox)
        ensures
            r.spec_layout().is_layout_of::<T>(),
    {
        match seal(into_boxed(b.into_cell())) {
            Ok(cell) => AnyBox { cell, layout: layout_of::<T>() },
            Err(_) => unreached(),
        }
    }
}

impl AnyBox {
    /// The layout of the value in the box.
    pub closed spec fn spec_layout(&self) -> Layout {
        self.layout
    }

    /// The layout of the value in the box.
    pub fn layout(&self) -> (l: Layout)
        ensures
            l == self.spec_layout(),
    {
        self.layout
    }

    /// Tries to downcast a box into a discrete type without allocating,
    /// returning the box as it was on failure.
    ///
    /// A box whose value has another layout than that of `T` holds no `T`
    /// and is returned at once. On success the box that comes back owns the
    /// slot and the value that `self` owned.
    pub fn downcast<T: 'static>(self) -> (r: Result<Box<T>, AnyBox>)
        ensures
            r is Ok ==> self.spec_layout().is_layout_of::<T>(),
            r matches Err(b) ==> b == self,
    {
        let layout = self.layout;
        if !layout.same_as(&layout_of::<T>()) {
            return Err(self);
        }
        match unseal::<T>(self.cell) {
            Ok(one) => Ok(Box::from_cell(one.into_vec())),
            Err(cell) => Err(AnyBox { cell, layout }),
        }
    }
}

} // verus!
