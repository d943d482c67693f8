//! The box itself: one heap slot, one value, one owner.

use crate::alloc_err::AllocErr;
use crate::handle::RawHandle;
use crate::layout::layout_of;
use std::collections::TryReserveError;
use vstd::layout::size_of;
use vstd::prelude::*;

verus! {

/// Heap memory reserved for one `T` that holds no value yet.
///
/// A slot comes from [`alloc_memory`] alone, so whoever holds one knows that
/// the memory behind it has been granted.
pub struct Slot<T> {
    cell: Vec<T>,
}

/// A smart pointer type that safely manages heap memory.
///
/// The box owns its slot and the value in it. Its view is that value.
#[derive(Ord)]
pub struct Box<T> {
    cell: Vec<T>,
}

/// Calls `Vec::try_reserve_exact` for one more element.
///
/// Trusted: the call leaves the elements of the vector as they were. Whether
/// it succeeds is up to the allocator, so nothing is said of the result.
#[verifier::external_body]
fn reserve_one<T>(cell: &mut Vec<T>) -> (r: Result<(), TryReserveError>)
    ensures
        final(cell)@ == old(cell)@,
{
    cell.try_reserve_exact(1)
}

impl<T> Slot<T> {
    #[verifier::type_invariant]
    spec fn well_formed(self) -> bool {
        self.cell@.len() == 0
    }
}

/// Calls `Vec::leak`.
///
/// Trusted: the slice handed back holds the elements of the vector, in
/// order, and the vector's memory is never released.
#[verifier::external_body]
fn leak_cell<'a, T>(cell: Vec<T>) -> (r: &'a mut [T])
    ensures
        r@ == cell@,
{
    cell.leak()
}

/// Reads the answer to a request for memory: the memory was granted, or
/// the request failed, for whichever reason the answer gives.
pub fn granted(reply: Result<(), TryReserveError>) -> (r: Result<(), AllocErr>)
    ensures
        r is Ok <==> reply is Ok,
{
    match reply {
        Ok(()) => Ok(()),
        Err(_) => Err(AllocErr),
    }
}

/// Asks the allocator for memory to hold one `T`.
///
/// A `T` that occupies no bytes needs no memory, so the allocator is not
/// asked and the request cannot fail. For any other `T` the allocator is
/// asked once, and [`granted`] reads its answer.
pub fn alloc_memory<T>() -> (r: Result<Slot<T>, AllocErr>)
    ensures
        size_of::<T>() == 0 ==> r is Ok,
{
    let mut cell: Vec<T> = Vec::new();
    if layout_of::<T>().is_zero_sized() {
        Ok(Slot { cell })
    } else {
        match granted(reserve_one(&mut cell)) {
            Ok(()) => Ok(Slot { cell }),
            Err(e) => Err(e),
        }
    }
}

impl<T> View for Box<T> {
    type V = T;

    closed spec fn view(&self) -> T {
        self.cell@[0]
    }
}

impl<T> Box<T> {
    #[verifier::type_invariant]
    spec fn well_formed(self) -> bool {
        self.cell@.len() == 1
    }

    /// Wraps storage that holds exactly one value.
    pub(crate) fn from_cell(cell: Vec<T>) -> (b: Self)
        requires
            cell@.len() == 1,
        ensures
            b@ == cell@[0],
    {
        Box { cell }
    }

    /// Unwraps the storage, which holds exactly one value.
    pub(crate) fn into_cell(self) -> (cell: Vec<T>)
        ensures
            cell@.len() == 1,
            cell@[0] == self@,
    {
        proof {
            use_type_invariant(&self);
        }
        self.cell
    }

    /// Tries to allocate memory on the heap, and moves `x` into it if successful.
    pub fn try_new(x: T) -> (r: Result<Self, AllocErr>)
        ensures
            r matches Ok(b) ==> b@ == x,
            size_of::<T>() == 0 ==> r is Ok,
    {
        Self::place(alloc_memory(), x)
    }

    /// Moves `x` into the memory that a request to the allocator gave, or
    /// passes on the error with which the request failed.
    pub fn place(reserved: Result<Slot<T>, AllocErr>, x: T) -> (r: Result<Self, AllocErr>)
        ensures
            reserved is Ok <==> r is Ok,
            r matches Ok(b) ==> b@ == x,
            reserved matches Err(e) ==> r == Err::<Self, AllocErr>(e),
    {
        match reserved {
            Ok(slot) => {
                proof {
                    use_type_invariant(&slot);
                }
                let mut cell = slot.cell;
                cell.push(x);
                Ok(Box { cell })
            },
            Err(e) => Err(e),
        }
    }

    /// Creates a box from what [`Box::into_non_null`] handed out.
    ///
    /// The box takes the duty to tear down the value and to release the
    /// slot back from the handle.
    pub fn from_non_null(pointer: RawHandle<T>) -> (b: Self)
        ensures
            b@ == pointer@,
    {
        Box { cell: pointer.into_cell() }
    }

    /// Consumes a box, returning the wrapped pointer without freeing the memory it refers to.
    ///
    /// The value is not torn down and the slot is not released, neither now
    /// nor when the handle goes out of scope. Passing the handle to
    /// [`Box::from_non_null`] and dropping the box that comes back does both.
    pub fn into_non_null(b: Self) -> (pointer: RawHandle<T>)
        ensures
            pointer@ == b@,
    {
        proof {
            use_type_invariant(&b);
        }
        RawHandle::from_cell(b.cell)
    }

    /// Consumes a box, leaking its contents.
    ///
    /// The value is never torn down and the slot is never released: the
    /// reference that comes back is good for as long as the caller likes.
    pub fn leak<'a>(b: Self) -> (r: &'a mut T)
        ensures
            *r == b@,
    {
        proof {
            use_type_invariant(&b);
        }
        let contents = leak_cell(b.cell);
        &mut contents[0]
    }

    /// Shared access to the value in the box.
    pub fn as_ref(&self) -> (r: &T)
        ensures
            *r == self@,
    {
        proof {
            use_type_invariant(self);
        }
        &self.cell[0]
    }

    /// Exclusive access to the value in the box. What the caller leaves
    /// behind the reference is what the box holds afterwards.
    pub fn as_mut(&mut self) -> (r: &mut T)
        ensures
            *r == old(self)@,
            final(self)@ == *final(r),
    {
        proof {
            use_type_invariant(&*self);
        }
        &mut self.cell[0]
    }
}

impl<T: Clone> Box<T> {
    /// Tries to clone a box.
    pub fn try_clone(&self) -> (r: Result<Self, AllocErr>)
        ensures
            r matches Ok(b) ==> cloned(self@, b@),
            size_of::<T>() == 0 ==> r is Ok,
    {
        Self::try_new(self.as_ref().clone())
    }

    /// Performs copy assignment into one box from another, without allocating.
    pub fn clone_from(&mut self, other: &Self)
        ensures
            cloned(other@, final(self)@),
    {
        let c = other.as_ref().clone();
        *self.as_mut() = c;
    }
}

impl<T: Default> Box<T> {
    /// Tries to default-construct a boxed instance of a particular type.
    pub fn try_default() -> (r: Result<Self, AllocErr>)
        ensures
            r matches Ok(b) ==> call_ensures(T::default, (), b@),
            size_of::<T>() == 0 ==> r is Ok,
    {
        Self::try_new(T::default())
    }
}

impl<T> core::ops::Deref for Box<T> {
    type Target = T;

    fn deref(&self) -> (r: &T)
        ensures
            *r == self@,
    {
        self.as_ref()
    }
}

impl<T> core::ops::DerefMut for Box<T> {
    fn deref_mut(&mut self) -> (r: &mut T)
        ensures
            *r == old(self)@,
            final(self)@ == *final(r),
    {
        self.as_mut()
    }
}

} // verus!
