//! Size and alignment of the memory that a value occupies.

use vstd::layout::{
    align_of, layout_for_type_is_valid, size_of, spec_align_of_val, spec_size_of_val,
    valid_layout,
};
use vstd::prelude::*;

verus! {

/// The size and alignment, in bytes, of a block of memory.
///
/// Every `Layout` is one that an allocator may be asked for: the alignment
/// is a power of two, and the size, rounded up to a multiple of the
/// alignment, does not exceed `isize::MAX`.
#[derive(Clone, Copy, Debug)]
pub struct Layout {
    size: usize,
    align: usize,
}

/// Calls `core::alloc::Layout::from_size_align` and hands back the size and
/// alignment of the layout it built.
///
/// Trusted: that function accepts a pair exactly when the alignment is a
/// power of two and the size, rounded up to the alignment, fits in `isize`,
/// and the layout it returns carries the pair it was given.
#[verifier::external_body]
fn checked_parts(size: usize, align: usize) -> (r: Option<(usize, usize)>)
    ensures
        r == (if valid_layout(size, align) {
            Some((size, align))
        } else {
            None
        }),
{
    match core::alloc::Layout::from_size_align(size, align) {
        Ok(l) => Some((l.size(), l.align())),
        Err(_) => None,
    }
}

impl Layout {
    #[verifier::type_invariant]
    spec fn well_formed(self) -> bool {
        valid_layout(self.size, self.align)
    }

    /// The number of bytes in the block.
    pub closed spec fn spec_size(self) -> usize {
        self.size
    }

    /// The alignment of the block's first byte.
    pub closed spec fn spec_align(self) -> usize {
        self.align
    }

    /// Whether this is the size and alignment of every value of type `T`.
    pub open spec fn is_layout_of<T>(self) -> bool {
        &&& self.spec_size() as nat == size_of::<T>()
        &&& self.spec_align() as nat == align_of::<T>()
    }

    /// Whether two layouts have the same size and the same alignment.
    pub fn same_as(&self, other: &Layout) -> (b: bool)
        ensures
            b == (self.spec_size() == other.spec_size() && self.spec_align()
                == other.spec_align()),
    {
        self.size == other.size && self.align == other.align
    }

    /// Builds a layout, or returns `None` where no allocator may be asked
    /// for such a block.
    pub fn from_size_align(size: usize, align: usize) -> (r: Option<Layout>)
        ensures
            r is Some <==> valid_layout(size, align),
            r matches Some(l) ==> l.spec_size() == size && l.spec_align() == align,
    {
        match checked_parts(size, align) {
            Some((size, align)) => Some(Layout { size, align }),
            None => None,
        }
    }

    /// The number of bytes in the block.
    pub fn size(&self) -> (n: usize)
        ensures
            n == self.spec_size(),
    {
        self.size
    }

    /// The alignment of the block's first byte.
    pub fn align(&self) -> (n: usize)
        ensures
            n == self.spec_align(),
            valid_layout(self.spec_size(), n),
    {
        proof {
            use_type_invariant(self);
        }
        self.align
    }

    /// Whether the block holds no bytes, so that no allocator is involved
    /// in providing or releasing it.
    pub fn is_zero_sized(&self) -> (b: bool)
        ensures
            b == (self.spec_size() == 0),
    {
        self.size == 0
    }
}

/// The layout of every value of type `T`.
pub fn layout_of<T>() -> (l: Layout)
    ensures
        l.is_layout_of::<T>(),
{
    layout_for_type_is_valid::<T>();
    match Layout::from_size_align(core::mem::size_of::<T>(), core::mem::align_of::<T>()) {
        Some(l) => l,
        None => unreached(),
    }
}

/// The layout of the value behind `x`, or `None` where its size and
/// alignment do not form a layout.
pub fn layout_of_val<T: ?Sized>(x: &T) -> (r: Option<Layout>)
    ensures
        r is Some <==> valid_layout(
            spec_size_of_val::<T>(x) as usize,
            spec_align_of_val::<T>(x) as usize,
        ),
        r matches Some(l) ==> l.spec_size() as nat == spec_size_of_val::<T>(x)
            && l.spec_align() as nat == spec_align_of_val::<T>(x),
{
    Layout::from_size_align(core::mem::size_of_val(x), core::mem::align_of_val(x))
}

} // verus!
