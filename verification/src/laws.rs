//! What holds of the box's operations taken together.
//!
//! Each law speaks of calls through their contracts: `call_ensures(f, args,
//! r)` says that `r` is a result that a call of `f` on `args` may give.

use crate::alloc_err::AllocErr;
use crate::boxed::Box;
use crate::erased::AnyBox;
use crate::handle::RawHandle;
use vstd::layout::{align_of, size_of};
use vstd::prelude::*;
use vstd::std_specs::cmp::PartialEqSpec;

verus! {

/// Reading a box that was just made gives back the value it was made from,
/// and where `T` can be compared, a value that compares equal to it.
pub proof fn lemma_new_then_read<T: PartialEq>(x: T, made: Result<Box<T>, AllocErr>, read: &T)
    requires
        call_ensures(Box::<T>::try_new, (x,), made),
        made matches Ok(b) && call_ensures(Box::<T>::as_ref, (&b,), read),
    ensures
        *read == x,
        x.eq_spec(&x) ==> x.eq_spec(read) && read.eq_spec(&x),
{
}

/// A clone of a box holds what `T::clone` made of the value in the box. So
/// where cloning a `T` gives back the same `T`, and that `T` equals itself,
/// the clone and the box it was made from compare equal, in both
/// directions.
pub proof fn lemma_clone_compares_equal<T: Clone + PartialEq>(
    a: Box<T>,
    made: Result<Box<T>, AllocErr>,
)
    requires
        call_ensures(Box::<T>::try_clone, (&a,), made),
        made is Ok,
    ensures
        cloned(a@, made->Ok_0@),
        made->Ok_0@ == a@ && a@.eq_spec(&a@) ==> a.eq_spec(&made->Ok_0) && made->Ok_0.eq_spec(&a),
{
}

/// A box that hands out its handle and is rebuilt from it holds the value
/// it held before.
pub proof fn lemma_handle_round_trip<T>(b: Box<T>, h: RawHandle<T>, rebuilt: Box<T>)
    requires
        call_ensures(Box::<T>::into_non_null, (b,), h),
        call_ensures(Box::<T>::from_non_null, (h,), rebuilt),
    ensures
        h@ == b@,
        rebuilt@ == b@,
{
}

/// A box that forgot the type of a `T` is not taken for a box of a `U`
/// whose values have another size or another alignment: asked for a `U`, it
/// comes back as it was.
pub proof fn lemma_downcast_needs_the_layout<T: 'static, U: 'static>(
    b: Box<T>,
    erased: AnyBox,
    asked: Result<Box<U>, AnyBox>,
)
    requires
        call_ensures(Box::<T>::erase, (b,), erased),
        call_ensures(AnyBox::downcast::<U>, (erased,), asked),
        size_of::<T>() != size_of::<U>() || align_of::<T>() != align_of::<U>(),
    ensures
        asked == Err::<Box<U>, AnyBox>(erased),
{
}

} // verus!
