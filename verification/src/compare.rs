//! Equality and order of boxes: those of the values they hold.

use crate::boxed::Box;
use core::cmp::Ordering;
use vstd::prelude::*;
use vstd::std_specs::cmp::{PartialEqIs, PartialEqSpec, PartialOrdIs, PartialOrdSpec};

verus! {

impl<T: PartialEq> vstd::std_specs::cmp::PartialEqSpecImpl for Box<T> {
    open spec fn obeys_eq_spec() -> bool {
        T::obeys_eq_spec()
    }

    open spec fn eq_spec(&self, other: &Self) -> bool {
        self@.eq_spec(&other@)
    }
}

impl<T: PartialEq> PartialEq for Box<T> {
    fn eq(&self, other: &Self) -> (r: bool)
        ensures
            call_ensures(T::eq, (&self@, &other@), r),
    {
        self.as_ref().eq(other.as_ref())
    }

    fn ne(&self, other: &Self) -> (r: bool)
        ensures
            call_ensures(T::ne, (&self@, &other@), r),
    {
        self.as_ref().ne(other.as_ref())
    }
}

impl<T: Eq> Eq for Box<T> {

}

impl<T: PartialOrd> vstd::std_specs::cmp::PartialOrdSpecImpl for Box<T> {
    open spec fn obeys_partial_cmp_spec() -> bool {
        T::obeys_partial_cmp_spec()
    }

    open spec fn partial_cmp_spec(&self, other: &Self) -> Option<Ordering> {
        self@.partial_cmp_spec(&other@)
    }
}

impl<T: PartialOrd> PartialOrd for Box<T> {
    fn partial_cmp(&self, other: &Self) -> (r: Option<Ordering>)
        ensures
            call_ensures(T::partial_cmp, (&self@, &other@), r),
    {
        self.as_ref().partial_cmp(other.as_ref())
    }

    fn lt(&self, other: &Self) -> (r: bool)
        ensures
            call_ensures(T::lt, (&self@, &other@), r),
    {
        self.as_ref().lt(other.as_ref())
    }

    fn le(&self, other: &Self) -> (r: bool)
        ensures
            call_ensures(T::le, (&self@, &other@), r),
    {
        self.as_ref().le(other.as_ref())
    }

    fn gt(&self, other: &Self) -> (r: bool)
        ensures
            call_ensures(T::gt, (&self@, &other@), r),
    {
        self.as_ref().gt(other.as_ref())
    }

    fn ge(&self, other: &Self) -> (r: bool)
        ensures
            call_ensures(T::ge, (&self@, &other@), r),
    {
        self.as_ref().ge(other.as_ref())
    }
}

/// Two boxes are equal exactly when the values in them are, and unequal
/// exactly when those are unequal.
pub proof fn lemma_eq_is_eq_of_values<T: PartialEq>(a: Box<T>, b: Box<T>)
    ensures
        a.eq_spec(&b) == a@.eq_spec(&b@),
        a.is_eq(&b) == a@.is_eq(&b@),
        a.is_ne(&b) == a@.is_ne(&b@),
        Box::<T>::obeys_eq_spec() == T::obeys_eq_spec(),
{
}

/// Two boxes are ordered as the values in them are: each of `<`, `<=`, `>`
/// and `>=` holds of the boxes exactly when it holds of the values.
pub proof fn lemma_order_is_order_of_values<T: PartialOrd>(a: Box<T>, b: Box<T>)
    ensures
        a.partial_cmp_spec(&b) == a@.partial_cmp_spec(&b@),
        a.is_lt(&b) == a@.is_lt(&b@),
        a.is_le(&b) == a@.is_le(&b@),
        a.is_gt(&b) == a@.is_gt(&b@),
        a.is_ge(&b) == a@.is_ge(&b@),
        Box::<T>::obeys_partial_cmp_spec() == T::obeys_partial_cmp_spec(),
{
}

} // verus!
