//! The numeric types the kernel runs on, and how their operators are spoken of
//! in contracts.

use core::ops::{Add, Div, Mul, Sub};
use vstd::prelude::*;
use vstd::std_specs::cmp::{PartialOrdIs, PartialOrdSpec};
use vstd::std_specs::convert::FromSpec;
use vstd::std_specs::ops::{AddSpec, DivSpec, MulSpec, SubSpec};

verus! {

/// A number type the kernel can compute with: copyable, with the four
/// arithmetic operators, an order, and an embedding of `u32`.
pub trait Scalar: Copy + Add<Output = Self> + Sub<Output = Self> + Mul<Output = Self> + Div<
    Output = Self,
> + PartialOrd + From<u32> {

}

impl<T: Copy + Add<Output = T> + Sub<Output = T> + Mul<Output = T> + Div<Output = T> + PartialOrd + From<u32>> Scalar for T {

}

/// Comparisons on `T` return what their specification says.
pub open spec fn ordered<T: Scalar>() -> bool {
    T::obeys_partial_cmp_spec()
}

/// Every operator of `T` returns what its specification says, so a result can
/// be named exactly.
pub open spec fn reliable<T: Scalar>() -> bool {
    &&& T::obeys_add_spec()
    &&& T::obeys_sub_spec()
    &&& T::obeys_mul_spec()
    &&& T::obeys_div_spec()
    &&& ordered::<T>()
    &&& <T as FromSpec<u32>>::obeys_from_spec()
}

/// No arithmetic operator of `T` has a precondition: any two values may be
/// added, subtracted, multiplied and divided.
pub open spec fn unrestricted<T: Scalar>() -> bool {
    &&& forall|a: T, b: T| #[trigger] a.add_req(b)
    &&& forall|a: T, b: T| #[trigger] a.sub_req(b)
    &&& forall|a: T, b: T| #[trigger] a.mul_req(b)
    &&& forall|a: T, b: T| #[trigger] a.div_req(b)
}

/// A computation on `T` may run: either nothing can go wrong with `T`, or the
/// operators are reliable and each step of this computation is `defined`.
pub open spec fn permitted<T: Scalar>(defined: bool) -> bool {
    unrestricted::<T>() || (reliable::<T>() && defined)
}

/// The value of `T` that stands for the count `n`.
pub open spec fn count<T: Scalar>(n: u32) -> T {
    <T as FromSpec<u32>>::from_spec(n)
}

/// `a > b` in the order of `T`.
pub open spec fn exceeds<T: Scalar>(a: T, b: T) -> bool {
    a.is_gt(&b)
}

/// `a < b` in the order of `T`.
pub open spec fn below<T: Scalar>(a: T, b: T) -> bool {
    a.is_lt(&b)
}

/// The subtraction that `distance` performs is allowed.
pub open spec fn distance_defined<T: Scalar>(a: T, b: T) -> bool {
    if below(a, b) {
        b.sub_req(a)
    } else {
        a.sub_req(b)
    }
}

/// The magnitude of `a - b`: the larger of the two minus the smaller.
pub open spec fn distance_spec<T: Scalar>(a: T, b: T) -> T {
    if below(a, b) {
        b.sub_spec(a)
    } else {
        a.sub_spec(b)
    }
}

/// Embeds a count into `T`.
pub fn from_count<T: Scalar>(n: u32) -> (out: T)
    ensures
        reliable::<T>() ==> out == count::<T>(n),
{
    T::from(n)
}

/// `|a - b|`, formed without leaving the non-negative values: the smaller
/// operand is subtracted from the larger.
pub fn distance<T: Scalar>(a: T, b: T) -> (out: T)
    requires
        permitted::<T>(distance_defined(a, b)),
    ensures
        reliable::<T>() ==> out == distance_spec(a, b),
{
    if a < b {
        b - a
    } else {
        a - b
    }
}

} // verus!
