//! Complex numbers over an arbitrary component type.

use core::ops::{Add, Mul, Sub};
use vstd::prelude::*;
use vstd::std_specs::ops::{AddSpec, MulSpec, SubSpec};

verus! {

/// A complex number, held as its real and imaginary components.
///
/// Two values are the same number exactly when both components agree; there is
/// no identity beyond that.
#[derive(Clone, Copy, Debug, PartialEq, PartialOrd)]
pub struct Complex<T> {
    pub re: T,
    pub im: T,
}

impl<T: Copy> Complex<T> {
    /// Builds the number `re + im * i`. The imaginary component comes first in
    /// the argument list.
    pub fn new(im: T, re: T) -> (out: Complex<T>)
        ensures
            out.re == re,
            out.im == im,
    {
        Complex { re, im }
    }
}

impl<T: Copy + Add<Output = T>> vstd::std_specs::ops::AddSpecImpl<Complex<T>> for Complex<T> {
    /// Addition of complex numbers is as trustworthy as addition of components.
    open spec fn obeys_add_spec() -> bool {
        T::obeys_add_spec()
    }

    /// Both component additions must be allowed.
    open spec fn add_req(self, rhs: Complex<T>) -> bool {
        rhs.im.add_req(self.im) && rhs.re.add_req(self.re)
    }

    /// Componentwise sum; in each component the right operand's part stands on
    /// the left of the addition.
    open spec fn add_spec(self, rhs: Complex<T>) -> Complex<T> {
        Complex { re: rhs.re.add_spec(self.re), im: rhs.im.add_spec(self.im) }
    }
}

impl<T: Copy + Add<Output = T>> Add<Complex<T>> for Complex<T> {
    type Output = Complex<T>;

    fn add(self, another: Complex<T>) -> (out: Complex<T>) {
        Complex { im: another.im + self.im, re: another.re + self.re }
    }
}

impl<T: Copy + Sub<Output = T>> vstd::std_specs::ops::SubSpecImpl<Complex<T>> for Complex<T> {
    /// Subtraction of complex numbers is as trustworthy as subtraction of
    /// components.
    open spec fn obeys_sub_spec() -> bool {
        T::obeys_sub_spec()
    }

    /// Both component subtractions must be allowed.
    open spec fn sub_req(self, rhs: Complex<T>) -> bool {
        self.im.sub_req(rhs.im) && self.re.sub_req(rhs.re)
    }

    /// Componentwise difference.
    open spec fn sub_spec(self, rhs: Complex<T>) -> Complex<T> {
        Complex { re: self.re.sub_spec(rhs.re), im: self.im.sub_spec(rhs.im) }
    }
}

impl<T: Copy + Sub<Output = T>> Sub<Complex<T>> for Complex<T> {
    type Output = Complex<T>;

    fn sub(self, another: Complex<T>) -> (out: Complex<T>) {
        Complex { im: self.im - another.im, re: self.re - another.re }
    }
}

/// The four component products of a complex multiplication may be formed.
pub open spec fn products_allowed<T: Copy + Mul<Output = T>>(a: Complex<T>, b: Complex<T>) -> bool {
    &&& a.re.mul_req(b.re)
    &&& a.im.mul_req(b.im)
    &&& a.re.mul_req(b.im)
    &&& a.im.mul_req(b.re)
}

/// The component products of a complex multiplication may be combined: either
/// addition and subtraction of components are allowed on all operands, or
/// multiplication is trustworthy and the two combinations at hand are allowed.
pub open spec fn products_combine<T: Copy + Mul<Output = T> + Add<Output = T> + Sub<Output = T>>(
    a: Complex<T>,
    b: Complex<T>,
) -> bool {
    ||| {
        &&& forall|x: T, y: T| #[trigger] x.sub_req(y)
        &&& forall|x: T, y: T| #[trigger] x.add_req(y)
    }
    ||| {
        &&& T::obeys_mul_spec()
        &&& a.re.mul_spec(b.re).sub_req(a.im.mul_spec(b.im))
        &&& a.re.mul_spec(b.im).add_req(a.im.mul_spec(b.re))
    }
}

impl<T: Copy + Mul<Output = T> + Add<Output = T> + Sub<Output = T>> vstd::std_specs::ops::MulSpecImpl<Complex<T>> for Complex<T> {
    /// Multiplication of complex numbers rests on all three component
    /// operations.
    open spec fn obeys_mul_spec() -> bool {
        T::obeys_mul_spec() && T::obeys_add_spec() && T::obeys_sub_spec()
    }

    /// The products may be formed and then combined.
    open spec fn mul_req(self, rhs: Complex<T>) -> bool {
        products_allowed(self, rhs) && products_combine(self, rhs)
    }

    /// `(a + bi)(c + di) = (ac - bd) + (ad + bc)i`.
    open spec fn mul_spec(self, rhs: Complex<T>) -> Complex<T> {
        Complex {
            re: self.re.mul_spec(rhs.re).sub_spec(self.im.mul_spec(rhs.im)),
            im: self.re.mul_spec(rhs.im).add_spec(self.im.mul_spec(rhs.re)),
        }
    }
}

impl<T: Copy + Mul<Output = T> + Add<Output = T> + Sub<Output = T>> Mul<Complex<T>> for Complex<T> {
    type Output = Complex<T>;

    fn mul(self, another: Complex<T>) -> (out: Complex<T>) {
        let re = (self.re * another.re) - (self.im * another.im);
        let im = (self.re * another.im) + (self.im * another.re);

        Complex { im, re }
    }
}

} // verus!
