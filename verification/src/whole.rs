//! The kernel on `u64`, where every operator is exact: what the general
//! contracts come to on a concrete number type.

use crate::complex::Complex;
use crate::complex::{products_allowed, products_combine};
use crate::escape::{
    advance, advance_defined, lemma_origin_is_fixed, lemma_origin_stays, mandelbrot_defined,
    mandelbrot_spec, orbit, origin, run_defined, run_spec, start, zero_is_inert, EscapeResult,
};
use crate::plane::{window_defined, window_spec};
use crate::scalar::{count, distance_spec, reliable};
use vstd::prelude::*;

verus! {

/// On `u64` every operator returns what its specification says, and zero is
/// inert.
pub proof fn lemma_whole_numbers_are_reliable()
    ensures
        reliable::<u64>(),
        zero_is_inert::<u64>(),
{
    assert(count::<u64>(0) == 0u64);
    assert(0u64 * 0u64 == 0) by (nonlinear_arith);
}

/// On `u64` the point zero can be evaluated for every bound and threshold, and
/// is always found in the set: all iterations run, and turbulence,
/// acceleration and sum are zero.
pub proof fn lemma_origin_stays_whole(max: u32, threshold: u64)
    ensures
        run_defined(origin::<u64>(), max, threshold),
        run_spec(origin::<u64>(), max, threshold) == (EscapeResult {
            is_in_set: true,
            iterations_run: max,
            turbulence: 0u64,
            acceleration: 0u64,
            final_sum: Complex { re: 0u64, im: 0u64 },
        }),
{
    lemma_whole_numbers_are_reliable();
    if max > 0 {
        assert(0u64 / (max as u64) == 0) by (nonlinear_arith)
            requires
                max > 0,
        ;
    }
    lemma_origin_stays::<u64>(max, threshold);
    let zero = origin::<u64>();
    assert(0u64 * 0u64 == 0) by (nonlinear_arith);
    assert(zero.re == 0 && zero.im == 0);
    assert(products_allowed(zero, zero));
    assert(products_combine(zero, zero));
    assert(mandelbrot_spec(zero, zero) == zero);
    assert(mandelbrot_defined(zero, zero));
    assert(distance_spec(0u64, 0u64) == 0);
    assert(advance_defined(start::<u64>(), zero));
    assert forall|k: nat| advance_defined(#[trigger] orbit(zero, k), zero) by {
        lemma_origin_is_fixed::<u64>(k);
    }
}

/// On `u64` the turbulence never goes down from one step to the next.
pub proof fn lemma_turbulence_grows_whole(c: Complex<u64>, k: nat)
    requires
        advance_defined(orbit(c, k), c),
    ensures
        orbit(c, k).turbulence <= orbit(c, k + 1).turbulence,
{
    assert(orbit(c, k + 1) == advance(orbit(c, (k + 1 - 1) as nat), c));
}

/// On `u64` the corners of the grid are carried exactly to the corners of the
/// window: the pixel `(0, 0)` to its least real and imaginary parts, and the
/// far corner `(width, height)` to its greatest.
pub proof fn lemma_grid_corners_whole(width: u32, height: u32, zoom: u64, focal_point: Complex<u64>)
    requires
        width > 0,
        height > 0,
        window_defined(width, height, zoom, focal_point),
    ensures
        ({
            let window = window_spec(width, height, zoom, focal_point);
            &&& window.at_defined(0, 0, width, height)
            &&& window.at_defined(width, height, width, height)
            &&& window.at_spec(0, 0, width, height) == (Complex { re: window.min_re, im: window.min_im })
            &&& window.at_spec(width, height, width, height) == (Complex {
                re: window.max_re,
                im: window.max_im,
            })
        }),
{
    let window = window_spec(width, height, zoom, focal_point);
    assert(count::<u64>(width) == width as u64);
    assert(count::<u64>(height) == height as u64);
    assert(count::<u64>(0) == 0u64);
    assert(0u64 / (width as u64) == 0) by (nonlinear_arith)
        requires
            width > 0,
    ;
    assert(0u64 / (height as u64) == 0) by (nonlinear_arith)
        requires
            height > 0,
    ;
    assert((width as u64) / (width as u64) == 1) by (nonlinear_arith)
        requires
            width > 0,
    ;
    assert((height as u64) / (height as u64) == 1) by (nonlinear_arith)
        requires
            height > 0,
    ;
    assert(window.min_re <= window.max_re);
    assert(window.min_im <= window.max_im);
    assert(0 * (window.max_re - window.min_re) == 0) by (nonlinear_arith);
    assert(0 * (window.max_im - window.min_im) == 0) by (nonlinear_arith);
    assert(1 * (window.max_re - window.min_re) == window.max_re - window.min_re) by (nonlinear_arith);
    assert(1 * (window.max_im - window.min_im) == window.max_im - window.min_im) by (nonlinear_arith);
}

} // verus!
