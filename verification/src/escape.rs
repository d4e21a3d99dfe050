//! The divergence engine: iterates `z -> z*z + c` and watches how far the real
//! part of `z` travels.

use crate::complex::Complex;
use crate::scalar::{
    count, distance, distance_defined, distance_spec, exceeds, from_count, permitted, reliable,
    unrestricted, Scalar,
};
use vstd::prelude::*;
use vstd::std_specs::ops::{AddSpec, DivSpec, MulSpec, SubSpec};

verus! {

/// What one evaluation of a point reports.
#[derive(Clone, Copy, Debug)]
pub struct EscapeResult<T> {
    /// The travelled distance never went over the threshold.
    pub is_in_set: bool,
    /// How many iterations were carried out, the one that went over the
    /// threshold included.
    pub iterations_run: u32,
    /// The distance the real part of `z` travelled over those iterations.
    pub turbulence: T,
    /// `turbulence` per iteration; zero when no iteration was carried out.
    pub acceleration: T,
    /// The sum of all iterates.
    pub final_sum: Complex<T>,
}

/// The state of an iteration after some number of steps.
pub struct Orbit<T> {
    /// The current iterate.
    pub z: Complex<T>,
    /// The sum of the iterates so far.
    pub sum: Complex<T>,
    /// The distance the real part has travelled so far.
    pub turbulence: T,
}

/// `x*x + z` can be computed.
pub open spec fn mandelbrot_defined<T: Scalar>(x: Complex<T>, z: Complex<T>) -> bool {
    x.mul_req(x) && x.mul_spec(x).add_req(z)
}

/// `x*x + z`.
pub open spec fn mandelbrot_spec<T: Scalar>(x: Complex<T>, z: Complex<T>) -> Complex<T> {
    x.mul_spec(x).add_spec(z)
}

/// One step of the iteration: `x*x + z`.
pub fn mandelbrot<T: Scalar>(x: Complex<T>, z: Complex<T>) -> (out: Complex<T>)
    requires
        permitted::<T>(mandelbrot_defined(x, z)),
    ensures
        reliable::<T>() ==> out == mandelbrot_spec(x, z),
{
    x * x + z
}

/// The number zero of `T`, as a complex number.
pub open spec fn origin<T: Scalar>() -> Complex<T> {
    Complex { re: count::<T>(0), im: count::<T>(0) }
}

/// The state before the first step: everything is zero.
pub open spec fn start<T: Scalar>() -> Orbit<T> {
    Orbit { z: origin::<T>(), sum: origin::<T>(), turbulence: count::<T>(0) }
}

/// The state one step after `s`, for the point `c`.
pub open spec fn advance<T: Scalar>(s: Orbit<T>, c: Complex<T>) -> Orbit<T> {
    let next = mandelbrot_spec(s.z, c);
    Orbit {
        z: next,
        sum: s.sum.add_spec(next),
        turbulence: s.turbulence.add_spec(distance_spec(s.z.re, next.re)),
    }
}

/// Every operation of the step from `s` is allowed.
pub open spec fn advance_defined<T: Scalar>(s: Orbit<T>, c: Complex<T>) -> bool {
    let next = mandelbrot_spec(s.z, c);
    &&& mandelbrot_defined(s.z, c)
    &&& distance_defined(s.z.re, next.re)
    &&& s.turbulence.add_req(distance_spec(s.z.re, next.re))
    &&& s.sum.add_req(next)
}

/// The state after `k` steps for the point `c`.
pub open spec fn orbit<T: Scalar>(c: Complex<T>, k: nat) -> Orbit<T>
    decreases k,
{
    if k == 0 {
        start::<T>()
    } else {
        advance(orbit(c, (k - 1) as nat), c)
    }
}

/// After `k` steps the travelled distance is over the threshold.
pub open spec fn crossed<T: Scalar>(c: Complex<T>, threshold: T, k: nat) -> bool {
    exceeds(orbit(c, k).turbulence, threshold)
}

/// The first step after `done`, and not after `max`, at which the threshold is
/// crossed; `max` when there is none.
pub open spec fn first_crossing<T: Scalar>(c: Complex<T>, threshold: T, done: nat, max: nat) -> nat
    decreases max - done,
{
    if done >= max {
        max
    } else if crossed(c, threshold, done + 1) {
        done + 1
    } else {
        first_crossing(c, threshold, done + 1, max)
    }
}

/// The number of iterations an evaluation carries out: up to the first
/// crossing of the threshold, and `max` when it is never crossed.
pub open spec fn escape_time<T: Scalar>(c: Complex<T>, threshold: T, max: nat) -> nat {
    first_crossing(c, threshold, 0, max)
}

/// The point stays in the set: the threshold is crossed at none of the steps
/// `1..=max`.
pub open spec fn stays<T: Scalar>(c: Complex<T>, threshold: T, max: nat) -> bool {
    forall|k: nat| 1 <= k <= max ==> !#[trigger] crossed(c, threshold, k)
}

/// Every operation of an evaluation is allowed: each step up to the escape
/// time, and the final division by the number of iterations.
pub open spec fn run_defined<T: Scalar>(c: Complex<T>, max: u32, threshold: T) -> bool {
    let t = escape_time(c, threshold, max as nat);
    &&& forall|k: nat| k < t ==> advance_defined(#[trigger] orbit(c, k), c)
    &&& t > 0 ==> orbit(c, t).turbulence.div_req(count::<T>(t as u32))
}

/// What an evaluation of `c` reports.
pub open spec fn run_spec<T: Scalar>(c: Complex<T>, max: u32, threshold: T) -> EscapeResult<T> {
    let t = escape_time(c, threshold, max as nat);
    let s = orbit(c, t);
    EscapeResult {
        is_in_set: stays(c, threshold, max as nat),
        iterations_run: t as u32,
        turbulence: s.turbulence,
        acceleration: if t == 0 {
            count::<T>(0)
        } else {
            s.turbulence.div_spec(count::<T>(t as u32))
        },
        final_sum: s.sum,
    }
}

/// A search for the first crossing never goes backwards and never passes
/// `max`; it moves on at least one step when there is room.
pub proof fn lemma_first_crossing_bounds<T: Scalar>(c: Complex<T>, threshold: T, done: nat, max: nat)
    requires
        done <= max,
    ensures
        done <= first_crossing(c, threshold, done, max) <= max,
        done < max ==> done < first_crossing(c, threshold, done, max),
    decreases max - done,
{
    if done < max && !crossed(c, threshold, done + 1) {
        lemma_first_crossing_bounds(c, threshold, done + 1, max);
    }
}

/// The search from `done` finds the least step after `done` at which the
/// threshold is crossed: no step before the one it returns crosses it, and the
/// one it returns does unless it is `max`.
pub proof fn lemma_first_crossing_is_first<T: Scalar>(c: Complex<T>, threshold: T, done: nat, max: nat)
    requires
        done <= max,
    ensures
        forall|k: nat|
            done < k < first_crossing(c, threshold, done, max) ==> !#[trigger] crossed(c, threshold, k),
        first_crossing(c, threshold, done, max) < max ==> crossed(
            c,
            threshold,
            first_crossing(c, threshold, done, max),
        ),
    decreases max - done,
{
    if done < max && !crossed(c, threshold, done + 1) {
        lemma_first_crossing_is_first(c, threshold, done + 1, max);
    }
}

/// The escape time is the least step in `1..=max` at which the threshold is
/// crossed, and `max` when the point stays in the set.
pub proof fn lemma_escape_time<T: Scalar>(c: Complex<T>, threshold: T, max: nat)
    ensures
        escape_time(c, threshold, max) <= max,
        max > 0 ==> escape_time(c, threshold, max) >= 1,
        forall|k: nat| 1 <= k < escape_time(c, threshold, max) ==> !#[trigger] crossed(c, threshold, k),
        stays(c, threshold, max) ==> escape_time(c, threshold, max) == max,
        !stays(c, threshold, max) ==> crossed(c, threshold, escape_time(c, threshold, max)),
{
    lemma_first_crossing_bounds(c, threshold, 0, max);
    lemma_first_crossing_is_first(c, threshold, 0, max);
    let t = escape_time(c, threshold, max);
    if stays(c, threshold, max) && t < max {
        assert(crossed(c, threshold, t));
    }
    if !stays(c, threshold, max) && !crossed(c, threshold, t) {
        assert(t == max);
        assert forall|k: nat| 1 <= k <= max implies !#[trigger] crossed(c, threshold, k) by {
            if k < t {
            }
        }
    }
}

/// Zero is inert in `T`: multiplied by itself, added to itself or taken from
/// itself, it stays zero.
pub open spec fn zero_is_inert<T: Scalar>() -> bool {
    let zero = count::<T>(0);
    &&& zero.mul_spec(zero) == zero
    &&& zero.add_spec(zero) == zero
    &&& zero.sub_spec(zero) == zero
}

/// Where zero is inert, the iteration for the point zero never moves: after
/// any number of steps everything is still zero.
pub proof fn lemma_origin_is_fixed<T: Scalar>(k: nat)
    requires
        zero_is_inert::<T>(),
    ensures
        orbit(origin::<T>(), k) == start::<T>(),
    decreases k,
{
    if k > 0 {
        lemma_origin_is_fixed::<T>((k - 1) as nat);
        let zero = count::<T>(0);
        let next = mandelbrot_spec(origin::<T>(), origin::<T>());
        assert(next == origin::<T>());
        assert(distance_spec(zero, zero) == zero);
    }
}

/// The point zero is in the set whatever the bound: where zero is inert, is
/// not over the threshold and stays zero when divided by a count, an
/// evaluation of it runs all `max` iterations and reports no turbulence, no
/// acceleration and a zero sum.
pub proof fn lemma_origin_stays<T: Scalar>(max: u32, threshold: T)
    requires
        zero_is_inert::<T>(),
        !exceeds(count::<T>(0), threshold),
        max > 0 ==> count::<T>(0).div_spec(count::<T>(max)) == count::<T>(0),
    ensures
        run_spec(origin::<T>(), max, threshold) == (EscapeResult {
            is_in_set: true,
            iterations_run: max,
            turbulence: count::<T>(0),
            acceleration: count::<T>(0),
            final_sum: origin::<T>(),
        }),
{
    let c = origin::<T>();
    assert forall|k: nat| !#[trigger] crossed(c, threshold, k) by {
        lemma_origin_is_fixed::<T>(k);
    }
    assert(stays(c, threshold, max as nat));
    lemma_escape_time(c, threshold, max as nat);
    lemma_origin_is_fixed::<T>(max as nat);
}

/// A point whose first step already carries the real part past the threshold
/// is out of the set after one iteration, whatever the bound.
pub proof fn lemma_escape_at_first_step<T: Scalar>(c: Complex<T>, max: u32, threshold: T)
    requires
        max >= 1,
        crossed(c, threshold, 1),
    ensures
        escape_time(c, threshold, max as nat) == 1,
        !run_spec(c, max, threshold).is_in_set,
        run_spec(c, max, threshold).iterations_run == 1,
{
    assert(first_crossing(c, threshold, 0, max as nat) == 1);
}

/// No evaluation reports more iterations than its bound, and one that stays in
/// the set reports exactly the bound.
pub proof fn lemma_iterations_bounded<T: Scalar>(c: Complex<T>, max: u32, threshold: T)
    ensures
        run_spec(c, max, threshold).iterations_run <= max,
        run_spec(c, max, threshold).is_in_set ==> run_spec(c, max, threshold).iterations_run == max,
        !run_spec(c, max, threshold).is_in_set ==> run_spec(c, max, threshold).iterations_run >= 1,
{
    lemma_escape_time(c, threshold, max as nat);
}

/// Evaluates the point `c`: starts from zero, iterates `z -> z*z + c` at most
/// `max_iterations` times, adds up how far the real part moves at each step,
/// and stops after the step at which that distance goes over
/// `divergence_threshold`.
///
/// The count of iterations is bounded whatever `T` is. Where the operators of
/// `T` are reliable the whole result is `run_spec`.
pub fn run_mandelbrot<T: Scalar>(c: Complex<T>, max_iterations: u32, divergence_threshold: T) -> (out:
    EscapeResult<T>)
    requires
        permitted::<T>(run_defined(c, max_iterations, divergence_threshold)),
    ensures
        out.iterations_run <= max_iterations,
        out.is_in_set ==> out.iterations_run == max_iterations,
        !out.is_in_set ==> out.iterations_run >= 1,
        reliable::<T>() ==> out == run_spec(c, max_iterations, divergence_threshold),
{
    let zero: T = from_count(0);
    let mut sum = Complex { re: zero, im: zero };
    let mut turbulence = zero;
    let mut last = Complex { re: zero, im: zero };
    let mut is_in_set = true;
    let mut i: u32 = 0;
    let ghost max = max_iterations as nat;

    while i < max_iterations
        invariant_except_break
            is_in_set,
        invariant
            i <= max_iterations,
            max == max_iterations as nat,
            permitted::<T>(run_defined(c, max_iterations, divergence_threshold)),
            reliable::<T>() ==> (Orbit { z: last, sum, turbulence }) == orbit(c, i as nat),
            reliable::<T>() && is_in_set ==> first_crossing(c, divergence_threshold, i as nat, max)
                == escape_time(c, divergence_threshold, max),
            reliable::<T>() ==> forall|k: nat|
                1 <= k <= i && (is_in_set || k < i) ==> !#[trigger] crossed(c, divergence_threshold, k),
        ensures
            !is_in_set ==> i >= 1,
            is_in_set ==> i == max_iterations,
            reliable::<T>() && !is_in_set ==> crossed(c, divergence_threshold, i as nat) && i as nat
                == escape_time(c, divergence_threshold, max),
        decreases max_iterations - i,
    {
        proof {
            if !unrestricted::<T>() {
                lemma_first_crossing_bounds(c, divergence_threshold, i as nat, max);
                assert(advance_defined(orbit(c, i as nat), c));
            }
        }
        let next = mandelbrot(last, c);
        let step = distance(last.re, next.re);
        turbulence = turbulence + step;
        last = next;
        sum = sum + last;
        i += 1;
        proof {
            if reliable::<T>() {
                assert(orbit(c, i as nat) == advance(orbit(c, (i - 1) as nat), c));
            }
        }
        if turbulence > divergence_threshold {
            is_in_set = false;
            break;
        }
    }
    proof {
        if reliable::<T>() {
            lemma_escape_time(c, divergence_threshold, max);
            if is_in_set {
                assert(stays(c, divergence_threshold, max));
            } else {
                assert(!stays(c, divergence_threshold, max));
            }
        }
    }
    let acceleration = if i == 0 {
        zero
    } else {
        turbulence / from_count(i)
    };
    EscapeResult { is_in_set, iterations_run: i, turbulence, acceleration, final_sum: sum }
}

} // verus!
