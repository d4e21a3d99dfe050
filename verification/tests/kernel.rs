use mandelbrot::complex::Complex;
use mandelbrot::escape::{mandelbrot, run_mandelbrot};
use mandelbrot::plane::{map_pixel, map_value, plane_window};
use mandelbrot::scalar::{distance, from_count};

/// The escape rule written out directly on `f64`, to hold the library against.
fn reference_run(c_re: f64, c_im: f64, max: u32, threshold: f64) -> (bool, u32, f64, f64, f64, f64) {
    let (mut z_re, mut z_im) = (0.0f64, 0.0f64);
    let (mut sum_re, mut sum_im) = (0.0f64, 0.0f64);
    let mut turbulence = 0.0f64;
    let mut in_set = true;
    let mut i = 0u32;
    while i < max {
        let n_re = z_re * z_re - z_im * z_im + c_re;
        let n_im = z_re * z_im + z_im * z_re + c_im;
        turbulence += (z_re - n_re).abs();
        z_re = n_re;
        z_im = n_im;
        sum_re += z_re;
        sum_im += z_im;
        i += 1;
        if turbulence > threshold {
            in_set = false;
            break;
        }
    }
    let acceleration = if i == 0 { 0.0 } else { turbulence / i as f64 };
    (in_set, i, turbulence, acceleration, sum_re, sum_im)
}

#[test]
fn new_takes_the_imaginary_part_first() {
    let c = Complex::new(0.02, 0.3);
    assert_eq!(c.im, 0.02);
    assert_eq!(c.re, 0.3);
}

#[test]
fn complex_values_compare_by_components() {
    assert_eq!(Complex::new(1, 2), Complex { re: 2, im: 1 });
    assert_ne!(Complex::new(1, 2), Complex::new(2, 1));
}

#[test]
fn addition_is_componentwise() {
    let a = Complex { re: 1.5, im: -2.0 };
    let b = Complex { re: 0.25, im: 4.0 };
    let s = a + b;
    assert_eq!(s.re, 1.75);
    assert_eq!(s.im, 2.0);
}

#[test]
fn subtraction_is_componentwise() {
    let a = Complex { re: 1.5, im: -2.0 };
    let b = Complex { re: 0.25, im: 4.0 };
    let d = a - b;
    assert_eq!(d.re, 1.25);
    assert_eq!(d.im, -6.0);
}

#[test]
fn multiplication_follows_the_complex_product() {
    let a = Complex { re: 1.0, im: 2.0 };
    let b = Complex { re: 3.0, im: -4.0 };
    let p = a * b;
    assert_eq!(p.re, 11.0);
    assert_eq!(p.im, 2.0);
}

#[test]
fn arithmetic_agrees_with_num_complex() {
    let cases = [(1.5f64, -2.0f64, 0.25f64, 4.0f64), (-0.2, 0.9, 0.3, 0.02), (3.0, 4.0, 3.0, 4.0), (0.0, 0.0, 7.5, -1.25)];
    for (are, aim, bre, bim) in cases {
        let a = Complex { re: are, im: aim };
        let b = Complex { re: bre, im: bim };
        let na = num::complex::Complex::new(are, aim);
        let nb = num::complex::Complex::new(bre, bim);
        assert_eq!(((a + b).re, (a + b).im), ((na + nb).re, (na + nb).im));
        assert_eq!(((a - b).re, (a - b).im), ((na - nb).re, (na - nb).im));
        assert_eq!(((a * b).re, (a * b).im), ((na * nb).re, (na * nb).im));
    }
}

#[test]
fn integer_arithmetic_agrees_with_num_complex() {
    let a = Complex { re: 7i64, im: -3 };
    let b = Complex { re: -2i64, im: 5 };
    let na = num::complex::Complex::new(7i64, -3);
    let nb = num::complex::Complex::new(-2i64, 5);
    assert_eq!(((a * b).re, (a * b).im), ((na * nb).re, (na * nb).im));
    assert_eq!(((a + b).re, (a + b).im), ((na + nb).re, (na + nb).im));
    assert_eq!(((a - b).re, (a - b).im), ((na - nb).re, (na - nb).im));
}

#[test]
fn one_step_squares_and_adds() {
    let x = Complex { re: 1.0, im: 2.0 };
    let c = Complex { re: 0.5, im: -0.5 };
    let n = mandelbrot(x, c);
    assert_eq!(n.re, -2.5);
    assert_eq!(n.im, 3.5);
}

#[test]
fn distance_is_the_magnitude_of_the_difference() {
    assert_eq!(distance(3.0, 7.5), 4.5);
    assert_eq!(distance(7.5, 3.0), 4.5);
    assert_eq!(distance(-2.0, -2.0), 0.0);
    assert_eq!(distance(9u64, 4u64), 5);
    assert_eq!(distance(4u64, 9u64), 5);
}

#[test]
fn counts_embed_exactly() {
    let f: f64 = from_count(4_000_000_000);
    assert_eq!(f, 4_000_000_000.0);
    let u: u64 = from_count(17);
    assert_eq!(u, 17);
}

#[test]
fn the_origin_never_leaves() {
    for max in [1u32, 10, 255] {
        let r = run_mandelbrot(Complex::new(0.0, 0.0), max, 500.0);
        assert!(r.is_in_set);
        assert_eq!(r.iterations_run, max);
        assert_eq!(r.turbulence, 0.0);
        assert_eq!(r.acceleration, 0.0);
        assert_eq!(r.final_sum.re, 0.0);
        assert_eq!(r.final_sum.im, 0.0);
    }
}

#[test]
fn no_iterations_gives_zero_acceleration() {
    let r = run_mandelbrot(Complex::new(0.5f64, 100.0), 0, 500.0);
    assert!(r.is_in_set);
    assert_eq!(r.iterations_run, 0);
    assert_eq!(r.turbulence, 0.0);
    assert_eq!(r.acceleration, 0.0);
    assert!(!r.acceleration.is_nan());
}

#[test]
fn a_far_point_escapes_at_once() {
    let r = run_mandelbrot(Complex::new(0.0f64, 100.0), 20, 500.0);
    assert!(!r.is_in_set);
    assert_eq!(r.iterations_run, 2);
    assert_eq!(r.turbulence, 10100.0);
    assert_eq!(r.acceleration, 5050.0);
    assert_eq!(r.final_sum.re, 10200.0);
    assert_eq!(r.final_sum.im, 0.0);
    let again = run_mandelbrot(Complex::new(0.0f64, 100.0), 20, 500.0);
    assert_eq!(again.iterations_run, r.iterations_run);
    assert_eq!(again.turbulence.to_bits(), r.turbulence.to_bits());
}

#[test]
fn a_point_past_the_threshold_escapes_in_the_first_step() {
    let r = run_mandelbrot(Complex::new(0.0, -1000.0), 20, 500.0);
    assert!(!r.is_in_set);
    assert_eq!(r.iterations_run, 1);
    assert_eq!(r.turbulence, 1000.0);
    assert_eq!(r.acceleration, 1000.0);
}

#[test]
fn only_the_real_part_counts_toward_escape() {
    let r = run_mandelbrot(Complex::new(600.0, 0.0), 1, 500.0);
    assert!(r.is_in_set);
    assert_eq!(r.iterations_run, 1);
    assert_eq!(r.turbulence, 0.0);
    assert_eq!(r.final_sum.im, 600.0);
}

#[test]
fn the_engine_runs_on_whole_numbers() {
    let r = run_mandelbrot(Complex { re: 1u64, im: 0 }, 10, 4);
    assert!(!r.is_in_set);
    assert_eq!(r.iterations_run, 3);
    assert_eq!(r.turbulence, 5);
    assert_eq!(r.acceleration, 1);
    assert_eq!(r.final_sum, Complex { re: 8, im: 0 });
}

#[test]
fn the_engine_agrees_with_the_rule_written_out() {
    let points = [(-0.2, 0.9), (0.3, 0.02), (-1.0, 0.0), (0.25, 0.5), (-2.0, 2.0), (1.5, -1.5), (-0.75, 0.1)];
    for (re, im) in points {
        for max in [0u32, 1, 5, 20, 100] {
            for threshold in [0.5f64, 500.0, 1000.0] {
                let r = run_mandelbrot(Complex::new(im, re), max, threshold);
                let (in_set, n, turbulence, acceleration, sum_re, sum_im) = reference_run(re, im, max, threshold);
                assert_eq!(r.is_in_set, in_set);
                assert_eq!(r.iterations_run, n);
                assert_eq!(r.turbulence.to_bits(), turbulence.to_bits());
                assert_eq!(r.acceleration.to_bits(), acceleration.to_bits());
                assert_eq!(r.final_sum.re.to_bits(), sum_re.to_bits());
                assert_eq!(r.final_sum.im.to_bits(), sum_im.to_bits());
                assert!(r.iterations_run <= max);
                assert!(r.turbulence >= 0.0);
            }
        }
    }
}

#[test]
fn turbulence_never_decreases_as_the_bound_grows() {
    let c = Complex::new(0.5, 0.25);
    let mut last = 0.0f64;
    for max in 0..60u32 {
        let r = run_mandelbrot(c, max, 1.0e12);
        assert!(r.turbulence >= last);
        last = r.turbulence;
    }
}

#[test]
fn map_value_interpolates_linearly() {
    assert_eq!(map_value(5.0, 0.0, 10.0, 100.0, 200.0), 150.0);
    assert_eq!(map_value(0.0, 0.0, 10.0, -2.0, 2.0), -2.0);
    assert_eq!(map_value(10.0, 0.0, 10.0, -2.0, 2.0), 2.0);
    assert_eq!(map_value(2.5, 0.0, 10.0, -2.0, 2.0), -1.0);
    assert_eq!(map_value(6u64, 2, 4, 10, 20), 30);
}

#[test]
fn the_window_is_centred_on_the_focal_point() {
    let w = plane_window(4, 2, 2.0, Complex::new(-1.0, 1.0));
    assert_eq!(w.min_re, 0.0);
    assert_eq!(w.max_re, 2.0);
    assert_eq!(w.min_im, -1.5);
    assert_eq!(w.max_im, -0.5);
    assert_eq!((w.min_re + w.max_re) / 2.0, 1.0);
    assert_eq!((w.min_im + w.max_im) / 2.0, -1.0);
}

#[test]
fn raising_zoom_narrows_the_window() {
    let focal = Complex::new(0.9, -0.2);
    let mut last_width = f64::INFINITY;
    let mut last_height = f64::INFINITY;
    for zoom in [0.5f64, 1.0, 2.2, 10.0, 1000.0] {
        let w = plane_window(100, 60, zoom, focal);
        let width = w.max_re - w.min_re;
        let height = w.max_im - w.min_im;
        assert!(width < last_width);
        assert!(height < last_height);
        assert!(((w.min_re + w.max_re) / 2.0 - focal.re).abs() < 1e-12);
        assert!(((w.min_im + w.max_im) / 2.0 - focal.im).abs() < 1e-12);
        last_width = width;
        last_height = height;
    }
}

#[test]
fn corner_pixels_bound_the_window() {
    let (width, height) = (100u32, 50u32);
    let zoom = 2.0f64;
    let focal = Complex::new(0.9, -0.2);
    let w = plane_window(width, height, zoom, focal);
    let first = map_pixel(0, 0, width, height, zoom, focal);
    assert_eq!(first.re, w.min_re);
    assert_eq!(first.im, w.min_im);
    let last = map_pixel(width - 1, height - 1, width, height, zoom, focal);
    let step_re = (w.max_re - w.min_re) / width as f64;
    let step_im = (w.max_im - w.min_im) / height as f64;
    assert!((last.re - (w.max_re - step_re)).abs() < 1e-12);
    assert!((last.im - (w.max_im - step_im)).abs() < 1e-12);
    assert!(last.re < w.max_re && last.im < w.max_im);
    let far = w.at(width - 1, height - 1, width, height);
    assert_eq!(far.re, last.re);
    assert_eq!(far.im, last.im);
}

#[test]
fn pixels_map_monotonically() {
    let (width, height) = (17u32, 9u32);
    let focal = Complex::new(0.0, -0.5);
    let mut last = f64::NEG_INFINITY;
    for px in 0..width {
        let c = map_pixel(px, 0, width, height, 1.5, focal);
        assert!(c.re > last);
        last = c.re;
    }
    let mut last = f64::NEG_INFINITY;
    for py in 0..height {
        let c = map_pixel(0, py, width, height, 1.5, focal);
        assert!(c.im > last);
        last = c.im;
    }
}

#[test]
fn pixel_of_undoes_at() {
    let (width, height) = (64u32, 48u32);
    let w = plane_window(width, height, 3.0, Complex::new(0.25, -0.75));
    for (px, py) in [(0u32, 0u32), (10, 20), (63, 47), (32, 24)] {
        let c = w.at(px, py, width, height);
        let (x, y) = w.pixel_of(c, width, height);
        assert!((x - px as f64).abs() < 1e-9);
        assert!((y - py as f64).abs() < 1e-9);
    }
}
