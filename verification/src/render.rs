//! The renderer: runs the kernel over every pixel of a grid and marks the
//! focal point.

use crate::color::{marker_color, marker_spec, Color, HueWheel};
use crate::complex::Complex;
use crate::escape::{run_defined, run_mandelbrot, run_spec, EscapeResult};
use crate::frame::{fits_spec, Framebuffer, Raster};
use crate::plane::{plane_window, window_defined, window_spec, PlaneWindow};
use crate::scalar::{count, exceeds, from_count, permitted, reliable, unrestricted, Scalar};
use vstd::prelude::*;

verus! {

/// Everything one rendering depends on.
#[derive(Clone, Copy, Debug)]
pub struct RenderConfig<T> {
    /// The number of pixels in a row.
    pub width: u32,
    /// The number of rows.
    pub height: u32,
    /// How far the window is narrowed around the focal point.
    pub zoom: T,
    /// The point of the plane at the centre of the image.
    pub focal_point: Complex<T>,
    /// The most iterations spent on one point.
    pub max_iterations: u32,
    /// The travelled distance past which a point counts as escaped.
    pub divergence_threshold: T,
}

/// Why a configuration is turned down.
#[derive(Clone, Copy, Debug, PartialEq, Eq, Structural)]
pub enum ConfigError {
    /// The width is zero.
    ZeroWidth,
    /// The height is zero.
    ZeroHeight,
    /// The zoom is not greater than zero.
    NonPositiveZoom,
    /// The iteration bound is zero.
    ZeroIterations,
}

impl<T: Scalar> RenderConfig<T> {
    /// The verdict on this configuration: the first of width, height, zoom and
    /// iteration bound that is not positive is the one reported.
    pub open spec fn verdict(self) -> Result<(), ConfigError> {
        if self.width == 0 {
            Err(ConfigError::ZeroWidth)
        } else if self.height == 0 {
            Err(ConfigError::ZeroHeight)
        } else if !exceeds(self.zoom, count::<T>(0)) {
            Err(ConfigError::NonPositiveZoom)
        } else if self.max_iterations == 0 {
            Err(ConfigError::ZeroIterations)
        } else {
            Ok(())
        }
    }

    /// The window of the plane that the image shows.
    pub open spec fn window(self) -> PlaneWindow<T> {
        window_spec(self.width, self.height, self.zoom, self.focal_point)
    }

    /// The point of the plane behind the pixel `(px, py)`.
    pub open spec fn point(self, px: u32, py: u32) -> Complex<T> {
        self.window().at_spec(px, py, self.width, self.height)
    }

    /// What the engine reports for the pixel `(px, py)`.
    pub open spec fn result_at(self, px: u32, py: u32) -> EscapeResult<T> {
        run_spec(self.point(px, py), self.max_iterations, self.divergence_threshold)
    }

    /// Every operation spent on the pixel `(px, py)` is allowed.
    pub open spec fn pixel_defined(self, px: u32, py: u32) -> bool {
        &&& self.window().at_defined(px, py, self.width, self.height)
        &&& run_defined(self.point(px, py), self.max_iterations, self.divergence_threshold)
    }

    /// The grid coordinates of the focal point, as values of `T`.
    pub open spec fn focus(self) -> (T, T) {
        self.window().pixel_of_spec(self.focal_point, self.width, self.height)
    }

    /// Every operation that finds the grid coordinates of the focal point is
    /// allowed.
    pub open spec fn focus_defined(self) -> bool {
        &&& window_defined(self.width, self.height, self.zoom, self.focal_point)
        &&& self.window().pixel_of_defined(self.focal_point, self.width, self.height)
    }

    /// Every operation of a rendering is allowed.
    pub open spec fn defined(self) -> bool {
        &&& self.focus_defined()
        &&& forall|px: u32, py: u32|
            px < self.width && py < self.height ==> #[trigger] self.pixel_defined(px, py)
    }

    /// Checks the configuration before any pixel is worked on. Width, height,
    /// zoom and iteration bound must each be positive; they are looked at in
    /// this order and the first that is not decides the error.
    pub fn validate(&self) -> (out: Result<(), ConfigError>)
        ensures
            out == Err::<(), ConfigError>(ConfigError::ZeroWidth) <==> self.width == 0,
            out == Err::<(), ConfigError>(ConfigError::ZeroHeight) <==> self.width > 0 && self.height == 0,
            out == Err::<(), ConfigError>(ConfigError::ZeroIterations) ==> self.max_iterations == 0,
            out is Ok ==> self.width > 0 && self.height > 0 && self.max_iterations > 0,
            reliable::<T>() ==> out == self.verdict(),
    {
        if self.width == 0 {
            return Err(ConfigError::ZeroWidth);
        }
        if self.height == 0 {
            return Err(ConfigError::ZeroHeight);
        }
        let zero: T = from_count(0);
        if !(self.zoom > zero) {
            return Err(ConfigError::NonPositiveZoom);
        }
        if self.max_iterations == 0 {
            return Err(ConfigError::ZeroIterations);
        }
        Ok(())
    }
}

/// `color` is what the pixel `(px, py)` gets: the wheel's colour for a whole
/// number that `nearest` made of the acceleration the engine reports there.
pub open spec fn shaded<T: Scalar, Q: Fn(T) -> u32>(
    config: RenderConfig<T>,
    wheel: HueWheel,
    nearest: Q,
    px: u32,
    py: u32,
    color: Color,
) -> bool {
    exists|n: u32|
        #[trigger] call_ensures(nearest, (config.result_at(px, py).acceleration,), n) && color
            == wheel.color_spec(n as nat)
}

/// The column or row that the coordinate `whole` falls into on an axis of
/// `extent` pixels: `whole` itself, or the last one where it lies beyond.
pub open spec fn clamp_spec(whole: u32, extent: u32) -> u32 {
    if whole >= extent {
        (extent - 1) as u32
    } else {
        whole
    }
}

/// `m` is the column or row of the coordinate `at` on an axis of `extent`
/// pixels: what `floor` made of `at`, kept inside the axis.
pub open spec fn settled<T: Scalar, P: Fn(T) -> u32>(floor: P, at: T, extent: u32, m: u32) -> bool {
    exists|whole: u32| #[trigger] call_ensures(floor, (at,), whole) && m == clamp_spec(whole, extent)
}

/// `(mx, my)` is the pixel of the focal point: what `floor` made of its grid
/// coordinates, kept inside the grid.
pub open spec fn focused<T: Scalar, P: Fn(T) -> u32>(config: RenderConfig<T>, floor: P, mx: u32, my: u32) -> bool {
    &&& settled(floor, config.focus().0, config.width, mx)
    &&& settled(floor, config.focus().1, config.height, my)
}

/// The grid `frame` is the finished picture with its marker at `(mx, my)`:
/// that pixel, which lies in the grid, holds the marker colour; and where the
/// operators of `T` are reliable, it is the pixel of the focal point and every
/// other pixel is shaded as the engine's result for it says.
pub open spec fn marked<T: Scalar, Q: Fn(T) -> u32, P: Fn(T) -> u32>(
    config: RenderConfig<T>,
    wheel: HueWheel,
    nearest: Q,
    floor: P,
    frame: Raster,
    mx: u32,
    my: u32,
) -> bool {
    &&& mx < config.width
    &&& my < config.height
    &&& frame.pixel(mx as nat, my as nat) == marker_spec()
    &&& reliable::<T>() ==> focused(config, floor, mx, my)
    &&& reliable::<T>() ==> forall|px: u32, py: u32|
        px < config.width && py < config.height && (px != mx || py != my) ==> shaded(
            config,
            wheel,
            nearest,
            px,
            py,
            #[trigger] frame.pixel(px as nat, py as nat),
        )
}

/// Finds the pixel nearest the focal point: carries the focal point back
/// through the window to grid coordinates, has `floor` cut each down to a
/// whole number, and keeps the result inside the grid.
pub fn focal_pixel<T: Scalar, P: Fn(T) -> u32>(config: &RenderConfig<T>, floor: P) -> (out: (u32, u32))
    requires
        config.width > 0,
        config.height > 0,
        forall|v: T| call_requires(floor, (v,)),
        permitted::<T>(config.focus_defined()),
    ensures
        out.0 < config.width,
        out.1 < config.height,
        reliable::<T>() ==> focused(*config, floor, out.0, out.1),
{
    let window = plane_window(config.width, config.height, config.zoom, config.focal_point);
    let at = window.pixel_of(config.focal_point, config.width, config.height);
    let fx = floor(at.0);
    let fy = floor(at.1);
    let mx = if fx >= config.width {
        config.width - 1
    } else {
        fx
    };
    let my = if fy >= config.height {
        config.height - 1
    } else {
        fy
    };
    proof {
        if reliable::<T>() {
            assert(call_ensures(floor, (config.focus().0,), fx));
            assert(call_ensures(floor, (config.focus().1,), fy));
        }
    }
    (mx, my)
}

/// Renders the image that `config` describes.
///
/// A configuration that `validate` turns down is reported before any pixel is
/// worked on. Otherwise every pixel of the grid, row by row, is carried to its
/// point of the plane, evaluated, and given the wheel's colour for the whole
/// number nearest the acceleration found there; last the pixel of the focal
/// point is painted over in the marker colour.
///
/// `nearest` rounds a value of `T` to a whole number, `floor` cuts one down to
/// a whole number.
pub fn render_img<T: Scalar, Q: Fn(T) -> u32, P: Fn(T) -> u32>(
    config: &RenderConfig<T>,
    wheel: &HueWheel,
    nearest: Q,
    floor: P,
) -> (out: Result<Framebuffer, ConfigError>)
    requires
        fits_spec(config.width, config.height),
        forall|v: T| call_requires(nearest, (v,)),
        forall|v: T| call_requires(floor, (v,)),
        permitted::<T>(config.verdict() is Ok ==> config.defined()),
    ensures
        out matches Err(e) ==> {
            &&& e == ConfigError::ZeroWidth <==> config.width == 0
            &&& e == ConfigError::ZeroHeight <==> config.width > 0 && config.height == 0
            &&& e == ConfigError::ZeroIterations ==> config.max_iterations == 0
            &&& reliable::<T>() ==> config.verdict() == Err::<(), ConfigError>(e)
        },
        out matches Ok(frame) ==> {
            &&& config.width > 0 && config.height > 0 && config.max_iterations > 0
            &&& reliable::<T>() ==> config.verdict() is Ok
            &&& frame@.wf()
            &&& frame@.width == config.width
            &&& frame@.height == config.height
            &&& forall|px: u32, py: u32|
                px < config.width && py < config.height ==> {
                    let color = #[trigger] frame@.pixel(px as nat, py as nat);
                    color == marker_spec() || wheel@.contains(color)
                }
            &&& exists|mx: u32, my: u32| #[trigger] marked(*config, *wheel, nearest, floor, frame@, mx, my)
        },
{
    match config.validate() {
        Err(e) => {
            return Err(e);
        },
        Ok(()) => {},
    }
    let width = config.width;
    let height = config.height;
    let window = plane_window(width, height, config.zoom, config.focal_point);
    let mut frame = Framebuffer::new(width, height);
    let mut y: u32 = 0;
    while y < height
        invariant
            y <= height,
            width == config.width,
            height == config.height,
            width > 0,
            forall|v: T| call_requires(nearest, (v,)),
            unrestricted::<T>() || (reliable::<T>() && config.defined()),
            reliable::<T>() ==> window == config.window(),
            frame@.wf(),
            frame@.width == width,
            frame@.height == height,
            forall|px: u32, py: u32|
                px < width && py < y ==> wheel@.contains(#[trigger] frame@.pixel(px as nat, py as nat)),
            reliable::<T>() ==> forall|px: u32, py: u32|
                px < width && py < y ==> shaded(
                    *config,
                    *wheel,
                    nearest,
                    px,
                    py,
                    #[trigger] frame@.pixel(px as nat, py as nat),
                ),
        decreases height - y,
    {
        let mut x: u32 = 0;
        while x < width
            invariant
                x <= width,
                y < height,
                width == config.width,
                height == config.height,
                forall|v: T| call_requires(nearest, (v,)),
                unrestricted::<T>() || (reliable::<T>() && config.defined()),
                reliable::<T>() ==> window == config.window(),
                frame@.wf(),
                frame@.width == width,
                frame@.height == height,
                forall|px: u32, py: u32|
                    px < width && (py < y || (py == y && px < x)) ==> wheel@.contains(
                        #[trigger] frame@.pixel(px as nat, py as nat),
                    ),
                reliable::<T>() ==> forall|px: u32, py: u32|
                    px < width && (py < y || (py == y && px < x)) ==> shaded(
                        *config,
                        *wheel,
                        nearest,
                        px,
                        py,
                        #[trigger] frame@.pixel(px as nat, py as nat),
                    ),
            decreases width - x,
        {
            proof {
                if !unrestricted::<T>() {
                    assert(config.pixel_defined(x, y));
                }
            }
            let c = window.at(x, y, width, height);
            let r = run_mandelbrot(c, config.max_iterations, config.divergence_threshold);
            let n = nearest(r.acceleration);
            let color = wheel.assigned_color(n);
            let ghost before = frame@;
            frame.put_pixel(x, y, color);
            proof {
                assert(wheel@.contains(color)) by {
                    assert(wheel@[(n as nat % 360) as int] == color);
                }
                if reliable::<T>() {
                    assert(call_ensures(nearest, (config.result_at(x, y).acceleration,), n));
                    assert(shaded(*config, *wheel, nearest, x, y, color));
                }
                assert forall|px: u32, py: u32|
                    px < width && (py < y || (py == y && px < x + 1)) implies wheel@.contains(
                    #[trigger] frame@.pixel(px as nat, py as nat),
                ) by {
                    if px != x || py != y {
                        assert(frame@.pixel(px as nat, py as nat) == before.pixel(px as nat, py as nat));
                    }
                }
                if reliable::<T>() {
                    assert forall|px: u32, py: u32|
                        px < width && (py < y || (py == y && px < x + 1)) implies shaded(
                        *config,
                        *wheel,
                        nearest,
                        px,
                        py,
                        #[trigger] frame@.pixel(px as nat, py as nat),
                    ) by {
                        if px != x || py != y {
                            assert(frame@.pixel(px as nat, py as nat) == before.pixel(px as nat, py as nat));
                        }
                    }
                }
            }
            x += 1;
        }
        y += 1;
    }
    let marker = focal_pixel(config, floor);
    let ghost before = frame@;
    frame.put_pixel(marker.0, marker.1, marker_color());
    proof {
        assert forall|px: u32, py: u32| px < config.width && py < config.height implies {
            let color = #[trigger] frame@.pixel(px as nat, py as nat);
            color == marker_spec() || wheel@.contains(color)
        } by {
            if px != marker.0 || py != marker.1 {
                assert(frame@.pixel(px as nat, py as nat) == before.pixel(px as nat, py as nat));
            }
        }
        if reliable::<T>() {
            assert forall|px: u32, py: u32|
                px < config.width && py < config.height && (px != marker.0 || py != marker.1) implies shaded(
                *config,
                *wheel,
                nearest,
                px,
                py,
                #[trigger] frame@.pixel(px as nat, py as nat),
            ) by {
                assert(frame@.pixel(px as nat, py as nat) == before.pixel(px as nat, py as nat));
            }
        }
        assert(frame@.pixel(marker.0 as nat, marker.1 as nat) == marker_spec());
        assert(marked(*config, *wheel, nearest, floor, frame@, marker.0, marker.1));
    }
    Ok(frame)
}

} // verus!
