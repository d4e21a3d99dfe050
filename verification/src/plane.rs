//! The mapping between the pixel grid and a window of the complex plane.

use crate::complex::Complex;
use crate::scalar::{count, from_count, permitted, reliable, unrestricted, Scalar};
use vstd::prelude::*;
use vstd::std_specs::ops::{AddSpec, DivSpec, MulSpec, SubSpec};

verus! {

/// The rectangle of the complex plane that an image shows.
#[derive(Clone, Copy, Debug)]
pub struct PlaneWindow<T> {
    pub min_re: T,
    pub max_re: T,
    pub min_im: T,
    pub max_im: T,
}

/// Every operation of `map_value` on these arguments is allowed.
pub open spec fn map_value_defined<T: Scalar>(value: T, start1: T, stop1: T, start2: T, stop2: T) -> bool {
    let offset = value.sub_spec(start1);
    let span1 = stop1.sub_spec(start1);
    let span2 = stop2.sub_spec(start2);
    let share = offset.div_spec(span1);
    &&& value.sub_req(start1)
    &&& stop1.sub_req(start1)
    &&& offset.div_req(span1)
    &&& stop2.sub_req(start2)
    &&& share.mul_req(span2)
    &&& share.mul_spec(span2).add_req(start2)
}

/// The point of `[start2, stop2]` that lies where `value` lies in
/// `[start1, stop1]`: `(value - start1) / (stop1 - start1) * (stop2 - start2) + start2`.
pub open spec fn map_value_spec<T: Scalar>(value: T, start1: T, stop1: T, start2: T, stop2: T) -> T {
    value.sub_spec(start1).div_spec(stop1.sub_spec(start1)).mul_spec(stop2.sub_spec(start2)).add_spec(
        start2,
    )
}

/// Carries `value` from the range `[start1, stop1]` over to the range
/// `[start2, stop2]` by linear interpolation.
pub fn map_value<T: Scalar>(value: T, start1: T, stop1: T, start2: T, stop2: T) -> (out: T)
    requires
        permitted::<T>(map_value_defined(value, start1, stop1, start2, stop2)),
    ensures
        reliable::<T>() ==> out == map_value_spec(value, start1, stop1, start2, stop2),
{
    (value - start1) / (stop1 - start1) * (stop2 - start2) + start2
}

/// Half the width of the window: the aspect ratio of the image over the zoom.
pub open spec fn half_width<T: Scalar>(width: u32, height: u32, zoom: T) -> T {
    count::<T>(width).div_spec(count::<T>(height)).div_spec(zoom)
}

/// Half the height of the window: one over the zoom.
pub open spec fn half_height<T: Scalar>(zoom: T) -> T {
    count::<T>(1).div_spec(zoom)
}

/// Every operation of `plane_window` on these arguments is allowed.
pub open spec fn window_defined<T: Scalar>(width: u32, height: u32, zoom: T, focal_point: Complex<T>) -> bool {
    let half_re = half_width(width, height, zoom);
    let half_im = half_height(zoom);
    &&& count::<T>(width).div_req(count::<T>(height))
    &&& count::<T>(width).div_spec(count::<T>(height)).div_req(zoom)
    &&& count::<T>(1).div_req(zoom)
    &&& focal_point.re.sub_req(half_re)
    &&& focal_point.re.add_req(half_re)
    &&& focal_point.im.sub_req(half_im)
    &&& focal_point.im.add_req(half_im)
}

/// The window shown by an image of `width` by `height` pixels at `zoom`,
/// centred on `focal_point`: it reaches `aspect / zoom` to either side of the
/// focal point and `1 / zoom` above and below it, where `aspect` is
/// `width / height`.
pub open spec fn window_spec<T: Scalar>(width: u32, height: u32, zoom: T, focal_point: Complex<T>) -> PlaneWindow<T> {
    let half_re = half_width(width, height, zoom);
    let half_im = half_height(zoom);
    PlaneWindow {
        min_re: focal_point.re.sub_spec(half_re),
        max_re: focal_point.re.add_spec(half_re),
        min_im: focal_point.im.sub_spec(half_im),
        max_im: focal_point.im.add_spec(half_im),
    }
}

/// Computes the window of the plane that an image shows.
pub fn plane_window<T: Scalar>(width: u32, height: u32, zoom: T, focal_point: Complex<T>) -> (out: PlaneWindow<T>)
    requires
        permitted::<T>(window_defined(width, height, zoom, focal_point)),
    ensures
        reliable::<T>() ==> out == window_spec(width, height, zoom, focal_point),
{
    let aspect: T = from_count::<T>(width) / from_count::<T>(height);
    let half_re = aspect / zoom;
    let half_im = from_count::<T>(1) / zoom;
    PlaneWindow {
        min_re: focal_point.re - half_re,
        max_re: focal_point.re + half_re,
        min_im: focal_point.im - half_im,
        max_im: focal_point.im + half_im,
    }
}

impl<T: Scalar> PlaneWindow<T> {
    /// Every operation of `at` on these arguments is allowed.
    pub open spec fn at_defined(self, px: u32, py: u32, width: u32, height: u32) -> bool {
        &&& map_value_defined(count::<T>(px), count::<T>(0), count::<T>(width), self.min_re, self.max_re)
        &&& map_value_defined(count::<T>(py), count::<T>(0), count::<T>(height), self.min_im, self.max_im)
    }

    /// The point of the window that the pixel `(px, py)` stands for: `px`
    /// carried from `[0, width]` to the real range of the window, and `py`
    /// from `[0, height]` to its imaginary range.
    pub open spec fn at_spec(self, px: u32, py: u32, width: u32, height: u32) -> Complex<T> {
        Complex {
            re: map_value_spec(count::<T>(px), count::<T>(0), count::<T>(width), self.min_re, self.max_re),
            im: map_value_spec(count::<T>(py), count::<T>(0), count::<T>(height), self.min_im, self.max_im),
        }
    }

    /// The point of the plane that the pixel `(px, py)` of a `width` by
    /// `height` grid stands for.
    pub fn at(&self, px: u32, py: u32, width: u32, height: u32) -> (out: Complex<T>)
        requires
            px < width,
            py < height,
            permitted::<T>(self.at_defined(px, py, width, height)),
        ensures
            reliable::<T>() ==> out == self.at_spec(px, py, width, height),
    {
        let re = map_value(
            from_count::<T>(px),
            from_count::<T>(0),
            from_count::<T>(width),
            self.min_re,
            self.max_re,
        );
        let im = map_value(
            from_count::<T>(py),
            from_count::<T>(0),
            from_count::<T>(height),
            self.min_im,
            self.max_im,
        );
        Complex { re, im }
    }

    /// Every operation of `pixel_of` on these arguments is allowed.
    pub open spec fn pixel_of_defined(self, point: Complex<T>, width: u32, height: u32) -> bool {
        &&& map_value_defined(point.re, self.min_re, self.max_re, count::<T>(0), count::<T>(width))
        &&& map_value_defined(point.im, self.min_im, self.max_im, count::<T>(0), count::<T>(height))
    }

    /// The grid coordinates of a point of the plane, not yet cut down to whole
    /// pixels: the inverse of `at_spec`.
    pub open spec fn pixel_of_spec(self, point: Complex<T>, width: u32, height: u32) -> (T, T) {
        (
            map_value_spec(point.re, self.min_re, self.max_re, count::<T>(0), count::<T>(width)),
            map_value_spec(point.im, self.min_im, self.max_im, count::<T>(0), count::<T>(height)),
        )
    }

    /// Carries a point of the plane back to grid coordinates, horizontal
    /// first. The coordinates are values of `T`; cutting them down to whole
    /// pixels is left to the caller.
    pub fn pixel_of(&self, point: Complex<T>, width: u32, height: u32) -> (out: (T, T))
        requires
            permitted::<T>(self.pixel_of_defined(point, width, height)),
        ensures
            reliable::<T>() ==> out == self.pixel_of_spec(point, width, height),
    {
        let x = map_value(
            point.re,
            self.min_re,
            self.max_re,
            from_count::<T>(0),
            from_count::<T>(width),
        );
        let y = map_value(
            point.im,
            self.min_im,
            self.max_im,
            from_count::<T>(0),
            from_count::<T>(height),
        );
        (x, y)
    }
}

/// Every operation of `map_pixel` on these arguments is allowed.
pub open spec fn map_pixel_defined<T: Scalar>(
    px: u32,
    py: u32,
    width: u32,
    height: u32,
    zoom: T,
    focal_point: Complex<T>,
) -> bool {
    &&& window_defined(width, height, zoom, focal_point)
    &&& window_spec(width, height, zoom, focal_point).at_defined(px, py, width, height)
}

/// The point that the pixel `(px, py)` stands for in the window around
/// `focal_point`.
pub open spec fn map_pixel_spec<T: Scalar>(
    px: u32,
    py: u32,
    width: u32,
    height: u32,
    zoom: T,
    focal_point: Complex<T>,
) -> Complex<T> {
    window_spec(width, height, zoom, focal_point).at_spec(px, py, width, height)
}

/// Converts the pixel `(px, py)` of a `width` by `height` grid to the point of
/// the complex plane it stands for, in the window around `focal_point` at
/// `zoom`.
pub fn map_pixel<T: Scalar>(px: u32, py: u32, width: u32, height: u32, zoom: T, focal_point: Complex<T>) -> (out:
    Complex<T>)
    requires
        px < width,
        py < height,
        permitted::<T>(map_pixel_defined(px, py, width, height, zoom, focal_point)),
    ensures
        reliable::<T>() ==> out == map_pixel_spec(px, py, width, height, zoom, focal_point),
{
    let window = plane_window(width, height, zoom, focal_point);
    window.at(px, py, width, height)
}

} // verus!
