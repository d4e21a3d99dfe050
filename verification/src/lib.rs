//! False-colour rendering of the Mandelbrot set by an escape-time rule.
//!
//! The kernel is written over any numeric type that offers the usual
//! arithmetic operators, an order and a conversion from `u32`: the plane
//! mapping, the divergence engine and the grid traversal never name a concrete
//! number type. Every function states what it computes over the operators'
//! own specifications.

pub mod color;
pub mod complex;
pub mod escape;
pub mod frame;
pub mod plane;
pub mod render;
pub mod scalar;
pub mod whole;
