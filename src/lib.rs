//! Escape-time rendering of the Mandelbrot set into RGBA frames.
//!
//! The pixel pipeline is generic over the number type of the complex plane:
//! the caller supplies the arithmetic (mapping a pixel to a point, one step of
//! `z <- z * z + c`, the escape test, the colour gradient), and the library
//! supplies what is decided around it: the escape-time count, the in-set
//! colour, the layout of a frame, and the session that binds a surface,
//! renders, and zooms.

use vstd::prelude::*;

pub mod color;
pub mod escape;
pub mod frame;
pub mod session;
pub mod viewport;

verus! {

} // verus!
