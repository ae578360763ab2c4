//! Planes of a kernel mode-setting display device.
//!
//! A plane is a hardware compositing surface. It shows a region of a
//! framebuffer, scaled and positioned, on the output of a CRTC. This crate
//! names planes by [`control::plane::Handle`], reads the state of one into a
//! [`control::plane::Info`], and binds a framebuffer to a CRTC through one
//! with [`control::plane::set`].
//!
//! Both operations are one control transfer each, on a device that the caller
//! lends for the call (see [`control::Device`]). The records that travel are
//! laid out in [`ioctl`]; nothing is cached between calls.
use vstd::prelude::*;

pub mod control;
pub mod ioctl;
pub mod result;

verus! {

/// A position that may lie off the output: `(x, y)`.
#[allow(non_camel_case_types)]
pub type iPoint = (i32, i32);

/// A position inside a framebuffer: `(x, y)`.
#[allow(non_camel_case_types)]
pub type uPoint = (u32, u32);

/// A size: `(width, height)`.
pub type Dimensions = (u32, u32);

/// A rectangle on the output of a CRTC: where it starts, and its size.
#[allow(non_camel_case_types)]
pub type iRect = (iPoint, Dimensions);

/// A rectangle inside a framebuffer: where it starts, and its size.
#[allow(non_camel_case_types)]
pub type uRect = (uPoint, Dimensions);

} // verus!
