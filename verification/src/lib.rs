//! Frame planning for a full-window animated landscape.
//!
//! The landscape is a noise field, sampled through a volume that turns and
//! moves a little with every frame and drawn on a quad that fills the
//! window. This library decides what each frame is drawn with and what the
//! program does in each iteration of its loop; the program owns the window
//! and the device, and does it.
//!
//! - [`ratio`]: the exact quotients that every fractional quantity is kept
//!   as.
//! - [`geometry`]: the quad.
//! - [`transform`]: the transform and the scale of a frame.
//! - [`render`]: the actions that the program is asked to perform.
//! - [`events`]: the events of the window and what they ask for.
//! - [`frame`]: the frame loop.
//!
//! Everything here is exact: lengths are whole pixels, times whole
//! milliseconds, angles whole millionths of a radian, and whatever is a
//! fraction is kept as its numerator and its denominator. Rounding is left
//! to the program.

pub mod events;
pub mod frame;
pub mod geometry;
pub mod ratio;
pub mod render;
pub mod transform;
