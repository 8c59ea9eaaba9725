//! A 2D render area with a camera.
//!
//! The area has a virtual size that does not depend on the size of the window.
//! It is drawn into at that size, then shown in the window magnified by a whole
//! factor, centered, with bars around it where the window is larger.
//!
//! This crate holds the arithmetic: which factor fits, where the magnified
//! surface lands, which point of the surface and of the world lies under the
//! pointer, and how the camera moves. It draws nothing itself. What the window
//! reports comes in as arguments, and what the renderer is to do comes back as
//! plain values.
//!
//! No result is rounded. Window sizes come in as [`Length`]s, pointer
//! positions and camera movements as [`Fixed`] numbers, both on a grid of 2 to
//! the power 32 steps per pixel. Offsets, pointer positions and the camera come back as [`Ratio`]s,
//! exact fractions: half of an odd margin is a half, and a quotient by the
//! scale keeps its remainder.

pub mod area;
pub mod camera;
pub mod exact;
pub mod geometry;
pub mod host;
pub mod laws;

pub use area::{AreaState, RenderArea2D};
pub use camera::{Camera, CameraState, CENTER_BIAS, TARGET_LIMIT};
pub use exact::{Fixed, Length, Quotient, Ratio, ONE};
pub use geometry::MAX_SCALE;
pub use host::{Blit, Filter, Rgba, Surface};
