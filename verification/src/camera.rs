//! The camera that a render area aims at its surface.

use crate::exact::{Quotient, Ratio, ONE};
use vstd::prelude::*;

verus! {

/// A 2D camera without rotation: the world point it looks at, and the factor
/// per axis that takes world units to clip space, where the visible part of the
/// world spans `-1..1`.
#[derive(Clone, Copy, Debug, PartialEq, Eq)]
pub struct Camera {
    /// World coordinates of the point shown in the middle of the surface.
    pub target: (Ratio, Ratio),
    /// World-to-clip-space factor along x and along y.
    pub zoom: (Ratio, Ratio),
}

/// What a [`Camera`] stands for.
pub struct CameraState {
    /// World coordinates of the point shown in the middle of the surface.
    pub target: (Quotient, Quotient),
    /// World-to-clip-space factor along x and along y.
    pub zoom: (Quotient, Quotient),
}

impl View for Camera {
    type V = CameraState;

    open spec fn view(&self) -> CameraState {
        CameraState {
            target: (self.target.0@, self.target.1@),
            zoom: (self.zoom.0@, self.zoom.1@),
        }
    }
}

/// Pixels that `center_camera` adds to both coordinates it is given.
pub const CENTER_BIAS: i32 = 16;

/// The camera target never leaves `-TARGET_LIMIT..=TARGET_LIMIT` steps of the
/// grid along either axis: 2 to the power 100, which is 2 to the power 68 pixels.
pub const TARGET_LIMIT: i128 = 1267650600228229401496703205376;

/// `v`, or the nearer end of the range of a camera coordinate where `v` lies
/// outside it.
pub open spec fn clamp_target(v: int) -> int {
    if v < -TARGET_LIMIT {
        -TARGET_LIMIT as int
    } else if v > TARGET_LIMIT {
        TARGET_LIMIT as int
    } else {
        v
    }
}

/// The position on the grid that is `steps` steps from the origin.
pub open spec fn on_grid(steps: int) -> Quotient {
    Quotient { num: steps, den: ONE as int }
}

/// The zoom under which a surface of `width` by `height` world units fills clip
/// space exactly: `(2 / width, 2 / height)`.
pub open spec fn zoom_for(width: u16, height: u16) -> (Quotient, Quotient) {
    (Quotient { num: 2, den: width as int }, Quotient { num: 2, den: height as int })
}

/// World coordinates of the middle of a surface of `width` by `height` pixels
/// whose top-left corner is the world's origin: exactly half of each.
pub open spec fn surface_center(width: u16, height: u16) -> (Quotient, Quotient) {
    (on_grid(width * (ONE / 2)), on_grid(height * (ONE / 2)))
}

/// A camera coordinate moved by `delta` steps of the grid, held within the
/// range of a camera coordinate.
pub fn add_clamped(steps: i128, delta: i64) -> (sum: i128)
    ensures
        sum == clamp_target(steps + delta),
{
    let delta: i128 = delta as i128;
    if delta >= 0 && steps > TARGET_LIMIT - delta {
        TARGET_LIMIT
    } else if delta < 0 && steps < -TARGET_LIMIT - delta {
        -TARGET_LIMIT
    } else {
        let wide: i128 = steps + delta;
        if wide < -TARGET_LIMIT {
            -TARGET_LIMIT
        } else if wide > TARGET_LIMIT {
            TARGET_LIMIT
        } else {
            wide
        }
    }
}

/// The camera target that shows a surface of `width` by `height` pixels with
/// its top-left corner at the world's origin.
pub fn target(width: u16, height: u16) -> (middle: (Ratio, Ratio))
    ensures
        middle.0@ == surface_center(width, height).0,
        middle.1@ == surface_center(width, height).1,
        2 * middle.0.num == width * ONE,
        2 * middle.1.num == height * ONE,
        middle.0.den == ONE,
        middle.1.den == ONE,
{
    (
        Ratio { num: width as i128 * 2147483648, den: ONE as i128 },
        Ratio { num: height as i128 * 2147483648, den: ONE as i128 },
    )
}

} // verus!
