//! Plain descriptions of what a render area asks of the host renderer.

use crate::exact::Ratio;
use vstd::prelude::*;

verus! {

/// How the host samples a texture that it draws magnified.
#[derive(Clone, Copy, Debug, PartialEq, Eq)]
pub enum Filter {
    /// Each window pixel takes the color of the nearest texel.
    Nearest,
    /// Each window pixel blends the texels around it.
    Linear,
}

/// An off-screen color buffer to allocate.
#[derive(Clone, Copy, Debug, PartialEq, Eq)]
pub struct Surface {
    pub width: u32,
    pub height: u32,
    pub filter: Filter,
}

/// A color with eight bits per channel.
#[derive(Clone, Copy, Debug, PartialEq, Eq)]
pub struct Rgba {
    pub r: u8,
    pub g: u8,
    pub b: u8,
    pub a: u8,
}

/// Opaque white: drawing modulated by it leaves every texel as it is.
pub open spec fn white() -> Rgba {
    Rgba { r: 255, g: 255, b: 255, a: 255 }
}

impl Rgba {
    /// Opaque white.
    pub fn white() -> (tint: Rgba)
        ensures
            tint == white(),
    {
        Rgba { r: 255, g: 255, b: 255, a: 255 }
    }
}

/// One textured quad: the whole surface drawn into the window rectangle with
/// top-left corner `(x, y)`, in window pixels, and size `width` by `height`,
/// modulated by `tint`.
#[derive(Clone, Copy, Debug, PartialEq, Eq)]
pub struct Blit {
    pub x: Ratio,
    pub y: Ratio,
    pub width: u32,
    pub height: u32,
    pub tint: Rgba,
}

} // verus!
