//! Arithmetic of fitting, letterboxing and pointer mapping, one axis at a time.
//!
//! Window sizes and pointer positions come in on the grid of [`Length`] and
//! [`Fixed`]. What is computed from them is given as an exact fraction, so
//! that no half and no quotient by the scale is rounded.

use crate::camera::TARGET_LIMIT;
use crate::exact::{Fixed, Length, Quotient, Ratio, ONE};
use vstd::prelude::*;

verus! {

/// The largest display scale that can be stored.
pub const MAX_SCALE: u8 = 255;

/// A surface of `width` by `height` pixels, magnified `scale` times, is no larger
/// than the window in either direction.
pub open spec fn fits(width: int, height: int, window_w: Length, window_h: Length, scale: int) -> bool {
    scale * width * ONE <= window_w.raw && scale * height * ONE <= window_h.raw
}

/// The smaller of the two quotients window / surface, rounded down and capped
/// at [`MAX_SCALE`].
pub open spec fn fit_scale(width: int, height: int, window_w: Length, window_h: Length) -> int
    recommends
        width > 0,
        height > 0,
{
    let hor = window_w.raw as int / (width * ONE);
    let ver = window_h.raw as int / (height * ONE);
    let least = if hor < ver { hor } else { ver };
    if least > MAX_SCALE {
        MAX_SCALE as int
    } else {
        least
    }
}

/// What the window leaves over along one axis beside the magnified surface, in
/// steps of the grid. Negative when the surface is larger than the window.
pub open spec fn margin(extent: int, scale: int, window: Length) -> int {
    window.raw - extent * scale * ONE
}

/// Distance from the window's edge to the magnified surface when the surface is
/// centered along one axis: exactly half of the margin.
pub open spec fn letterbox_offset(extent: int, scale: int, window: Length) -> Quotient {
    Quotient { num: margin(extent, scale, window), den: 2 * ONE }
}

/// The position on the surface, in virtual pixels, that lies under window
/// position `pointer`: the distance of the pointer from the letterbox offset,
/// divided by the scale.
pub open spec fn surface_coord(extent: int, scale: int, window: Length, pointer: Fixed) -> Quotient
    recommends
        scale > 0,
{
    Quotient { num: 2 * pointer.raw - margin(extent, scale, window), den: 2 * ONE * scale }
}

/// The position in the world that lies under window position `pointer`: the
/// position on the surface, plus the camera target `target_num / ONE`, minus
/// the middle of the surface, which is exactly half of `extent`.
pub open spec fn world_coord(
    extent: int,
    scale: int,
    window: Length,
    pointer: Fixed,
    target_num: int,
) -> Quotient
    recommends
        scale > 0,
{
    Quotient {
        num: 2 * pointer.raw - margin(extent, scale, window) + scale * (2 * target_num - extent
            * ONE),
        den: 2 * ONE * scale,
    }
}

/// `fit_scale` is a scale that fits, and no storable scale above it fits.
pub proof fn lemma_fit_scale_is_largest(width: int, height: int, window_w: Length, window_h: Length)
    requires
        width > 0,
        height > 0,
    ensures
        0 <= fit_scale(width, height, window_w, window_h) <= MAX_SCALE,
        fits(width, height, window_w, window_h, fit_scale(width, height, window_w, window_h)),
        forall|k: int|
            0 <= k <= MAX_SCALE && #[trigger] fits(width, height, window_w, window_h, k) ==> k
                <= fit_scale(width, height, window_w, window_h),
{
    let s = fit_scale(width, height, window_w, window_h);
    let unit_w = width * ONE;
    let unit_h = height * ONE;
    let a = window_w.raw as int;
    let b = window_h.raw as int;
    assert(0 <= a / unit_w && 0 <= b / unit_h) by (nonlinear_arith)
        requires
            unit_w > 0,
            unit_h > 0,
            a >= 0,
            b >= 0,
    ;
    assert(s * unit_w <= a) by (nonlinear_arith)
        requires
            unit_w > 0,
            a >= 0,
            0 <= s <= a / unit_w,
    ;
    assert(s * unit_h <= b) by (nonlinear_arith)
        requires
            unit_h > 0,
            b >= 0,
            0 <= s <= b / unit_h,
    ;
    assert(s * width * ONE == s * unit_w) by (nonlinear_arith)
        requires
            unit_w == width * ONE,
    ;
    assert(s * height * ONE == s * unit_h) by (nonlinear_arith)
        requires
            unit_h == height * ONE,
    ;
    assert forall|k: int|
        0 <= k <= MAX_SCALE && #[trigger] fits(width, height, window_w, window_h, k) implies k
        <= s by {
        assert(k * width * ONE == k * unit_w) by (nonlinear_arith)
            requires
                unit_w == width * ONE,
        ;
        assert(k * height * ONE == k * unit_h) by (nonlinear_arith)
            requires
                unit_h == height * ONE,
        ;
        assert(k <= a / unit_w) by (nonlinear_arith)
            requires
                unit_w > 0,
                k * unit_w <= a,
        ;
        assert(k <= b / unit_h) by (nonlinear_arith)
            requires
                unit_h > 0,
                k * unit_h <= b,
        ;
    }
}

/// The scale is 0 exactly where the window is smaller than the surface along
/// either axis; a window that holds the surface gives a scale of at least 1.
pub proof fn lemma_fit_scale_zero_iff_smaller(
    width: int,
    height: int,
    window_w: Length,
    window_h: Length,
)
    requires
        width > 0,
        height > 0,
    ensures
        window_w.raw >= width * ONE && window_h.raw >= height * ONE ==> fit_scale(
            width,
            height,
            window_w,
            window_h,
        ) >= 1,
        window_w.raw < width * ONE || window_h.raw < height * ONE ==> fit_scale(
            width,
            height,
            window_w,
            window_h,
        ) == 0,
{
    lemma_fit_scale_is_largest(width, height, window_w, window_h);
    let s = fit_scale(width, height, window_w, window_h);
    if window_w.raw >= width * ONE && window_h.raw >= height * ONE {
        assert(fits(width, height, window_w, window_h, 1));
    } else {
        assert(fits(width, height, window_w, window_h, s));
        assert(s < 1) by (nonlinear_arith)
            requires
                0 <= s,
                width > 0,
                height > 0,
                s * width * ONE <= window_w.raw,
                s * height * ONE <= window_h.raw,
                window_w.raw < width * ONE || window_h.raw < height * ONE,
        ;
    }
}

/// Length in window pixels of an axis of `extent` virtual pixels shown at `scale`.
pub fn shown_extent(extent: u16, scale: u8) -> (len: u32)
    ensures
        len == extent * scale,
        len <= 65535 * 255,
{
    assert(0 <= extent * scale <= 65535 * 255) by (nonlinear_arith)
        requires
            0 <= extent <= 65535,
            0 <= scale <= 255,
    ;
    extent as u32 * scale as u32
}

/// What the window leaves over along one axis, in steps of the grid.
fn margin_of(extent: u16, scale: u8, window: Length) -> (steps: i128)
    ensures
        steps == margin(extent as int, scale as int, window),
        -65535 * 255 * 4294967296 <= steps <= u64::MAX,
{
    let shown: i128 = shown_extent(extent, scale) as i128;
    assert(ONE == 4294967296);
    assert(0 <= shown * 4294967296 <= 65535 * 255 * 4294967296);
    window.raw as i128 - shown * 4294967296
}

/// Where along one axis the shown surface starts when it is centered in the window.
pub fn letterbox(extent: u16, scale: u8, window: Length) -> (offset: Ratio)
    ensures
        offset@ == letterbox_offset(extent as int, scale as int, window),
        offset.den > 0,
{
    Ratio { num: margin_of(extent, scale, window), den: 2 * ONE as i128 }
}

/// The position along one axis of the surface that lies under window position `pointer`.
pub fn to_surface(extent: u16, scale: u8, window: Length, pointer: Fixed) -> (coord: Ratio)
    requires
        scale > 0,
    ensures
        coord@ == surface_coord(extent as int, scale as int, window, pointer),
        coord.den > 0,
        -73786976294838206464 <= coord.num <= 73786976294838206464,
{
    let den: i128 = 8589934592 * scale as i128;
    assert(den == 2 * ONE * scale);
    Ratio { num: 2 * pointer.raw as i128 - margin_of(extent, scale, window), den }
}

/// The position along one axis of the world that lies under window position
/// `pointer`, for a camera that looks at `target_num / ONE` along that axis.
pub(crate) fn to_world(
    extent: u16,
    scale: u8,
    window: Length,
    pointer: Fixed,
    target_num: i128,
) -> (coord: Ratio)
    requires
        scale > 0,
        -TARGET_LIMIT <= target_num <= TARGET_LIMIT,
    ensures
        coord@ == world_coord(extent as int, scale as int, window, pointer, target_num as int),
        coord.den > 0,
{
    let on_surface = to_surface(extent, scale, window, pointer);
    assert(ONE == 4294967296);
    let off_middle: i128 = 2 * target_num - extent as i128 * 4294967296;
    assert(-255 * (2 * TARGET_LIMIT + 65535 * 4294967296) <= scale * off_middle <= 255 * (2
        * TARGET_LIMIT)) by (nonlinear_arith)
        requires
            0 < scale <= 255,
            -(2 * TARGET_LIMIT + 65535 * 4294967296) <= off_middle <= 2 * TARGET_LIMIT,
    ;
    Ratio { num: on_surface.num + scale as i128 * off_middle, den: on_surface.den }
}

} // verus!
