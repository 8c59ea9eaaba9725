//! Laws that relate several operations of a render area, stated over
//! [`AreaState`] and over the numbers that its fractions stand for.

use crate::area::AreaState;
use crate::camera::{on_grid, zoom_for, CENTER_BIAS, TARGET_LIMIT};
use crate::exact::{Fixed, Length, ONE};
use vstd::prelude::*;

verus! {

/// The smaller of the two exact quotients window / surface.
pub open spec fn fit_ratio(width: int, height: int, window_w: Length, window_h: Length) -> real
    recommends
        width > 0,
        height > 0,
{
    let hor = window_w.value() / width as real;
    let ver = window_h.value() / height as real;
    if hor < ver {
        hor
    } else {
        ver
    }
}

/// The automatic scale never exceeds the exact ratio of window to surface, and
/// it is that ratio rounded down wherever the ratio is below 256, one more than
/// the largest scale that can be stored.
pub proof fn lemma_auto_scale_rounds_ratio_down(state: AreaState, window_w: Length, window_h: Length)
    requires
        state.wf(),
    ensures
        state.auto_scale(window_w, window_h) as real <= fit_ratio(
            state.width as int,
            state.height as int,
            window_w,
            window_h,
        ),
        fit_ratio(state.width as int, state.height as int, window_w, window_h) < 256real
            ==> fit_ratio(state.width as int, state.height as int, window_w, window_h) < (
        state.auto_scale(window_w, window_h) + 1) as real,
{
    let width = state.width as int;
    let height = state.height as int;
    lemma_quotient_rounds_ratio_down(window_w.raw as int, width, ONE as int);
    lemma_quotient_rounds_ratio_down(window_h.raw as int, height, ONE as int);
}

/// The quotient of `a` by `b * c` in whole numbers is the exact quotient of
/// `a / c` by `b`, rounded down.
proof fn lemma_quotient_rounds_ratio_down(a: int, b: int, c: int)
    by (nonlinear_arith)
    requires
        b > 0,
        c > 0,
    ensures
        (a / (b * c)) as real <= (a as real / c as real) / b as real,
        ((a as real / c as real) / b as real) < (a / (b * c) + 1) as real,
{
}

/// A fraction whose denominator holds the factor `s` gives, times `s`, the
/// fraction without that factor.
proof fn lemma_times_scale(a: int, c: int, s: int)
    by (nonlinear_arith)
    requires
        c > 0,
        s > 0,
    ensures
        (a as real / (c * s) as real) * s as real == a as real / c as real,
{
}

/// A new area's camera looks at exactly half the width and half the height.
pub proof fn lemma_new_target_is_the_middle(
    width: u16,
    height: u16,
    window_w: Length,
    window_h: Length,
)
    requires
        width > 0,
        height > 0,
    ensures
        ({
            let target = AreaState::init(width, height, window_w, window_h).camera.target;
            &&& 2 * target.0.num == width * target.0.den
            &&& 2 * target.1.num == height * target.1.den
            &&& 2real * target.0.value() == width as real
            &&& 2real * target.1.value() == height as real
        }),
{
    assert(ONE == 4294967296);
    lemma_half_of_double(width as int, ONE / 2);
    lemma_half_of_double(height as int, ONE / 2);
}

/// The screen offset is exactly half of what the window leaves over, so the
/// shown area is centered: along each axis the margin after it equals the
/// margin before it.
pub proof fn lemma_blit_is_centered(state: AreaState, window_w: Length, window_h: Length)
    ensures
        ({
            let (left, top) = state.screen_offset(window_w, window_h);
            let (shown_w, shown_h) = state.shown_size();
            &&& 2real * left.value() == window_w.value() - shown_w as real
            &&& 2real * top.value() == window_h.value() - shown_h as real
            &&& window_w.value() - (left.value() + shown_w as real) == left.value()
            &&& window_h.value() - (top.value() + shown_h as real) == top.value()
        }),
{
    let (shown_w, shown_h) = state.shown_size();
    lemma_half_margin(window_w.raw as int, shown_w, ONE as int);
    lemma_half_margin(window_h.raw as int, shown_h, ONE as int);
}

/// The position on the surface under the pointer is exactly the pointer's
/// distance from the screen offset divided by the scale.
pub proof fn lemma_pointer_is_exact(
    state: AreaState,
    window_w: Length,
    window_h: Length,
    mouse_x: Fixed,
    mouse_y: Fixed,
)
    requires
        state.scale >= 1,
    ensures
        ({
            let (left, top) = state.screen_offset(window_w, window_h);
            let (x, y) = state.mouse_position(window_w, window_h, mouse_x, mouse_y);
            let scale = state.scale as real;
            &&& x.value() * scale == mouse_x.value() - left.value()
            &&& y.value() * scale == mouse_y.value() - top.value()
        }),
{
    let (x, y) = state.mouse_position(window_w, window_h, mouse_x, mouse_y);
    let (left, top) = state.screen_offset(window_w, window_h);
    lemma_times_scale(x.num, 2 * ONE, state.scale as int);
    lemma_times_scale(y.num, 2 * ONE, state.scale as int);
    lemma_difference_of_halves(mouse_x.raw as int, left.num, ONE as int);
    lemma_difference_of_halves(mouse_y.raw as int, top.num, ONE as int);
}

/// A pointer placed on the window position where virtual pixel `(vx, vy)`
/// starts, the screen offset plus `scale` times the pixel, maps back to
/// exactly `(vx, vy)`.
pub proof fn lemma_pointer_inverts_blit(
    state: AreaState,
    window_w: Length,
    window_h: Length,
    vx: int,
    vy: int,
    mouse_x: Fixed,
    mouse_y: Fixed,
)
    requires
        state.scale >= 1,
        mouse_x.value() == state.screen_offset(window_w, window_h).0.value() + (vx
            * state.scale) as real,
        mouse_y.value() == state.screen_offset(window_w, window_h).1.value() + (vy
            * state.scale) as real,
    ensures
        state.mouse_position(window_w, window_h, mouse_x, mouse_y).0.value() == vx as real,
        state.mouse_position(window_w, window_h, mouse_x, mouse_y).1.value() == vy as real,
{
    lemma_pointer_is_exact(state, window_w, window_h, mouse_x, mouse_y);
    let (x, y) = state.mouse_position(window_w, window_h, mouse_x, mouse_y);
    lemma_same_product(x.value(), vx, state.scale as int);
    lemma_same_product(y.value(), vy, state.scale as int);
}

/// A pointer anywhere on the block of window pixels that shows virtual pixel
/// `(vx, vy)` gives a position on the surface that rounds down to `(vx, vy)`.
/// The block starts at the screen offset plus `scale` times the pixel, and is
/// `scale` window pixels wide and high.
pub proof fn lemma_pointer_on_block(
    state: AreaState,
    window_w: Length,
    window_h: Length,
    vx: int,
    vy: int,
    mouse_x: Fixed,
    mouse_y: Fixed,
)
    requires
        state.scale >= 1,
        state.screen_offset(window_w, window_h).0.value() + (vx * state.scale) as real
            <= mouse_x.value(),
        mouse_x.value() < state.screen_offset(window_w, window_h).0.value() + ((vx + 1)
            * state.scale) as real,
        state.screen_offset(window_w, window_h).1.value() + (vy * state.scale) as real
            <= mouse_y.value(),
        mouse_y.value() < state.screen_offset(window_w, window_h).1.value() + ((vy + 1)
            * state.scale) as real,
    ensures
        ({
            let (x, y) = state.mouse_position(window_w, window_h, mouse_x, mouse_y);
            &&& x.num / x.den == vx
            &&& y.num / y.den == vy
        }),
{
    lemma_pointer_is_exact(state, window_w, window_h, mouse_x, mouse_y);
    let (x, y) = state.mouse_position(window_w, window_h, mouse_x, mouse_y);
    assert(ONE == 4294967296);
    assert(x.den > 0 && y.den > 0) by (nonlinear_arith)
        requires
            x.den == 2 * ONE * state.scale,
            y.den == 2 * ONE * state.scale,
            state.scale >= 1,
            ONE == 4294967296,
    ;
    lemma_between_products(x.value(), vx, state.scale as int);
    lemma_between_products(y.value(), vy, state.scale as int);
    lemma_floor_of_fraction(x.num, x.den, vx);
    lemma_floor_of_fraction(y.num, y.den, vy);
}

/// A number whose product by a positive `s` lies in `v * s .. (v + 1) * s`
/// lies in `v .. v + 1`.
proof fn lemma_between_products(a: real, v: int, s: int)
    by (nonlinear_arith)
    requires
        s > 0,
        (v * s) as real <= a * (s as real),
        a * (s as real) < ((v + 1) * s) as real,
    ensures
        v as real <= a,
        a < (v + 1) as real,
{
}

/// A fraction that lies in `v .. v + 1` rounds down to `v`.
proof fn lemma_floor_of_fraction(n: int, d: int, v: int)
    by (nonlinear_arith)
    requires
        d > 0,
        v as real <= n as real / d as real,
        (n as real / d as real) < (v + 1) as real,
    ensures
        n / d == v,
{
}

/// Two numbers with the same product by a positive number are the same.
proof fn lemma_same_product(a: real, v: int, s: int)
    by (nonlinear_arith)
    requires
        s > 0,
        a * s as real == (v * s) as real,
    ensures
        a == v as real,
{
}

/// The world position under the pointer is exactly the position on the
/// surface under it, plus the camera target, minus half the size of the surface.
pub proof fn lemma_world_is_exact(
    state: AreaState,
    window_w: Length,
    window_h: Length,
    mouse_x: Fixed,
    mouse_y: Fixed,
)
    requires
        state.wf(),
        state.scale >= 1,
    ensures
        ({
            let on_screen = state.mouse_position(window_w, window_h, mouse_x, mouse_y);
            let in_world = state.mouse_position_cam(window_w, window_h, mouse_x, mouse_y);
            let target = state.camera.target;
            &&& in_world.0.value() == on_screen.0.value() + target.0.value() - state.width as real
                / 2real
            &&& in_world.1.value() == on_screen.1.value() + target.1.value() - state.height as real
                / 2real
        }),
{
    let target = state.camera.target;
    let scale = state.scale as int;
    let on_screen = state.mouse_position(window_w, window_h, mouse_x, mouse_y);
    lemma_sum_over_scale(on_screen.0.num, 2 * target.0.num - state.width * ONE, 2 * ONE, scale);
    lemma_sum_over_scale(on_screen.1.num, 2 * target.1.num - state.height * ONE, 2 * ONE, scale);
    lemma_off_middle(target.0.num, state.width as int, ONE as int);
    lemma_off_middle(target.1.num, state.height as int, ONE as int);
}

/// However the camera has been moved, the world position under the pointer is
/// the position on the surface under it, plus the camera target, minus exactly
/// half the size of the surface; moving the camera does not change the
/// position on the surface.
pub proof fn lemma_world_is_screen_plus_camera(
    state: AreaState,
    dx: Fixed,
    dy: Fixed,
    window_w: Length,
    window_h: Length,
    mouse_x: Fixed,
    mouse_y: Fixed,
)
    requires
        state.wf(),
        state.scale >= 1,
    ensures
        ({
            let moved = state.move_camera(dx, dy);
            let on_screen = moved.mouse_position(window_w, window_h, mouse_x, mouse_y);
            let in_world = moved.mouse_position_cam(window_w, window_h, mouse_x, mouse_y);
            let target = moved.camera.target;
            &&& on_screen == state.mouse_position(window_w, window_h, mouse_x, mouse_y)
            &&& in_world.0.value() == on_screen.0.value() + target.0.value() - state.width as real
                / 2real
            &&& in_world.1.value() == on_screen.1.value() + target.1.value() - state.height as real
                / 2real
        }),
{
    lemma_world_is_exact(state.move_camera(dx, dy), window_w, window_h, mouse_x, mouse_y);
}

/// Adding `s * b` to the numerator of a fraction over `c * s` adds `b / c`.
proof fn lemma_sum_over_scale(a: int, b: int, c: int, s: int)
    by (nonlinear_arith)
    requires
        c > 0,
        s > 0,
    ensures
        (a + s * b) as real / (c * s) as real == a as real / (c * s) as real + b as real
            / c as real,
{
}

/// Half of `w` twice is `w`.
proof fn lemma_half_of_double(w: int, h: int)
    by (nonlinear_arith)
    requires
        h > 0,
    ensures
        2real * ((w * h) as real / (2 * h) as real) == w as real,
{
}

/// Half of what a window of `a / d` leaves beside `k`, twice, is `a / d - k`.
proof fn lemma_half_margin(a: int, k: int, d: int)
    by (nonlinear_arith)
    requires
        d > 0,
    ensures
        2real * ((a - k * d) as real / (2 * d) as real) == a as real / d as real - k as real,
{
}

/// `(2 * a - b) / (2 * d)` is `a / d` less `b / (2 * d)`.
proof fn lemma_difference_of_halves(a: int, b: int, d: int)
    by (nonlinear_arith)
    requires
        d > 0,
    ensures
        (2 * a - b) as real / (2 * d) as real == a as real / d as real - b as real / (2
            * d) as real,
{
}

/// `(2 * t - w * d) / (2 * d)` is `t / d` less half of `w`.
proof fn lemma_off_middle(t: int, w: int, d: int)
    by (nonlinear_arith)
    requires
        d > 0,
    ensures
        (2 * t - w * d) as real / (2 * d) as real == t as real / d as real - w as real / 2real,
{
}

/// Fractions over the same denominator add by their numerators.
proof fn lemma_sum_of_fractions(a: int, b: int, d: int)
    by (nonlinear_arith)
    requires
        d > 0,
    ensures
        (a + b) as real / d as real == a as real / d as real + b as real / d as real,
{
}

/// Adding `k * d` to the numerator of a fraction over `d` adds `k`.
proof fn lemma_plus_whole(a: int, k: int, d: int)
    by (nonlinear_arith)
    requires
        d > 0,
    ensures
        (a + k * d) as real / d as real == a as real / d as real + k as real,
{
}

/// One of the operations that change a render area.
pub enum Operation {
    SetScale(u8),
    SetScaleAuto(Length, Length),
    MoveCamera(Fixed, Fixed),
    CenterCamera(Fixed, Fixed),
}

/// The state after one operation.
pub open spec fn apply(state: AreaState, op: Operation) -> AreaState {
    match op {
        Operation::SetScale(amount) => state.set_scale(amount),
        Operation::SetScaleAuto(window_w, window_h) => state.set_scale_auto(window_w, window_h),
        Operation::MoveCamera(dx, dy) => state.move_camera(dx, dy),
        Operation::CenterCamera(x, y) => state.center_camera(x, y),
    }
}

/// The state after a sequence of operations, first to last.
pub open spec fn apply_all(state: AreaState, ops: Seq<Operation>) -> AreaState
    decreases ops.len(),
{
    if ops.len() == 0 {
        state
    } else {
        apply(apply_all(state, ops.drop_last()), ops.last())
    }
}

/// No sequence of operations changes the virtual size or the zoom: the zoom
/// stays at `(2 / width, 2 / height)`.
pub proof fn lemma_zoom_is_fixed(state: AreaState, ops: Seq<Operation>)
    requires
        state.wf(),
    ensures
        apply_all(state, ops).wf(),
        apply_all(state, ops).width == state.width,
        apply_all(state, ops).height == state.height,
        apply_all(state, ops).camera.zoom == zoom_for(state.width, state.height),
        apply_all(state, ops).camera.zoom.0.value() == 2real / state.width as real,
        apply_all(state, ops).camera.zoom.1.value() == 2real / state.height as real,
    decreases ops.len(),
{
    if ops.len() > 0 {
        lemma_zoom_is_fixed(state, ops.drop_last());
    }
}

/// The scale read after `set_scale(amount)` is `amount`, and nothing else has changed.
pub proof fn lemma_scale_reads_back(state: AreaState, amount: u8)
    ensures
        state.set_scale(amount).scale == amount,
        state.set_scale(amount).width == state.width,
        state.set_scale(amount).height == state.height,
        state.set_scale(amount).camera == state.camera,
{
}

/// Moving the camera adds exactly `(dx, dy)` to its target wherever the sum
/// lies within the range of a camera coordinate.
pub proof fn lemma_move_adds(state: AreaState, dx: Fixed, dy: Fixed)
    requires
        state.wf(),
        -TARGET_LIMIT <= state.camera.target.0.num + dx.raw <= TARGET_LIMIT,
        -TARGET_LIMIT <= state.camera.target.1.num + dy.raw <= TARGET_LIMIT,
    ensures
        state.move_camera(dx, dy).camera.target.0.value() == state.camera.target.0.value()
            + dx.value(),
        state.move_camera(dx, dy).camera.target.1.value() == state.camera.target.1.value()
            + dy.value(),
{
    lemma_sum_of_fractions(state.camera.target.0.num, dx.raw as int, ONE as int);
    lemma_sum_of_fractions(state.camera.target.1.num, dy.raw as int, ONE as int);
}

/// Moving the camera by nothing leaves the whole state as it was.
pub proof fn lemma_move_by_zero(state: AreaState)
    requires
        state.wf(),
    ensures
        state.move_camera(Fixed { raw: 0 }, Fixed { raw: 0 }) == state,
{
}

/// Centering twice on the same point is centering once: the target is exactly
/// the point plus the bias, whatever it was before.
pub proof fn lemma_center_twice(state: AreaState, x: Fixed, y: Fixed)
    ensures
        state.center_camera(x, y).center_camera(x, y) == state.center_camera(x, y),
        state.center_camera(x, y).center_camera(x, y).camera.target == (
            on_grid(x.raw + CENTER_BIAS * ONE),
            on_grid(y.raw + CENTER_BIAS * ONE),
        ),
        state.center_camera(x, y).center_camera(x, y).camera.target.0.value() == x.value()
            + CENTER_BIAS as real,
        state.center_camera(x, y).center_camera(x, y).camera.target.1.value() == y.value()
            + CENTER_BIAS as real,
{
    lemma_plus_whole(x.raw as int, CENTER_BIAS as int, ONE as int);
    lemma_plus_whole(y.raw as int, CENTER_BIAS as int, ONE as int);
}

} // verus!
