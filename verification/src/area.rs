//! The render area: a surface of fixed virtual size, its camera and its display scale.

use crate::camera::{
    add_clamped, clamp_target, on_grid, surface_center, target, zoom_for, Camera, CameraState,
    CENTER_BIAS, TARGET_LIMIT,
};
use crate::exact::{Fixed, Length, Quotient, Ratio, ONE};
use crate::geometry::{
    fit_scale, fits, lemma_fit_scale_is_largest, lemma_fit_scale_zero_iff_smaller, letterbox,
    letterbox_offset, shown_extent, surface_coord, to_surface, to_world, world_coord, MAX_SCALE,
};
use crate::host::{white, Blit, Filter, Rgba, Surface};
use crate::laws::{
    lemma_blit_is_centered, lemma_center_twice, lemma_new_target_is_the_middle,
    lemma_pointer_is_exact, lemma_world_is_exact,
};
use vstd::prelude::*;

verus! {

/// What a render area is, as a plain record: the model that the contracts of
/// [`RenderArea2D`] are written over.
pub struct AreaState {
    /// Virtual width in pixels.
    pub width: u16,
    /// Virtual height in pixels.
    pub height: u16,
    /// Window pixels per virtual pixel when the area is shown.
    pub scale: u8,
    /// The camera that draws into the area.
    pub camera: CameraState,
}

impl AreaState {
    /// Both extents are positive, the zoom is the one that maps the virtual
    /// size onto clip space, and the camera target lies on the grid, within
    /// its range.
    pub open spec fn wf(self) -> bool {
        &&& self.width > 0
        &&& self.height > 0
        &&& self.camera.zoom == zoom_for(self.width, self.height)
        &&& self.camera.target.0.den == ONE
        &&& self.camera.target.1.den == ONE
        &&& -TARGET_LIMIT <= self.camera.target.0.num <= TARGET_LIMIT
        &&& -TARGET_LIMIT <= self.camera.target.1.num <= TARGET_LIMIT
    }

    /// The state of a new area of `width` by `height` pixels, made while the
    /// window has the given size: the camera looks at the exact middle of the
    /// surface, and the scale is the one that fits the window.
    pub open spec fn init(width: u16, height: u16, window_w: Length, window_h: Length) -> AreaState {
        let unscaled = AreaState {
            width,
            height,
            scale: 0,
            camera: CameraState {
                target: surface_center(width, height),
                zoom: zoom_for(width, height),
            },
        };
        unscaled.set_scale_auto(window_w, window_h)
    }

    /// The largest storable scale at which the area fits a window of the given size.
    pub open spec fn auto_scale(self, window_w: Length, window_h: Length) -> int {
        fit_scale(self.width as int, self.height as int, window_w, window_h)
    }

    /// The state with the scale replaced.
    pub open spec fn set_scale(self, amount: u8) -> AreaState {
        AreaState { scale: amount, ..self }
    }

    /// The state with the scale that fits a window of the given size.
    pub open spec fn set_scale_auto(self, window_w: Length, window_h: Length) -> AreaState {
        self.set_scale(self.auto_scale(window_w, window_h) as u8)
    }

    /// Size of the area in window pixels when shown at the current scale.
    pub open spec fn shown_size(self) -> (int, int) {
        (self.width * self.scale, self.height * self.scale)
    }

    /// Window position of the top-left corner of the area when it is shown
    /// centered in a window of the given size: along each axis, exactly half
    /// of what the window leaves over.
    pub open spec fn screen_offset(self, window_w: Length, window_h: Length) -> (Quotient, Quotient) {
        (
            letterbox_offset(self.width as int, self.scale as int, window_w),
            letterbox_offset(self.height as int, self.scale as int, window_h),
        )
    }

    /// The position on the surface under window position `(mouse_x, mouse_y)`:
    /// along each axis, the distance from the screen offset divided by the scale.
    pub open spec fn mouse_position(
        self,
        window_w: Length,
        window_h: Length,
        mouse_x: Fixed,
        mouse_y: Fixed,
    ) -> (Quotient, Quotient)
        recommends
            self.scale > 0,
    {
        (
            surface_coord(self.width as int, self.scale as int, window_w, mouse_x),
            surface_coord(self.height as int, self.scale as int, window_h, mouse_y),
        )
    }

    /// The position in the world under window position `(mouse_x, mouse_y)`:
    /// the position on the surface, plus the camera target, minus the exact
    /// middle of the surface.
    pub open spec fn mouse_position_cam(
        self,
        window_w: Length,
        window_h: Length,
        mouse_x: Fixed,
        mouse_y: Fixed,
    ) -> (Quotient, Quotient)
        recommends
            self.scale > 0,
    {
        (
            world_coord(
                self.width as int,
                self.scale as int,
                window_w,
                mouse_x,
                self.camera.target.0.num,
            ),
            world_coord(
                self.height as int,
                self.scale as int,
                window_h,
                mouse_y,
                self.camera.target.1.num,
            ),
        )
    }

    /// The state with the camera target moved by `(dx, dy)`. A coordinate that
    /// would leave the range of a camera coordinate stops at its end.
    pub open spec fn move_camera(self, dx: Fixed, dy: Fixed) -> AreaState {
        AreaState {
            camera: CameraState {
                target: (
                    on_grid(clamp_target(self.camera.target.0.num + dx.raw)),
                    on_grid(clamp_target(self.camera.target.1.num + dy.raw)),
                ),
                ..self.camera
            },
            ..self
        }
    }

    /// The state with the camera target at `(x, y)` plus the bias on both axes.
    pub open spec fn center_camera(self, x: Fixed, y: Fixed) -> AreaState {
        AreaState {
            camera: CameraState {
                target: (on_grid(x.raw + CENTER_BIAS * ONE), on_grid(y.raw + CENTER_BIAS * ONE)),
                ..self.camera
            },
            ..self
        }
    }
}

/// Acts as a screen of fixed dimensions when drawn into, and can be rescaled
/// by whole factors and centered when shown in a window of any size.
///
/// A frame goes: install the camera that [`set`](RenderArea2D::set) gives,
/// draw the world, go back to the window's own camera, then draw the quad that
/// [`draw`](RenderArea2D::draw) gives.
pub struct RenderArea2D {
    width: u16,
    height: u16,
    scale: u8,
    camera: Camera,
}

impl View for RenderArea2D {
    type V = AreaState;

    closed spec fn view(&self) -> AreaState {
        AreaState {
            width: self.width,
            height: self.height,
            scale: self.scale,
            camera: self.camera@,
        }
    }
}

impl RenderArea2D {
    #[verifier::type_invariant]
    spec fn inv(&self) -> bool {
        self@.wf()
    }

    /// Creates a render area with the given virtual resolution, scaled to fit
    /// a window of `window_w` by `window_h` pixels.
    pub fn new(width: u16, height: u16, window_w: Length, window_h: Length) -> (area: Self)
        requires
            width > 0,
            height > 0,
        ensures
            area@ == AreaState::init(width, height, window_w, window_h),
            area@.wf(),
            2 * area@.camera.target.0.num == width * area@.camera.target.0.den,
            2 * area@.camera.target.1.num == height * area@.camera.target.1.den,
            2real * area@.camera.target.0.value() == width as real,
            2real * area@.camera.target.1.value() == height as real,
    {
        proof {
            lemma_new_target_is_the_middle(width, height, window_w, window_h);
        }
        let camera = Camera {
            target: target(width, height),
            zoom: (Ratio { num: 2, den: width as i128 }, Ratio { num: 2, den: height as i128 }),
        };
        let mut area = Self { width, height, scale: 0, camera };
        area.set_scale_auto(window_w, window_h);
        area
    }

    /// Virtual width in pixels.
    pub fn width(&self) -> (width: u16)
        ensures
            width == self@.width,
            width > 0,
    {
        proof {
            use_type_invariant(self);
        }
        self.width
    }

    /// Virtual height in pixels.
    pub fn height(&self) -> (height: u16)
        ensures
            height == self@.height,
            height > 0,
    {
        proof {
            use_type_invariant(self);
        }
        self.height
    }

    /// The off-screen buffer that the area draws into: as large as the area,
    /// sampled without blending so that magnifying by a whole factor keeps
    /// every pixel sharp.
    pub fn surface(&self) -> (surface: Surface)
        ensures
            surface == (Surface {
                width: self@.width as u32,
                height: self@.height as u32,
                filter: Filter::Nearest,
            }),
    {
        Surface { width: self.width as u32, height: self.height as u32, filter: Filter::Nearest }
    }

    /// The camera to install before drawing into the area.
    pub fn set(&self) -> (camera: Camera)
        ensures
            camera@ == self@.camera,
            camera@.zoom == zoom_for(self@.width, self@.height),
            camera.target.0.den == ONE,
            camera.target.1.den == ONE,
    {
        proof {
            use_type_invariant(self);
        }
        self.camera
    }

    /// Sets the scale to a whole factor: 2 shows every virtual pixel as a
    /// block of 2 by 2 window pixels. Any factor is taken, also one at which
    /// the area is larger than the window.
    pub fn set_scale(&mut self, amount: u8)
        ensures
            final(self)@ == old(self)@.set_scale(amount),
            final(self)@.wf(),
    {
        proof {
            use_type_invariant(&*self);
        }
        self.scale = amount;
    }

    /// Sets the scale to the largest that fits a window of the given size.
    pub fn set_scale_auto(&mut self, window_w: Length, window_h: Length)
        ensures
            final(self)@ == old(self)@.set_scale_auto(window_w, window_h),
            final(self)@.wf(),
    {
        proof {
            use_type_invariant(&*self);
        }
        self.scale = self.auto_scale(window_w, window_h);
    }

    /// The largest scale at which the area still fits a window of the given
    /// size, and 0 if it does not fit at all. Never more than [`MAX_SCALE`].
    pub fn auto_scale(&self, window_w: Length, window_h: Length) -> (scale: u8)
        ensures
            scale == self@.auto_scale(window_w, window_h),
            fits(self@.width as int, self@.height as int, window_w, window_h, scale as int),
            forall|k: int|
                scale < k <= MAX_SCALE ==> !#[trigger] fits(
                    self@.width as int,
                    self@.height as int,
                    window_w,
                    window_h,
                    k,
                ),
            window_w.raw >= self@.width * ONE && window_h.raw >= self@.height * ONE ==> scale >= 1,
            window_w.raw < self@.width * ONE || window_h.raw < self@.height * ONE ==> scale == 0,
    {
        proof {
            use_type_invariant(self);
            lemma_fit_scale_is_largest(self.width as int, self.height as int, window_w, window_h);
            lemma_fit_scale_zero_iff_smaller(
                self.width as int,
                self.height as int,
                window_w,
                window_h,
            );
        }
        let hor: u64 = window_w.raw / (self.width as u64 * 4294967296);
        let ver: u64 = window_h.raw / (self.height as u64 * 4294967296);
        let least: u64 = if hor < ver { hor } else { ver };
        if least > MAX_SCALE as u64 {
            MAX_SCALE
        } else {
            least as u8
        }
    }

    /// The current scale.
    pub fn scale(&self) -> (scale: u8)
        ensures
            scale == self@.scale,
    {
        self.scale
    }

    /// The quad that shows the area in a window of the given size: the whole
    /// surface at the current scale, centered, in its own colors.
    pub fn draw(&self, window_w: Length, window_h: Length) -> (blit: Blit)
        ensures
            blit.x@ == self@.screen_offset(window_w, window_h).0,
            blit.y@ == self@.screen_offset(window_w, window_h).1,
            blit.width == self@.width * self@.scale,
            blit.height == self@.height * self@.scale,
            blit.tint == white(),
            2real * blit.x@.value() == window_w.value() - blit.width as real,
            2real * blit.y@.value() == window_h.value() - blit.height as real,
    {
        proof {
            lemma_blit_is_centered(self@, window_w, window_h);
        }
        let (x, y) = self.screen_offset(window_w, window_h);
        Blit {
            x,
            y,
            width: shown_extent(self.width, self.scale),
            height: shown_extent(self.height, self.scale),
            tint: Rgba::white(),
        }
    }

    /// The position on the surface, in virtual pixels, under window position
    /// `(mouse_x, mouse_y)`, whatever the camera looks at.
    pub fn mouse_position(
        &self,
        window_w: Length,
        window_h: Length,
        mouse_x: Fixed,
        mouse_y: Fixed,
    ) -> (at: (Ratio, Ratio))
        requires
            self@.scale > 0,
        ensures
            at.0@ == self@.mouse_position(window_w, window_h, mouse_x, mouse_y).0,
            at.1@ == self@.mouse_position(window_w, window_h, mouse_x, mouse_y).1,
            at.0.den > 0,
            at.1.den > 0,
            at.0@.value() * self@.scale as real == mouse_x.value() - self@.screen_offset(
                window_w,
                window_h,
            ).0.value(),
            at.1@.value() * self@.scale as real == mouse_y.value() - self@.screen_offset(
                window_w,
                window_h,
            ).1.value(),
    {
        proof {
            lemma_pointer_is_exact(self@, window_w, window_h, mouse_x, mouse_y);
        }
        (
            to_surface(self.width, self.scale, window_w, mouse_x),
            to_surface(self.height, self.scale, window_h, mouse_y),
        )
    }

    /// The position in the world under window position `(mouse_x, mouse_y)`:
    /// the position on the surface, moved by as much as the camera target lies
    /// off the middle of the surface.
    pub fn mouse_position_cam(
        &self,
        window_w: Length,
        window_h: Length,
        mouse_x: Fixed,
        mouse_y: Fixed,
    ) -> (at: (Ratio, Ratio))
        requires
            self@.scale > 0,
        ensures
            at.0@ == self@.mouse_position_cam(window_w, window_h, mouse_x, mouse_y).0,
            at.1@ == self@.mouse_position_cam(window_w, window_h, mouse_x, mouse_y).1,
            at.0.den > 0,
            at.1.den > 0,
            at.0@.value() == self@.mouse_position(window_w, window_h, mouse_x, mouse_y).0.value()
                + self@.camera.target.0.value() - self@.width as real / 2real,
            at.1@.value() == self@.mouse_position(window_w, window_h, mouse_x, mouse_y).1.value()
                + self@.camera.target.1.value() - self@.height as real / 2real,
    {
        proof {
            use_type_invariant(self);
            lemma_world_is_exact(self@, window_w, window_h, mouse_x, mouse_y);
        }
        (
            to_world(self.width, self.scale, window_w, mouse_x, self.camera.target.0.num),
            to_world(self.height, self.scale, window_h, mouse_y, self.camera.target.1.num),
        )
    }

    /// Window position of the top-left corner of the area when it is shown
    /// centered in a window of the given size. Negative along an axis on which
    /// the shown area is larger than the window.
    pub fn screen_offset(&self, window_w: Length, window_h: Length) -> (offset: (Ratio, Ratio))
        ensures
            offset.0@ == self@.screen_offset(window_w, window_h).0,
            offset.1@ == self@.screen_offset(window_w, window_h).1,
            offset.0.den > 0,
            offset.1.den > 0,
            2real * offset.0@.value() == window_w.value() - (self@.width * self@.scale) as real,
            2real * offset.1@.value() == window_h.value() - (self@.height * self@.scale) as real,
    {
        proof {
            lemma_blit_is_centered(self@, window_w, window_h);
        }
        (
            letterbox(self.width, self.scale, window_w),
            letterbox(self.height, self.scale, window_h),
        )
    }

    /// The world point that the camera looks at.
    pub fn camera_target(&self) -> (target: (Ratio, Ratio))
        ensures
            target.0@ == self@.camera.target.0,
            target.1@ == self@.camera.target.1,
            target.0.den == ONE,
            target.1.den == ONE,
    {
        proof {
            use_type_invariant(self);
        }
        self.camera.target
    }

    /// Moves the camera by `(dx, dy)`. A coordinate that would leave the range
    /// of a camera coordinate stops at the end of the range.
    pub fn move_camera(&mut self, dx: Fixed, dy: Fixed)
        ensures
            final(self)@ == old(self)@.move_camera(dx, dy),
            final(self)@.wf(),
    {
        proof {
            use_type_invariant(&*self);
        }
        let x = add_clamped(self.camera.target.0.num, dx.raw);
        let y = add_clamped(self.camera.target.1.num, dy.raw);
        self.camera.target = (Ratio { num: x, den: ONE as i128 }, Ratio { num: y, den: ONE as i128 });
    }

    /// Points the camera at `(x, y)` plus [`CENTER_BIAS`] pixels on both axes.
    pub fn center_camera(&mut self, x: Fixed, y: Fixed)
        ensures
            final(self)@ == old(self)@.center_camera(x, y),
            final(self)@.wf(),
            final(self)@.camera.target.0.value() == x.value() + CENTER_BIAS as real,
            final(self)@.camera.target.1.value() == y.value() + CENTER_BIAS as real,
    {
        proof {
            use_type_invariant(&*self);
            lemma_center_twice(self@, x, y);
        }
        let bias: i128 = CENTER_BIAS as i128 * ONE as i128;
        let x: i128 = x.raw as i128 + bias;
        let y: i128 = y.raw as i128 + bias;
        self.camera.target = (Ratio { num: x, den: ONE as i128 }, Ratio { num: y, den: ONE as i128 });
    }
}

} // verus!
