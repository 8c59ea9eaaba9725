use mq_render_area_2d::camera::{add_clamped, target};
use mq_render_area_2d::geometry::{letterbox, shown_extent, to_surface};
use mq_render_area_2d::{
    Camera, Filter, Fixed, Length, Ratio, RenderArea2D, Rgba, Surface, CENTER_BIAS, MAX_SCALE, ONE,
    TARGET_LIMIT,
};

const SIZES: [(u16, u16); 5] = [(1, 1), (400, 300), (401, 301), (7, 1000), (65535, 65535)];
const WINDOWS: [(u32, u32); 7] =
    [(0, 0), (1, 1), (399, 300), (800, 600), (801, 601), (1000, 7000), (4294967295, 4294967295)];
const STEP: u64 = ONE as u64;
const UNIT: i128 = ONE as i128;
const HALF: i64 = ONE / 2;

fn whole(pixels: i32) -> Fixed {
    Fixed::from_pixels(pixels)
}

fn size(pixels: u32) -> Length {
    Length::from_pixels(pixels)
}

fn span(raw: u64) -> Length {
    Length { raw }
}

fn steps(raw: i64) -> Fixed {
    Fixed { raw }
}

fn number(ratio: Ratio) -> f64 {
    ratio.num as f64 / ratio.den as f64
}

fn pair(ratios: (Ratio, Ratio)) -> (f64, f64) {
    (number(ratios.0), number(ratios.1))
}

#[test]
fn length_holds_whole_pixels() {
    assert_eq!(size(0), Length { raw: 0 });
    assert_eq!(size(1), Length { raw: 4294967296 });
    assert_eq!(size(801), Length { raw: 801 * 4294967296 });
    assert_eq!(size(u32::MAX), Length { raw: 4294967295 * 4294967296 });
}

#[test]
fn fixed_holds_whole_pixels() {
    assert_eq!(ONE, 4294967296);
    assert_eq!(whole(0), Fixed { raw: 0 });
    assert_eq!(whole(1), Fixed { raw: 4294967296 });
    assert_eq!(whole(-3), Fixed { raw: -12884901888 });
    assert_eq!(whole(i32::MAX), Fixed { raw: 2147483647 * 4294967296 });
    assert_eq!(whole(i32::MIN), Fixed { raw: i64::MIN });
}

#[test]
fn ratio_floor_rounds_toward_negative_infinity() {
    assert_eq!(Ratio { num: 7, den: 2 }.floor(), 3);
    assert_eq!(Ratio { num: -3, den: 2 }.floor(), -2);
    assert_eq!(Ratio { num: -4, den: 2 }.floor(), -2);
    assert_eq!(Ratio { num: -1, den: 7 }.floor(), -1);
    assert_eq!(Ratio { num: -7, den: 7 }.floor(), -1);
    assert_eq!(Ratio { num: -8, den: 7 }.floor(), -2);
    assert_eq!(Ratio { num: 0, den: 5 }.floor(), 0);
    assert_eq!(Ratio { num: 6, den: 7 }.floor(), 0);
    assert_eq!(Ratio { num: -5, den: i128::MAX }.floor(), -1);
    assert_eq!(Ratio { num: i128::MIN, den: 1 }.floor(), i128::MIN);
    assert_eq!(Ratio { num: i128::MIN, den: i128::MAX }.floor(), -2);
    assert_eq!(Ratio { num: i128::MAX, den: 1 }.floor(), i128::MAX);
}

#[test]
fn auto_scale_is_at_least_one_when_the_window_holds_the_area() {
    for (w, h) in SIZES {
        for (ww, wh) in WINDOWS {
            let ra = RenderArea2D::new(w, h, size(ww), size(wh));
            if ww >= w as u32 && wh >= h as u32 {
                assert!(ra.auto_scale(size(ww), size(wh)) >= 1);
            }
        }
    }
    let ra = RenderArea2D::new(400, 300, size(0), size(0));
    assert_eq!(ra.auto_scale(span(400 * STEP), span(300 * STEP)), 1);
    assert_eq!(ra.auto_scale(span(400 * STEP + 1), span(300 * STEP + STEP / 2)), 1);
}

#[test]
fn auto_scale_is_zero_when_the_window_is_smaller() {
    let ra = RenderArea2D::new(400, 300, size(800), size(600));
    assert_eq!(ra.auto_scale(size(399), size(600)), 0);
    assert_eq!(ra.auto_scale(size(800), size(299)), 0);
    assert_eq!(ra.auto_scale(size(0), size(0)), 0);
    assert_eq!(ra.auto_scale(size(399), size(u32::MAX)), 0);
    assert_eq!(ra.auto_scale(span(400 * STEP - 1), size(300)), 0);
    assert_eq!(ra.auto_scale(size(400), span(300 * STEP - 1)), 0);
    assert_eq!(ra.auto_scale(size(800), span(0)), 0);
    assert_eq!(ra.auto_scale(span(u64::MAX), span(300 * STEP - 1)), 0);
}

#[test]
fn auto_scale_is_the_largest_scale_that_fits() {
    for (w, h) in SIZES {
        for (ww, wh) in WINDOWS {
            let ra = RenderArea2D::new(w, h, size(ww), size(wh));
            let s = ra.auto_scale(size(ww), size(wh)) as i64;
            assert!(s * w as i64 <= ww as i64);
            assert!(s * h as i64 <= wh as i64);
            if s < MAX_SCALE as i64 {
                assert!((s + 1) * w as i64 > ww as i64 || (s + 1) * h as i64 > wh as i64);
            }
        }
    }
}

#[test]
fn auto_scale_takes_the_smaller_ratio() {
    let ra = RenderArea2D::new(400, 300, size(800), size(600));
    assert_eq!(ra.auto_scale(size(1999), size(900)), 3);
    assert_eq!(ra.auto_scale(size(1200), size(1199)), 3);
    assert_eq!(ra.auto_scale(size(1600), size(1200)), 4);
    assert_eq!(ra.auto_scale(span(1600 * STEP - 1), size(1200)), 3);
    assert_eq!(ra.auto_scale(size(1600), span(1200 * STEP - 1)), 3);
}

#[test]
fn auto_scale_stops_at_the_largest_scale() {
    let ra = RenderArea2D::new(1, 1, size(300), size(300));
    assert_eq!(MAX_SCALE, 255);
    assert_eq!(ra.scale(), 255);
    assert_eq!(ra.auto_scale(size(255), size(255)), 255);
    assert_eq!(ra.auto_scale(size(254), size(255)), 254);
    assert_eq!(ra.auto_scale(size(256), size(256)), 255);
    assert_eq!(ra.auto_scale(span(u64::MAX), span(u64::MAX)), 255);
}

#[test]
fn new_fits_the_window() {
    assert_eq!(RenderArea2D::new(400, 300, size(1000), size(600)).scale(), 2);
    assert_eq!(RenderArea2D::new(400, 300, size(300), size(200)).scale(), 0);
    assert_eq!(RenderArea2D::new(400, 300, size(1200), size(900)).scale(), 3);
    let ra = RenderArea2D::new(401, 301, size(401), size(301));
    assert_eq!(ra.scale(), 1);
    assert_eq!((ra.width(), ra.height()), (401, 301));
}

#[test]
fn new_looks_at_the_exact_middle() {
    let ra = RenderArea2D::new(401, 301, size(401), size(301));
    assert_eq!(pair(ra.camera_target()), (200.5, 150.5));
    let ra = RenderArea2D::new(5, 3, size(0), size(0));
    assert_eq!(pair(ra.camera_target()), (2.5, 1.5));
    let (x, y) = ra.camera_target();
    assert_eq!((2 * x.num, 2 * y.num), (5 * x.den, 3 * y.den));
    assert_eq!((x.den, y.den), (UNIT, UNIT));
}

#[test]
fn target_is_the_exact_middle_of_the_surface() {
    assert_eq!(pair(target(400, 300)), (200.0, 150.0));
    assert_eq!(pair(target(5, 3)), (2.5, 1.5));
    assert_eq!(pair(target(1, 1)), (0.5, 0.5));
    assert_eq!(pair(target(65535, 2)), (32767.5, 1.0));
    assert_eq!(
        target(5, 3),
        (Ratio { num: 5 * UNIT / 2, den: UNIT }, Ratio { num: 3 * UNIT / 2, den: UNIT })
    );
}

#[test]
fn zoom_stays_two_over_the_size() {
    let mut ra = RenderArea2D::new(400, 300, size(800), size(600));
    let zoom = (Ratio { num: 2, den: 400 }, Ratio { num: 2, den: 300 });
    assert_eq!(
        ra.set(),
        Camera {
            target: (Ratio { num: 200 * UNIT, den: UNIT }, Ratio { num: 150 * UNIT, den: UNIT }),
            zoom
        }
    );
    ra.set_scale(9);
    assert_eq!(ra.set().zoom, zoom);
    ra.set_scale_auto(size(123), size(4567));
    assert_eq!(ra.set().zoom, zoom);
    ra.move_camera(whole(-70), steps(HALF));
    assert_eq!(ra.set().zoom, zoom);
    ra.center_camera(whole(1000), whole(-1000));
    assert_eq!(ra.set().zoom, zoom);
    assert_eq!(pair(ra.set().target), (1016.0, -984.0));
    assert_eq!((ra.width(), ra.height()), (400, 300));
}

#[test]
fn scale_reads_back_what_was_set() {
    let mut ra = RenderArea2D::new(400, 300, size(800), size(600));
    for k in [0u8, 1, 2, 100, 255] {
        ra.set_scale(k);
        assert_eq!(ra.scale(), k);
    }
    assert_eq!(pair(ra.camera_target()), (200.0, 150.0));
}

#[test]
fn set_scale_auto_stores_auto_scale() {
    let mut ra = RenderArea2D::new(400, 300, size(800), size(600));
    for (ww, wh) in WINDOWS {
        let expected = ra.auto_scale(size(ww), size(wh));
        ra.set_scale_auto(size(ww), size(wh));
        assert_eq!(ra.scale(), expected);
    }
}

#[test]
fn pointer_where_a_pixel_starts_gives_that_pixel() {
    for (ww, wh) in [(800, 600), (1001, 777), (500, 10), (0, 0)] {
        for s in [1u8, 2, 3, 7] {
            let mut ra = RenderArea2D::new(40, 30, size(ww), size(wh));
            ra.set_scale(s);
            let (x_off, y_off) = ra.screen_offset(size(ww), size(wh));
            assert_eq!((x_off.den, y_off.den), (2 * UNIT, 2 * UNIT));
            for vx in [0i64, 1, 17, 39] {
                for vy in [0i64, 5, 29] {
                    let mx = steps((x_off.num / 2) as i64 + vx * s as i64 * ONE);
                    let my = steps((y_off.num / 2) as i64 + vy * s as i64 * ONE);
                    let at = ra.mouse_position(size(ww), size(wh), mx, my);
                    assert_eq!(pair(at), (vx as f64, vy as f64));
                    assert_eq!((at.0.floor(), at.1.floor()), (vx as i128, vy as i128));
                }
            }
        }
    }
}

#[test]
fn pointer_on_a_block_rounds_down_to_its_pixel() {
    let mut ra = RenderArea2D::new(40, 30, size(1001), size(777));
    ra.set_scale(7);
    let (x_off, y_off) = ra.screen_offset(size(1001), size(777));
    for e in [0i64, 1, HALF, ONE, 7 * ONE - 1] {
        let mx = steps((x_off.num / 2) as i64 + 17 * 7 * ONE + e);
        let my = steps((y_off.num / 2) as i64 + 29 * 7 * ONE + (7 * ONE - 1 - e));
        let at = ra.mouse_position(size(1001), size(777), mx, my);
        assert_eq!((at.0.floor(), at.1.floor()), (17, 29));
    }
}

#[test]
fn pointer_position_keeps_its_fraction() {
    let ra = RenderArea2D::new(400, 300, size(800), size(600));
    let at = ra.mouse_position(size(800), size(600), whole(401), whole(301));
    assert_eq!(pair(at), (200.5, 150.5));
    assert_eq!(at.0, Ratio { num: 802 * UNIT, den: 4 * UNIT });
    assert_eq!(at.1, Ratio { num: 602 * UNIT, den: 4 * UNIT });
    let mut ra = RenderArea2D::new(400, 300, size(800), size(600));
    ra.set_scale(3);
    let at = ra.mouse_position(size(800), size(600), whole(-199), whole(-148));
    assert_eq!(at.0, Ratio { num: 2 * UNIT, den: 6 * UNIT });
    assert_eq!(at.1, Ratio { num: 4 * UNIT, den: 6 * UNIT });
    let at = ra.mouse_position(size(800), size(600), steps(HALF), steps(1));
    assert_eq!(at.0, Ratio { num: 401 * UNIT, den: 6 * UNIT });
    assert_eq!(at.1, Ratio { num: 300 * UNIT + 2, den: 6 * UNIT });
}

#[test]
fn pointer_uses_the_exact_screen_offset() {
    let ra = RenderArea2D::new(400, 300, size(801), size(603));
    assert_eq!(ra.scale(), 2);
    assert_eq!(pair(ra.mouse_position(size(801), size(603), whole(0), whole(0))), (-0.25, -0.75));
    assert_eq!(
        pair(ra.mouse_position(size(801), size(603), steps(HALF), steps(ONE + HALF))),
        (0.0, 0.0)
    );
    assert_eq!(pair(ra.mouse_position(size(801), size(603), whole(401), whole(301))), (200.25, 149.75));
}

#[test]
fn pointer_outside_the_area_gives_positions_outside_it() {
    let ra = RenderArea2D::new(400, 300, size(1000), size(600));
    assert_eq!(pair(ra.mouse_position(size(1000), size(600), whole(100), whole(0))), (0.0, 0.0));
    assert_eq!(pair(ra.mouse_position(size(1000), size(600), whole(99), whole(-1))), (-0.5, -0.5));
    assert_eq!(pair(ra.mouse_position(size(1000), size(600), whole(900), whole(600))), (400.0, 300.0));
    assert_eq!(pair(ra.mouse_position(size(1000), size(600), whole(0), whole(0))), (-50.0, 0.0));
    let at = ra.mouse_position(size(1000), size(600), whole(99), whole(-3));
    assert_eq!((at.0.floor(), at.1.floor()), (-1, -2));
}

#[test]
fn pointer_at_the_ends_of_the_range() {
    let mut ra = RenderArea2D::new(65535, 65535, size(0), size(0));
    ra.set_scale(255);
    let at = ra.mouse_position(span(0), span(u64::MAX), steps(i64::MAX), steps(i64::MIN));
    let shown = 65535 * 255 * UNIT;
    assert_eq!(at.0.num, 2 * i64::MAX as i128 - (0 - shown));
    assert_eq!(at.1.num, 2 * i64::MIN as i128 - (u64::MAX as i128 - shown));
    assert_eq!((at.0.den, at.1.den), (510 * UNIT, 510 * UNIT));
}

#[test]
fn world_pointer_is_screen_pointer_plus_camera_less_the_middle() {
    let mut ra = RenderArea2D::new(401, 301, size(1000), size(600));
    assert_eq!(ra.scale(), 1);
    ra.set_scale(2);
    for (dx, dy) in [(0, 0), (10 * ONE, -5 * ONE), (HALF, -HALF), (1, -1), (123456 * ONE, 7)] {
        ra.move_camera(steps(dx), steps(dy));
        let (tx, ty) = ra.camera_target();
        for (mx, my) in [(0, 0), (100 * ONE, 0), (500 * ONE + HALF, 300 * ONE), (-40, 7000)] {
            let on_screen = ra.mouse_position(size(1000), size(600), steps(mx), steps(my));
            let in_world = ra.mouse_position_cam(size(1000), size(600), steps(mx), steps(my));
            assert_eq!(in_world.0.den, on_screen.0.den);
            assert_eq!(in_world.1.den, on_screen.1.den);
            assert_eq!(in_world.0.num, on_screen.0.num + 2 * (2 * tx.num - 401 * UNIT));
            assert_eq!(in_world.1.num, on_screen.1.num + 2 * (2 * ty.num - 301 * UNIT));
        }
    }
}

#[test]
fn world_pointer_on_an_odd_surface() {
    let mut ra = RenderArea2D::new(5, 3, size(5), size(3));
    assert_eq!(ra.scale(), 1);
    assert_eq!(pair(ra.mouse_position_cam(size(5), size(3), whole(2), whole(1))), (2.0, 1.0));
    ra.center_camera(whole(0), whole(0));
    assert_eq!(pair(ra.mouse_position(size(5), size(3), whole(2), whole(1))), (2.0, 1.0));
    assert_eq!(pair(ra.mouse_position_cam(size(5), size(3), whole(2), whole(1))), (15.5, 15.5));
}

#[test]
fn world_pointer_follows_the_camera() {
    let mut ra = RenderArea2D::new(400, 300, size(800), size(600));
    assert_eq!(pair(ra.mouse_position_cam(size(800), size(600), whole(0), whole(0))), (0.0, 0.0));
    ra.center_camera(whole(0), whole(0));
    assert_eq!(pair(ra.mouse_position_cam(size(800), size(600), whole(400), whole(300))), (16.0, 16.0));
    assert_eq!(pair(ra.mouse_position_cam(size(800), size(600), whole(0), whole(0))), (-184.0, -134.0));
    ra.move_camera(whole(184), whole(134));
    assert_eq!(pair(ra.mouse_position_cam(size(800), size(600), whole(0), whole(0))), (0.0, 0.0));
    assert_eq!(pair(ra.mouse_position(size(800), size(600), whole(0), whole(0))), (0.0, 0.0));
}

#[test]
fn world_pointer_with_the_camera_at_the_ends_of_the_range() {
    let mut ra = RenderArea2D::new(65535, 1, size(0), size(0));
    ra.set_scale(255);
    for _ in 0..3 {
        ra.move_camera(steps(i64::MAX), steps(i64::MIN));
    }
    let at = ra.mouse_position_cam(span(0), span(u64::MAX), steps(i64::MAX), steps(i64::MIN));
    let (tx, ty) = ra.camera_target();
    assert_eq!(
        (tx.num, ty.num),
        (65535 * UNIT / 2 + 3 * i64::MAX as i128, UNIT / 2 + 3 * i64::MIN as i128)
    );
    let on_screen = ra.mouse_position(span(0), span(u64::MAX), steps(i64::MAX), steps(i64::MIN));
    assert_eq!(at.0.num, on_screen.0.num + 255 * (2 * tx.num - 65535 * UNIT));
    assert_eq!(at.1.num, on_screen.1.num + 255 * (2 * ty.num - UNIT));
}

#[test]
fn blit_is_centered() {
    for (ww, wh) in [(800 * STEP, 600 * STEP), (801 * STEP, 601 * STEP), (3 * STEP + 1, 5), (0, 1)] {
        for s in [0u8, 1, 2, 3] {
            let mut ra = RenderArea2D::new(400, 300, span(ww), span(wh));
            ra.set_scale(s);
            let blit = ra.draw(span(ww), span(wh));
            assert_eq!((blit.x.den, blit.y.den), (2 * UNIT, 2 * UNIT));
            // margins in steps of half the grid: after the area, and before it
            let right = 2 * ww as i128 - (blit.x.num + 2 * blit.width as i128 * UNIT);
            let bottom = 2 * wh as i128 - (blit.y.num + 2 * blit.height as i128 * UNIT);
            assert_eq!(right, blit.x.num);
            assert_eq!(bottom, blit.y.num);
        }
    }
}

#[test]
fn blit_has_the_scaled_size_and_keeps_colors() {
    let ra = RenderArea2D::new(400, 300, size(1000), size(700));
    let blit = ra.draw(size(1000), size(700));
    assert_eq!((number(blit.x), number(blit.y), blit.width, blit.height), (100.0, 50.0, 800, 600));
    assert_eq!(blit.tint, Rgba { r: 255, g: 255, b: 255, a: 255 });
    assert_eq!(blit.tint, Rgba::white());
    assert_eq!((blit.x, blit.y), ra.screen_offset(size(1000), size(700)));
}

#[test]
fn blit_with_an_odd_margin_starts_on_a_half() {
    let ra = RenderArea2D::new(400, 300, size(801), size(603));
    let blit = ra.draw(size(801), size(603));
    assert_eq!((number(blit.x), number(blit.y), blit.width, blit.height), (0.5, 1.5, 800, 600));
    assert_eq!(blit.x, Ratio { num: UNIT, den: 2 * UNIT });
    assert_eq!(blit.y, Ratio { num: 3 * UNIT, den: 2 * UNIT });
}

#[test]
fn blit_in_a_window_off_the_pixel_grid() {
    let ra = RenderArea2D::new(400, 300, span(800 * STEP + STEP / 2), span(600 * STEP + 1));
    assert_eq!(ra.scale(), 2);
    let blit = ra.draw(span(800 * STEP + STEP / 2), span(600 * STEP + 1));
    assert_eq!(number(blit.x), 0.25);
    assert_eq!(blit.y, Ratio { num: 1, den: 2 * UNIT });
}

#[test]
fn blit_may_be_larger_than_the_window() {
    let mut ra = RenderArea2D::new(400, 300, size(800), size(600));
    ra.set_scale(3);
    let blit = ra.draw(size(800), size(600));
    assert_eq!((number(blit.x), number(blit.y), blit.width, blit.height), (-200.0, -150.0, 1200, 900));
    assert_eq!(pair(ra.screen_offset(size(801), size(601))), (-199.5, -149.5));
    assert_eq!(pair(ra.screen_offset(size(799), size(599))), (-200.5, -150.5));
}

#[test]
fn blit_at_scale_zero_is_empty_in_the_middle_of_the_window() {
    let ra = RenderArea2D::new(400, 300, size(301), size(201));
    assert_eq!(ra.scale(), 0);
    let blit = ra.draw(size(301), size(201));
    assert_eq!((number(blit.x), number(blit.y), blit.width, blit.height), (150.5, 100.5, 0, 0));
}

#[test]
fn blit_at_the_largest_size() {
    let mut ra = RenderArea2D::new(65535, 65535, size(0), size(0));
    ra.set_scale(255);
    let blit = ra.draw(span(u64::MAX), span(0));
    assert_eq!((blit.width, blit.height), (16711425, 16711425));
    assert_eq!(blit.x.num, u64::MAX as i128 - 16711425 * UNIT);
    assert_eq!(blit.y.num, -16711425 * UNIT);
}

#[test]
fn move_by_zero_changes_nothing() {
    let mut ra = RenderArea2D::new(401, 300, size(800), size(600));
    ra.move_camera(whole(-3), steps(99));
    let before = ra.set();
    ra.move_camera(whole(0), whole(0));
    assert_eq!(ra.set(), before);
    assert_eq!(ra.scale(), 1);
}

#[test]
fn move_adds_fractions_of_a_pixel() {
    let mut ra = RenderArea2D::new(400, 300, size(800), size(600));
    let two_fifths = steps(1717986918);
    ra.move_camera(two_fifths, steps(-HALF));
    ra.move_camera(two_fifths, steps(-HALF));
    let (x, y) = ra.camera_target();
    assert_eq!(x, Ratio { num: 200 * UNIT + 2 * 1717986918, den: UNIT });
    assert_eq!(y, Ratio { num: 149 * UNIT, den: UNIT });
    ra.move_camera(steps(HALF), steps(HALF / 2));
    ra.move_camera(steps(HALF), steps(HALF / 2));
    assert_eq!(number(ra.camera_target().1), 149.5);
}

#[test]
fn center_twice_is_center_once() {
    let mut ra = RenderArea2D::new(400, 300, size(800), size(600));
    ra.center_camera(whole(-20), steps(40 * ONE + HALF));
    assert_eq!(pair(ra.camera_target()), (-4.0, 56.5));
    ra.center_camera(whole(-20), steps(40 * ONE + HALF));
    assert_eq!(pair(ra.camera_target()), (-4.0, 56.5));
    assert_eq!(CENTER_BIAS, 16);
}

#[test]
fn center_adds_the_bias_at_the_ends_of_the_range() {
    let mut ra = RenderArea2D::new(400, 300, size(800), size(600));
    for _ in 0..2 {
        ra.center_camera(steps(i64::MAX), steps(i64::MIN));
        let (x, y) = ra.camera_target();
        assert_eq!(x, Ratio { num: i64::MAX as i128 + 16 * UNIT, den: UNIT });
        assert_eq!(y, Ratio { num: i64::MIN as i128 + 16 * UNIT, den: UNIT });
    }
}

#[test]
fn camera_stops_at_the_ends_of_its_range() {
    assert_eq!(TARGET_LIMIT, 1i128 << 100);
    assert_eq!(add_clamped(1, 2), 3);
    assert_eq!(add_clamped(-5, 2), -3);
    assert_eq!(add_clamped(0, i64::MIN), i64::MIN as i128);
    assert_eq!(add_clamped(TARGET_LIMIT, 1), TARGET_LIMIT);
    assert_eq!(add_clamped(TARGET_LIMIT, -1), TARGET_LIMIT - 1);
    assert_eq!(add_clamped(TARGET_LIMIT - 5, i64::MAX), TARGET_LIMIT);
    assert_eq!(add_clamped(-TARGET_LIMIT, -1), -TARGET_LIMIT);
    assert_eq!(add_clamped(-TARGET_LIMIT + 5, i64::MIN), -TARGET_LIMIT);
    assert_eq!(add_clamped(-TARGET_LIMIT, i64::MAX), -TARGET_LIMIT + i64::MAX as i128);
    assert_eq!(add_clamped(i128::MAX, i64::MAX), TARGET_LIMIT);
    assert_eq!(add_clamped(i128::MAX, i64::MIN), TARGET_LIMIT);
    assert_eq!(add_clamped(i128::MIN, i64::MIN), -TARGET_LIMIT);
    assert_eq!(add_clamped(i128::MIN, i64::MAX), -TARGET_LIMIT);
    assert_eq!(add_clamped(TARGET_LIMIT + 5, -7), TARGET_LIMIT - 2);
}

#[test]
fn surface_has_the_virtual_size_and_nearest_sampling() {
    let ra = RenderArea2D::new(400, 300, size(800), size(600));
    assert_eq!(ra.surface(), Surface { width: 400, height: 300, filter: Filter::Nearest });
    let ra = RenderArea2D::new(65535, 1, size(0), size(0));
    assert_eq!(ra.surface(), Surface { width: 65535, height: 1, filter: Filter::Nearest });
}

#[test]
fn axis_helpers_give_exact_values() {
    assert_eq!(shown_extent(400, 2), 800);
    assert_eq!(shown_extent(65535, 255), 16711425);
    assert_eq!(shown_extent(0, 255), 0);
    assert_eq!(letterbox(400, 2, size(1000)), Ratio { num: 200 * UNIT, den: 2 * UNIT });
    assert_eq!(letterbox(400, 2, size(801)), Ratio { num: UNIT, den: 2 * UNIT });
    assert_eq!(letterbox(400, 2, size(799)), Ratio { num: -UNIT, den: 2 * UNIT });
    assert_eq!(to_surface(400, 2, size(1000), whole(500)), Ratio { num: 800 * UNIT, den: 4 * UNIT });
    assert_eq!(to_surface(400, 2, size(1000), whole(99)), Ratio { num: -2 * UNIT, den: 4 * UNIT });
}
