use mandelbrot::color::get_color;
use mandelbrot::escape::escape_time;
use mandelbrot::frame::render_frame;
use mandelbrot::session::{DrawableSurface, RenderError, Session};
use mandelbrot::viewport::{Viewport, DEFAULT_HEIGHT, DEFAULT_MAX_ITER, DEFAULT_WIDTH};

/// A surface that keeps every frame it accepts.
struct MemorySurface {
    accept: bool,
    frames: Vec<(Vec<u8>, u32, u32)>,
}

impl MemorySurface {
    fn new(accept: bool) -> Self {
        MemorySurface { accept, frames: Vec::new() }
    }
}

impl DrawableSurface for MemorySurface {
    fn deliver(&mut self, frame: &[u8], width: u32, height: u32) -> bool {
        if !self.accept || frame.len() != (width as usize) * (height as usize) * 4 {
            return false;
        }
        self.frames.push((frame.to_vec(), width, height));
        true
    }
}

fn count(re0: f64, im0: f64, max_iter: u32) -> u32 {
    escape_time(
        (0.0f64, 0.0f64),
        max_iter,
        |z: (f64, f64)| z.0 * z.0 + z.1 * z.1 > 4.0,
        move |z: (f64, f64)| (z.0 * z.0 - z.1 * z.1 + re0, 2.0 * z.0 * z.1 + im0),
    )
}

fn gradient(iter: u32, max_iter: u32) -> (u8, u8, u8) {
    let t = (iter as f64 / max_iter as f64).powf(0.5);
    let r = (9.0 * (1.0 - t) * t * t * t * 255.0) as u8;
    let g = (15.0 * (1.0 - t) * (1.0 - t) * t * t * 255.0) as u8;
    let b = (8.5 * (1.0 - t) * (1.0 - t) * (1.0 - t) * t * 255.0) as u8;
    (r, g, b)
}

fn map_pixel(px: f64, py: f64, vp: &Viewport<f64>) -> (f64, f64) {
    let w = vp.width as f64;
    let h = vp.height as f64;
    let range_x = vp.range * (w / h);
    ((px / w - 0.5) * range_x + vp.center_x, (0.5 - py / h) * vp.range + vp.center_y)
}

fn shade(vp: Viewport<f64>, px: u32, py: u32) -> (u8, u8, u8) {
    let (re, im) = map_pixel(px as f64, py as f64, &vp);
    get_color(count(re, im, vp.max_iter), vp.max_iter, gradient)
}

fn default_viewport() -> Viewport<f64> {
    Viewport::initial(-0.5, 0.0, 3.0)
}

#[test]
fn origin_uses_whole_budget() {
    for max_iter in [0u32, 1, 2, 256, 1000] {
        assert_eq!(count(0.0, 0.0, max_iter), max_iter);
    }
}

#[test]
fn divergent_point_escapes_at_once() {
    // The orbit starts at 0, which is inside; its next state (2, 2) is the
    // first one outside, so the count is 1.
    assert_eq!(count(2.0, 2.0, 256), 1);
    assert_eq!(count(2.0, 2.0, 1), 1);
    assert_eq!(count(2.0, 2.0, 0), 0);
}

#[test]
fn escaped_start_counts_zero() {
    let n = escape_time(5i64, 10, |z: i64| z > 4, |z: i64| z + 1);
    assert_eq!(n, 0);
    let n = escape_time(0i64, 10, |z: i64| z > 4, |z: i64| z + 1);
    assert_eq!(n, 5);
    let n = escape_time(0i64, 10, |z: i64| z > 4, |z: i64| z);
    assert_eq!(n, 10);
}

#[test]
fn escape_count_of_one() {
    // 0, 1, 2, 5: the state 5 is the first outside radius 2.
    assert_eq!(count(1.0, 0.0, 10), 3);
    assert_eq!(count(1.0, 0.0, 3), 3);
    assert_eq!(count(1.0, 0.0, 2), 2);
}

#[test]
fn escape_count_within_budget_and_repeatable() {
    let points = [(-0.75, 0.1), (0.3, 0.5), (-2.0, 0.0), (0.26, 0.0), (-1.5, 1.5)];
    for (re, im) in points {
        let a = count(re, im, 64);
        let b = count(re, im, 64);
        assert!(a <= 64);
        assert_eq!(a, b);
    }
}

#[test]
fn in_set_count_is_black() {
    for max_iter in [1u32, 7, 256] {
        assert_eq!(get_color(max_iter, max_iter, gradient), (0, 0, 0));
        assert_eq!(get_color(max_iter, max_iter, |_: u32, _: u32| (9u8, 9u8, 9u8)), (0, 0, 0));
    }
}

#[test]
fn escaped_count_uses_gradient() {
    assert_eq!(get_color(3, 10, |i: u32, m: u32| (i as u8, m as u8, 1u8)), (3, 10, 1));
    assert_eq!(get_color(0, 256, gradient), (0, 0, 0));
    // t = 0.5: r = 9 * 0.5^4 * 255 = 143.4, g = 15 * 0.5^4 * 255 = 239.06,
    // b = 8.5 * 0.5^4 * 255 = 135.47, each truncated.
    assert_eq!(get_color(64, 256, gradient), (143, 239, 135));
}

#[test]
fn color_is_repeatable() {
    for iter in 0..256u32 {
        assert_eq!(get_color(iter, 256, gradient), get_color(iter, 256, gradient));
    }
}

#[test]
fn frame_layout_is_row_major_rgba() {
    let vp = Viewport::new(0u8, 0u8, 0u8, 3, 2, 5);
    let frame = render_frame(vp, |_: Viewport<u8>, px: u32, py: u32| {
        (px as u8, py as u8, (10 * py + px) as u8)
    });
    assert_eq!(frame.len(), 3 * 2 * 4);
    for py in 0..2u32 {
        for px in 0..3u32 {
            let o = ((py * 3 + px) * 4) as usize;
            assert_eq!(&frame[o..o + 4], &[px as u8, py as u8, (10 * py + px) as u8, 255]);
        }
    }
}

#[test]
fn empty_frame() {
    let frame = render_frame(Viewport::new(0u8, 0u8, 0u8, 0, 5, 5), |_: Viewport<u8>, _: u32, _: u32| {
        (1u8, 1u8, 1u8)
    });
    assert!(frame.is_empty());
    let frame = render_frame(Viewport::new(0u8, 0u8, 0u8, 5, 0, 5), |_: Viewport<u8>, _: u32, _: u32| {
        (1u8, 1u8, 1u8)
    });
    assert!(frame.is_empty());
}

#[test]
fn defaults() {
    let vp = default_viewport();
    assert_eq!((vp.width, vp.height, vp.max_iter), (800, 600, 256));
    assert_eq!((DEFAULT_WIDTH, DEFAULT_HEIGHT, DEFAULT_MAX_ITER), (800, 600, 256));
    assert_eq!((vp.center_x, vp.center_y, vp.range), (-0.5, 0.0, 3.0));
}

#[test]
fn frame_size_limits() {
    assert!(Viewport::new(0u8, 0u8, 0u8, 800, 600, 1).fits_in_memory());
    assert!(Viewport::new(0u8, 0u8, 0u8, 0, u32::MAX, 1).fits_in_memory());
    assert!(!Viewport::new(0u8, 0u8, 0u8, u32::MAX, u32::MAX, 1).fits_in_memory());
}

#[test]
fn render_before_init_fails() {
    let mut session: Session<f64, MemorySurface> = Session::new(default_viewport());
    let r = session.render(|_: Viewport<f64>, _: u32, _: u32| -> (u8, u8, u8) {
        panic!("no frame may be computed without a surface")
    });
    assert_eq!(r, Err(RenderError::UninitializedSink));
    assert!(session.surface.is_none());
}

#[test]
fn zoom_before_init_fails() {
    let mut session: Session<f64, MemorySurface> = Session::new(default_viewport());
    let r = session.zoom_at(
        1.0,
        2.0,
        3.0,
        |_: Viewport<f64>, _: f64, _: f64, _: f64| (0.25, 0.5, 1.0),
        |_: Viewport<f64>, _: u32, _: u32| -> (u8, u8, u8) { panic!("no surface") },
    );
    assert_eq!(r, Err(RenderError::UninitializedSink));
    assert_eq!(session.viewport.center_x, 0.25);
}

#[test]
fn init_renders_default_view() {
    let mut session = Session::new(default_viewport());
    assert_eq!(session.init(MemorySurface::new(true), 800, 600, shade), Ok(()));
    let surface = session.surface.as_ref().unwrap();
    assert_eq!(surface.frames.len(), 1);
    let (frame, w, h) = &surface.frames[0];
    assert_eq!((*w, *h), (800, 600));
    assert_eq!(frame.len(), 800 * 600 * 4);
    let o = (300 * 800 + 400) * 4;
    assert_eq!(&frame[o..o + 4], &[0, 0, 0, 255]);
    assert!(frame.chunks(4).all(|p| p[3] == 255));
}

#[test]
fn init_takes_surface_size() {
    let mut session = Session::new(default_viewport());
    assert_eq!(session.init(MemorySurface::new(true), 40, 30, shade), Ok(()));
    assert_eq!((session.viewport.width, session.viewport.height), (40, 30));
    assert_eq!(session.surface.as_ref().unwrap().frames[0].0.len(), 40 * 30 * 4);
}

#[test]
fn rejected_frame_is_delivery_error() {
    let mut session = Session::new(default_viewport());
    assert_eq!(
        session.init(MemorySurface::new(false), 8, 6, shade),
        Err(RenderError::BufferDelivery)
    );
    assert!(session.surface.is_some());
    assert_eq!(session.render(shade), Err(RenderError::BufferDelivery));
}

#[test]
fn oversized_surface_is_refused() {
    let mut session = Session::new(default_viewport());
    let r = session.init(MemorySurface::new(true), u32::MAX, u32::MAX, shade);
    assert_eq!(r, Err(RenderError::HostBinding));
    assert!(session.surface.is_none());
    assert_eq!((session.viewport.width, session.viewport.height), (800, 600));
}

#[test]
fn zoom_on_center_keeps_center_and_halves_range() {
    let mut session = Session::new(default_viewport());
    assert_eq!(session.init(MemorySurface::new(true), 80, 60, shade), Ok(()));
    let retarget = |vp: Viewport<f64>, x: f64, y: f64, f: f64| {
        let (re, im) = map_pixel(x, y, &vp);
        (re, im, vp.range / f)
    };
    assert_eq!(session.zoom_at(40.0, 30.0, 2.0, retarget, shade), Ok(()));
    let vp = session.viewport;
    assert_eq!((vp.center_x, vp.center_y, vp.range), (-0.5, 0.0, 1.5));
    assert_eq!((vp.width, vp.height, vp.max_iter), (80, 60, 256));
    assert_eq!(session.surface.as_ref().unwrap().frames.len(), 2);
}

#[test]
fn zoom_applies_new_window() {
    let mut session = Session::new(Viewport::new(0i64, 0i64, 100i64, 4, 4, 8));
    let flat = |_: Viewport<i64>, _: u32, _: u32| (1u8, 2u8, 3u8);
    assert_eq!(session.init(MemorySurface::new(true), 4, 4, flat), Ok(()));
    let r = session.zoom_at(3, 1, 4, |vp: Viewport<i64>, x: i64, y: i64, f: i64| {
        (vp.center_x + x, vp.center_y - y, vp.range / f)
    }, flat);
    assert_eq!(r, Ok(()));
    assert_eq!((session.viewport.center_x, session.viewport.center_y, session.viewport.range), (3, -1, 25));
    let frames = &session.surface.as_ref().unwrap().frames;
    assert_eq!(frames.len(), 2);
    assert_eq!(&frames[1].0[0..4], &[1, 2, 3, 255]);
}
