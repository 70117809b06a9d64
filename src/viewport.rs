use vstd::prelude::*;

verus! {

/// The window of the complex plane that a frame shows, and the frame's size.
///
/// `N` is the type of plane coordinates. The horizontal extent is never stored:
/// it is `range * width / height`, so the aspect ratio always follows the
/// pixel dimensions.
#[derive(Copy)]
pub struct Viewport<N> {
    /// Real part of the point at the centre of the frame.
    pub center_x: N,
    /// Imaginary part of the point at the centre of the frame.
    pub center_y: N,
    /// Vertical extent of the visible window.
    pub range: N,
    /// Frame width in pixels.
    pub width: u32,
    /// Frame height in pixels.
    pub height: u32,
    /// Iteration budget for each pixel.
    pub max_iter: u32,
}

impl<N: Copy> Clone for Viewport<N> {
    fn clone(&self) -> (vp: Self)
        ensures
            vp == *self,
    {
        *self
    }
}

/// Frame width before a surface is bound.
pub const DEFAULT_WIDTH: u32 = 800;

/// Frame height before a surface is bound.
pub const DEFAULT_HEIGHT: u32 = 600;

/// Iteration budget of a new viewport.
pub const DEFAULT_MAX_ITER: u32 = 256;

/// Bytes of a frame of `width` by `height` pixels, four for each pixel.
pub open spec fn frame_len(width: u32, height: u32) -> nat {
    width as nat * height as nat * 4
}

impl<N: Copy> Viewport<N> {
    /// A viewport with the given window, dimensions and budget.
    pub fn new(center_x: N, center_y: N, range: N, width: u32, height: u32, max_iter: u32) -> (vp:
        Self)
        ensures
            vp.center_x == center_x,
            vp.center_y == center_y,
            vp.range == range,
            vp.width == width,
            vp.height == height,
            vp.max_iter == max_iter,
    {
        Viewport { center_x, center_y, range, width, height, max_iter }
    }

    /// A viewport on the given window with the default dimensions and budget.
    pub fn initial(center_x: N, center_y: N, range: N) -> (vp: Self)
        ensures
            vp.center_x == center_x,
            vp.center_y == center_y,
            vp.range == range,
            vp.width == DEFAULT_WIDTH,
            vp.height == DEFAULT_HEIGHT,
            vp.max_iter == DEFAULT_MAX_ITER,
    {
        Viewport {
            center_x,
            center_y,
            range,
            width: DEFAULT_WIDTH,
            height: DEFAULT_HEIGHT,
            max_iter: DEFAULT_MAX_ITER,
        }
    }

    /// The frame of this viewport can be held in memory: its byte length fits
    /// in `usize`.
    pub open spec fn frame_fits(&self) -> bool {
        frame_len(self.width, self.height) <= usize::MAX
    }

    /// Whether the frame of this viewport can be held in memory.
    pub fn fits_in_memory(&self) -> (b: bool)
        ensures
            b == self.frame_fits(),
    {
        let w: u128 = self.width as u128;
        let h: u128 = self.height as u128;
        assert(w * h <= 0xffff_ffff_ffff_ffffu128 * 0xffff_ffffu128) by (nonlinear_arith)
            requires
                w <= 0xffff_ffffu128,
                h <= 0xffff_ffffu128,
        ;
        w * h * 4 <= usize::MAX as u128
    }

    /// The same viewport, centred on (`center_x`, `center_y`) with vertical
    /// extent `range`; dimensions and budget are kept.
    pub fn with_window(self, center_x: N, center_y: N, range: N) -> (vp: Self)
        ensures
            vp.center_x == center_x,
            vp.center_y == center_y,
            vp.range == range,
            vp.width == self.width,
            vp.height == self.height,
            vp.max_iter == self.max_iter,
    {
        Viewport { center_x, center_y, range, ..self }
    }

    /// The same viewport resized to `width` by `height` pixels.
    pub fn with_size(self, width: u32, height: u32) -> (vp: Self)
        ensures
            vp.center_x == self.center_x,
            vp.center_y == self.center_y,
            vp.range == self.range,
            vp.width == width,
            vp.height == height,
            vp.max_iter == self.max_iter,
    {
        Viewport { width, height, ..self }
    }
}

} // verus!
