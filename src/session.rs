use vstd::prelude::*;
use crate::frame::{is_frame_of, render_frame};
use crate::viewport::Viewport;

verus! {

/// Why an operation of a render session failed.
#[derive(Clone, Copy, Debug, PartialEq, Eq, Structural)]
pub enum RenderError {
    /// The display surface could not be bound: not found, without the needed
    /// drawing capability, or too large for its frame to be held in memory.
    HostBinding,
    /// A frame was asked for before any surface was bound.
    UninitializedSink,
    /// The surface rejected a completed frame, which was then discarded.
    BufferDelivery,
}

/// A display surface that frames are delivered to.
pub trait DrawableSurface {
    /// Presents a complete row-major RGBA frame of `width` by `height`
    /// pixels; returns false when the surface rejects it.
    fn deliver(&mut self, frame: &[u8], width: u32, height: u32) -> bool;
}

/// `shade` can be asked for the colour of any pixel of any viewport.
pub open spec fn paints_every_viewport<N, P: Fn(Viewport<N>, u32, u32) -> (u8, u8, u8)>(
    shade: P,
) -> bool {
    forall|vp: Viewport<N>, px: u32, py: u32| #[trigger] shade.requires((vp, px, py))
}

/// The state of one rendering session: the current viewport and, once bound,
/// the surface that frames go to. Operations on a session run one at a time,
/// each to completion.
pub struct Session<N, S> {
    /// The viewport that the next frame shows.
    pub viewport: Viewport<N>,
    /// The bound surface; `None` until `init` succeeds.
    pub surface: Option<S>,
    /// Every frame handed to the surface so far, in order.
    pub handed: Ghost<Seq<Seq<u8>>>,
}

impl<N, S> Session<N, S> {
    /// `after` is this session after one render of its viewport with `shade`
    /// that returned `r`. Without a surface: `UninitializedSink`, and nothing
    /// is computed or handed on. With one: the complete frame of the viewport
    /// is handed to the surface, which stays bound, and `r` tells whether the
    /// surface accepted it.
    pub open spec fn renders_to<P: Fn(Viewport<N>, u32, u32) -> (u8, u8, u8)>(
        self,
        shade: P,
        after: Self,
        r: Result<(), RenderError>,
    ) -> bool {
        &&& after.viewport == self.viewport
        &&& self.surface is None ==> {
            &&& r == Err::<(), RenderError>(RenderError::UninitializedSink)
            &&& after.surface is None
            &&& after.handed@ == self.handed@
        }
        &&& self.surface is Some ==> {
            &&& after.surface is Some
            &&& r == Ok::<(), RenderError>(()) || r == Err::<(), RenderError>(
                RenderError::BufferDelivery,
            )
            &&& after.handed@.len() == self.handed@.len() + 1
            &&& after.handed@.drop_last() == self.handed@
            &&& is_frame_of(self.viewport, shade, after.handed@.last())
        }
    }
}

impl<N: Copy, S: DrawableSurface> Session<N, S> {
    /// A session on `viewport` with no surface bound.
    pub fn new(viewport: Viewport<N>) -> (s: Self)
        ensures
            s.viewport == viewport,
            s.surface is None,
            s.handed@ == Seq::<Seq<u8>>::empty(),
    {
        Session { viewport, surface: None, handed: Ghost(Seq::empty()) }
    }

    /// Renders one full frame of the current viewport with `shade` and
    /// delivers it to the bound surface. Without a bound surface it fails with
    /// `UninitializedSink` and changes nothing; when the surface rejects the
    /// frame it fails with `BufferDelivery`.
    pub fn render<P: Fn(Viewport<N>, u32, u32) -> (u8, u8, u8)>(&mut self, shade: P) -> (r: Result<
        (),
        RenderError,
    >)
        requires
            old(self).viewport.frame_fits(),
            paints_every_viewport(shade),
        ensures
            old(self).renders_to(shade, *final(self), r),
    {
        match self.surface.take() {
            None => Err(RenderError::UninitializedSink),
            Some(mut surface) => {
                let frame = render_frame(self.viewport, shade);
                let accepted = surface.deliver(
                    frame.as_slice(),
                    self.viewport.width,
                    self.viewport.height,
                );
                self.surface = Some(surface);
                proof {
                    self.handed@ = self.handed@.push(frame@);
                    assert(self.handed@.drop_last() =~= old(self).handed@);
                }
                if accepted {
                    Ok(())
                } else {
                    Err(RenderError::BufferDelivery)
                }
            },
        }
    }

    /// Binds `surface`, of `width` by `height` pixels, takes its dimensions
    /// into the viewport and renders a first frame. A surface whose frame
    /// could not be held in memory is refused with `HostBinding`, and the
    /// session is left as it was.
    pub fn init<P: Fn(Viewport<N>, u32, u32) -> (u8, u8, u8)>(
        &mut self,
        surface: S,
        width: u32,
        height: u32,
        shade: P,
    ) -> (r: Result<(), RenderError>)
        requires
            paints_every_viewport(shade),
        ensures
            ({
                let vp = Viewport { width, height, ..old(self).viewport };
                &&& !vp.frame_fits() ==> r == Err::<(), RenderError>(RenderError::HostBinding)
                    && *final(self) == *old(self)
                &&& vp.frame_fits() ==> (Session {
                    viewport: vp,
                    surface: Some(surface),
                    handed: old(self).handed,
                }).renders_to(shade, *final(self), r)
            }),
    {
        let sized = self.viewport.with_size(width, height);
        if !sized.fits_in_memory() {
            return Err(RenderError::HostBinding);
        }
        self.viewport = sized;
        self.surface = Some(surface);
        self.render(shade)
    }

    /// Zooms on pixel (`x`, `y`) by `zoom_factor` and renders. `retarget`
    /// gives the new centre and vertical extent from the current viewport;
    /// they replace the old ones, dimensions and budget are kept, and the
    /// frame is rendered as by `render`, with the same failures.
    pub fn zoom_at<
        M: Fn(Viewport<N>, N, N, N) -> (N, N, N),
        P: Fn(Viewport<N>, u32, u32) -> (u8, u8, u8),
    >(&mut self, x: N, y: N, zoom_factor: N, retarget: M, shade: P) -> (r: Result<
        (),
        RenderError,
    >)
        requires
            old(self).viewport.frame_fits(),
            retarget.requires((old(self).viewport, x, y, zoom_factor)),
            paints_every_viewport(shade),
        ensures
            retarget.ensures(
                (old(self).viewport, x, y, zoom_factor),
                (
                    final(self).viewport.center_x,
                    final(self).viewport.center_y,
                    final(self).viewport.range,
                ),
            ),
            final(self).viewport.width == old(self).viewport.width,
            final(self).viewport.height == old(self).viewport.height,
            final(self).viewport.max_iter == old(self).viewport.max_iter,
            (Session {
                viewport: final(self).viewport,
                surface: old(self).surface,
                handed: old(self).handed,
            }).renders_to(shade, *final(self), r),
    {
        let (center_x, center_y, range) = retarget(self.viewport, x, y, zoom_factor);
        self.viewport = self.viewport.with_window(center_x, center_y, range);
        self.render(shade)
    }
}

} // verus!
