use vstd::prelude::*;
use crate::viewport::{Viewport, frame_len};

verus! {

/// Index of the first byte of pixel (`px`, `py`) in a row-major frame that is
/// `width` pixels wide.
pub open spec fn pixel_offset(width: u32, px: u32, py: u32) -> int {
    (py as int * width as int + px as int) * 4
}

/// The red, green, blue and alpha bytes of pixel (`px`, `py`) of `frame`.
pub open spec fn pixel_rgba(frame: Seq<u8>, width: u32, px: u32, py: u32) -> (u8, u8, u8, u8) {
    let o = pixel_offset(width, px, py);
    (frame[o], frame[o + 1], frame[o + 2], frame[o + 3])
}

/// `frame` is the picture of `vp` that `shade` paints: four bytes for each
/// pixel, and each pixel holds the colour that `shade` gives for it, with
/// alpha 255.
pub open spec fn is_frame_of<N, P: Fn(Viewport<N>, u32, u32) -> (u8, u8, u8)>(
    vp: Viewport<N>,
    shade: P,
    frame: Seq<u8>,
) -> bool {
    &&& frame.len() == frame_len(vp.width, vp.height)
    &&& forall|px: u32, py: u32|
        px < vp.width && py < vp.height ==> {
            let p = #[trigger] pixel_rgba(frame, vp.width, px, py);
            &&& p.3 == 255
            &&& shade.ensures((vp, px, py), (p.0, p.1, p.2))
        }
}

/// A pixel that comes before (`px`, `py`) in row-major order ends before
/// the first byte of (`px`, `py`).
proof fn lemma_earlier_pixel(width: u32, qx: u32, qy: u32, px: u32, py: u32)
    requires
        qx < width,
        qy < py || (qy == py && qx < px),
    ensures
        pixel_offset(width, qx, qy) + 4 <= pixel_offset(width, px, py),
{
    let w = width as int;
    let a = qy as int;
    let b = py as int;
    if a < b {
        assert(a * w + w <= b * w) by (nonlinear_arith)
            requires
                a < b,
                0 <= w,
        ;
    }
}

/// Frame renderer: paints every pixel of `vp`, row by row from the top and
/// left to right in each row, with the colour that `shade` gives for it and
/// alpha 255.
pub fn render_frame<N: Copy, P: Fn(Viewport<N>, u32, u32) -> (u8, u8, u8)>(
    vp: Viewport<N>,
    shade: P,
) -> (frame: Vec<u8>)
    requires
        vp.frame_fits(),
        forall|px: u32, py: u32|
            px < vp.width && py < vp.height ==> #[trigger] shade.requires((vp, px, py)),
    ensures
        is_frame_of(vp, shade, frame@),
{
    let width = vp.width;
    let height = vp.height;
    let mut frame: Vec<u8> = Vec::new();
    let mut py: u32 = 0;
    while py < height
        invariant
            width == vp.width,
            height == vp.height,
            vp.frame_fits(),
            py <= height,
            frame@.len() == pixel_offset(width, 0, py),
            forall|qx: u32, qy: u32|
                qx < width && qy < py ==> {
                    let p = #[trigger] pixel_rgba(frame@, width, qx, qy);
                    &&& p.3 == 255
                    &&& shade.ensures((vp, qx, qy), (p.0, p.1, p.2))
                },
            forall|px: u32, py: u32|
                px < vp.width && py < vp.height ==> #[trigger] shade.requires((vp, px, py)),
        decreases height - py,
    {
        let mut px: u32 = 0;
        while px < width
            invariant
                width == vp.width,
                height == vp.height,
                vp.frame_fits(),
                py < height,
                px <= width,
                frame@.len() == pixel_offset(width, px, py),
                forall|qx: u32, qy: u32|
                    (qx < width && qy < py) || (qy == py && qx < px) ==> {
                        let p = #[trigger] pixel_rgba(frame@, width, qx, qy);
                        &&& p.3 == 255
                        &&& shade.ensures((vp, qx, qy), (p.0, p.1, p.2))
                    },
                forall|px: u32, py: u32|
                    px < vp.width && py < vp.height ==> #[trigger] shade.requires((vp, px, py)),
            decreases width - px,
        {
            let (r, g, b) = shade(vp, px, py);
            let ghost before = frame@;
            frame.push(r);
            frame.push(g);
            frame.push(b);
            frame.push(255);
            proof {
                assert forall|qx: u32, qy: u32|
                    (qx < width && qy < py) || (qy == py && qx <= px) implies {
                    let p = #[trigger] pixel_rgba(frame@, width, qx, qy);
                    &&& p.3 == 255
                    &&& shade.ensures((vp, qx, qy), (p.0, p.1, p.2))
                } by {
                    if qy != py || qx != px {
                        lemma_earlier_pixel(width, qx, qy, px, py);
                        assert(pixel_rgba(frame@, width, qx, qy) == pixel_rgba(
                            before,
                            width,
                            qx,
                            qy,
                        ));
                    }
                }
            }
            px = px + 1;
        }
        proof {
            let (w, y) = (width as int, py as int);
            assert((y * w + w) * 4 == ((y + 1) * w + 0) * 4) by (nonlinear_arith);
        }
        py = py + 1;
    }
    proof {
        let (w, h) = (width as int, height as int);
        assert((h * w + 0) * 4 == w * h * 4) by (nonlinear_arith);
    }
    frame
}

} // verus!
