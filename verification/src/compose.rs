//! Masking the zoomed patch and laying it over the captured screen.

use crate::frame::{Frame, FrameView, Rgba};
use crate::shot::{bordered, generate_border, round_image, rounded};
use vstd::prelude::*;

verus! {

/// The mask that is put on the zoomed patch. Without a colour a border
/// leaves the patch as it is, and a circle has no ring.
#[derive(Clone, Copy, Debug, PartialEq, Eq, Structural)]
pub enum MaskSpec {
    /// The patch is left as it is.
    NoMask,
    /// Bands of the colour along the four edges.
    Border { thickness: u32, color: Option<Rgba> },
    /// A circular clip, with a ring of the colour across its radius.
    Circle { thickness: u32, color: Option<Rgba> },
}

/// The frame under the mask.
pub open spec fn masked(v: FrameView, mask: MaskSpec) -> FrameView {
    match mask {
        MaskSpec::NoMask => v,
        MaskSpec::Border { thickness, color: None } => v,
        MaskSpec::Border { thickness, color: Some(c) } => bordered(v, thickness as nat, c),
        MaskSpec::Circle { thickness, color } => rounded(v, thickness as nat, color),
    }
}

/// Puts the mask on the frame.
pub fn apply_mask(frame: Frame, mask: MaskSpec) -> (out: Frame)
    ensures
        out@ == masked(frame@, mask),
{
    match mask {
        MaskSpec::NoMask => frame,
        MaskSpec::Border { thickness, color } => {
            match color {
                None => frame,
                Some(c) => {
                    let mut frame = frame;
                    generate_border(&mut frame, thickness, c);
                    frame
                },
            }
        },
        MaskSpec::Circle { thickness, color } => round_image(&frame, thickness, color),
    }
}

/// What `image::Pixel::blend` makes of a pixel when a pixel that is neither
/// transparent nor opaque is laid over it.
pub uninterp spec fn blended(bottom: Rgba, top: Rgba) -> Rgba;

/// `top` laid over `bottom`: a transparent pixel leaves `bottom` as it is, an
/// opaque one replaces it, and any other is blended with it.
pub open spec fn alpha_over(bottom: Rgba, top: Rgba) -> Rgba {
    if top.a == 0 {
        bottom
    } else if top.a == 255 {
        top
    } else {
        blended(bottom, top)
    }
}

/// Calls `image::Pixel::blend` on two RGBA pixels of 8-bit channels. The
/// contract claims what the method's first two branches show: it leaves the
/// lower pixel unchanged under a transparent one and replaces it under an
/// opaque one. Of the blend in between it claims only that it is a function
/// of the two pixels.
#[verifier::external_body]
fn blend_pixel(bottom: Rgba, top: Rgba) -> (out: Rgba)
    ensures
        top.a == 0 ==> out == bottom,
        top.a == 255 ==> out == top,
        0 < top.a < 255 ==> out == blended(bottom, top),
{
    let mut p = image::Rgba([bottom.r, bottom.g, bottom.b, bottom.a]);
    image::Pixel::blend(&mut p, &image::Rgba([top.r, top.g, top.b, top.a]));
    Rgba { r: p.0[0], g: p.0[1], b: p.0[2], a: p.0[3] }
}

/// `top` laid over `bottom` with its corner at `(x, y)`: where `top` covers a
/// pixel of `bottom` the two are blended, and the rest of `bottom` stays. The
/// part of `top` that falls outside `bottom` is dropped.
pub open spec fn overlaid(bottom: FrameView, top: FrameView, x: int, y: int) -> FrameView {
    FrameView::from_fn(
        bottom.width,
        bottom.height,
        |bx: int, by: int|
            if top.contains(bx - x, by - y) {
                alpha_over(bottom.pixel(bx, by), top.pixel(bx - x, by - y))
            } else {
                bottom.pixel(bx, by)
            },
    )
}

/// `v` held between zero and `limit`.
fn clamp_to_side(v: i128, limit: u32) -> (out: u32)
    ensures
        v <= 0 ==> out == 0,
        0 < v < limit ==> out == v,
        v >= limit ==> out == limit,
{
    if v <= 0 {
        0
    } else if v >= limit as i128 {
        limit
    } else {
        v as u32
    }
}

/// Lays `top` over `bottom` with its corner at `(x, y)`, pixel by pixel with
/// alpha-over blending. What falls outside `bottom` is clipped.
pub fn overlay(bottom: &mut Frame, top: &Frame, x: i64, y: i64)
    ensures
        final(bottom)@ == overlaid(old(bottom)@, top@, x as int, y as int),
{
    let (bw, bh) = bottom.dimensions();
    let (tw, th) = top.dimensions();
    let ghost start = bottom@;
    let ghost goal = overlaid(start, top@, x as int, y as int);
    let x0: u32 = clamp_to_side(x as i128, bw);
    let x1: u32 = clamp_to_side(x as i128 + tw as i128, bw);
    let y0: u32 = clamp_to_side(y as i128, bh);
    let y1: u32 = clamp_to_side(y as i128 + th as i128, bh);
    let mut by: u32 = y0;
    while by < y1
        invariant
            y0 <= by,
            by <= y1 || by == y0,
            y1 <= bh,
            x1 <= bw,
            x0 < x1 ==> x <= x0 && x1 <= x + tw,
            y0 < y1 ==> y <= y0 && y1 <= y + th,
            start.wf(),
            top@.wf(),
            tw == top@.width,
            th == top@.height,
            bw == start.width,
            bh == start.height,
            bottom@.wf(),
            bottom@.width == bw,
            bottom@.height == bh,
            forall|xx: int, yy: int|
                0 <= xx < bw && 0 <= yy < bh ==> #[trigger] bottom@.pixel(xx, yy) == (if x0 <= xx
                    < x1 && y0 <= yy < by {
                    alpha_over(start.pixel(xx, yy), top@.pixel(xx - x, yy - y))
                } else {
                    start.pixel(xx, yy)
                }),
        decreases y1 - by,
    {
        let mut bx: u32 = x0;
        while bx < x1
            invariant
                y0 <= by < y1 <= bh,
                x0 <= bx,
                bx <= x1 || bx == x0,
                x1 <= bw,
                x0 < x1 ==> x <= x0 && x1 <= x + tw,
                y0 < y1 ==> y <= y0 && y1 <= y + th,
                start.wf(),
                top@.wf(),
                tw == top@.width,
                th == top@.height,
                bw == start.width,
                bh == start.height,
                bottom@.wf(),
                bottom@.width == bw,
                bottom@.height == bh,
                forall|xx: int, yy: int|
                    0 <= xx < bw && 0 <= yy < bh ==> #[trigger] bottom@.pixel(xx, yy) == (if (x0
                        <= xx < x1 && y0 <= yy < by) || (yy == by && x0 <= xx < bx) {
                        alpha_over(start.pixel(xx, yy), top@.pixel(xx - x, yy - y))
                    } else {
                        start.pixel(xx, yy)
                    }),
            decreases x1 - bx,
        {
            let p = top.get_pixel((bx as i128 - x as i128) as u32, (by as i128 - y as i128) as u32);
            let q = bottom.get_pixel(bx, by);
            bottom.put_pixel(bx, by, blend_pixel(q, p));
            bx += 1;
        }
        by += 1;
    }
    proof {
        bottom@.lemma_eq_by_pixels(goal);
    }
}

} // verus!
