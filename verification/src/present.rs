//! Writing a frame into a surface of packed 32-bit pixels.

use crate::frame::{Frame, FrameView, Rgba};
use vstd::arithmetic::div_mod::{lemma_fundamental_div_mod, lemma_fundamental_div_mod_converse};
use vstd::prelude::*;

verus! {

/// A pixel as one 32-bit word: alpha in the top byte, then red, green, blue.
pub open spec fn packed(p: Rgba) -> u32 {
    (p.a * 0x100_0000 + p.r * 0x1_0000 + p.g * 0x100 + p.b) as u32
}

/// Packs a pixel into one word, `a << 24 | r << 16 | g << 8 | b`.
pub fn pack(p: Rgba) -> (word: u32)
    ensures
        word == packed(p),
{
    let (r, g, b, a) = (p.r, p.g, p.b, p.a);
    assert(((a as u32) << 24 | (r as u32) << 16 | (g as u32) << 8 | (b as u32)) == (a * 0x100_0000
        + r * 0x1_0000 + g * 0x100 + b) as u32) by (bit_vector);
    (a as u32) << 24 | (r as u32) << 16 | (g as u32) << 8 | (b as u32)
}

/// Whether the word at index `i` of a surface `surface_width` words wide
/// shows a pixel of the frame: the pixel in column `i % surface_width` of
/// row `i / surface_width`.
pub open spec fn shows(frame: FrameView, surface_width: nat, i: int) -> bool {
    surface_width > 0 && frame.contains(i % (surface_width as int), i / (surface_width as int))
}

/// The surface after the frame was written into it, row by row from its
/// first word: each word that shows a pixel of the frame holds that pixel
/// packed, and every other word is as before. Columns of the frame beyond
/// the surface's width, and rows beyond its length, are dropped.
pub open spec fn blitted(surface: Seq<u32>, frame: FrameView, surface_width: nat) -> Seq<u32> {
    Seq::new(
        surface.len(),
        |i: int|
            if shows(frame, surface_width, i) {
                packed(frame.pixel(i % (surface_width as int), i / (surface_width as int)))
            } else {
                surface[i]
            },
    )
}

/// Writes the frame into the surface: the pixel at `(x, y)` goes, packed, to
/// `surface[y * surface_width + x]`. A pixel whose column is not below
/// `surface_width`, or whose index is not below the surface's length, is
/// skipped; nothing is scaled.
pub fn blit(frame: &Frame, surface: &mut [u32], surface_width: u32)
    ensures
        final(surface)@ == blitted(old(surface)@, frame@, surface_width as nat),
{
    let (fw, fh) = frame.dimensions();
    let len: usize = surface.len();
    let ghost start = surface@;
    let ghost sw = surface_width as int;
    let cols: u32 = if fw <= surface_width {
        fw
    } else {
        surface_width
    };
    let mut y: u32 = 0;
    while y < fh
        invariant
            y <= fh,
            cols <= fw,
            cols <= surface_width,
            cols == fw || cols == surface_width,
            sw == surface_width,
            fw == frame@.width,
            fh == frame@.height,
            frame@.wf(),
            len == start.len(),
            surface@.len() == len,
            forall|i: int|
                0 <= i < len ==> #[trigger] surface@[i] == (if shows(frame@, sw as nat, i) && i
                    / sw < y {
                    packed(frame@.pixel(i % sw, i / sw))
                } else {
                    start[i]
                }),
        decreases fh - y,
    {
        let mut x: u32 = 0;
        while x < cols
            invariant
                x <= cols,
                y < fh,
                cols <= fw,
                cols <= surface_width,
                cols == fw || cols == surface_width,
                sw == surface_width,
                fw == frame@.width,
                fh == frame@.height,
                frame@.wf(),
                len == start.len(),
                surface@.len() == len,
                forall|i: int|
                    0 <= i < len ==> #[trigger] surface@[i] == (if shows(frame@, sw as nat, i) && (i
                        / sw < y || (i / sw == y && i % sw < x)) {
                        packed(frame@.pixel(i % sw, i / sw))
                    } else {
                        start[i]
                    }),
            decreases cols - x,
        {
            assert(y * surface_width <= 0xFFFF_FFFF * 0xFFFF_FFFF) by (nonlinear_arith)
                requires
                    0 <= y <= 0xFFFF_FFFF,
                    0 <= surface_width <= 0xFFFF_FFFF,
            ;
            let idx: u64 = y as u64 * surface_width as u64 + x as u64;
            let ghost before = surface@;
            if idx < len as u64 {
                let word = pack(frame.get_pixel(x, y));
                surface[idx as usize] = word;
            }
            proof {
                lemma_fundamental_div_mod_converse(idx as int, sw, y as int, x as int);
                assert forall|i: int| 0 <= i < len implies #[trigger] surface@[i] == (if shows(
                    frame@,
                    sw as nat,
                    i,
                ) && (i / sw < y || (i / sw == y && i % sw < x + 1)) {
                    packed(frame@.pixel(i % sw, i / sw))
                } else {
                    start[i]
                }) by {
                    if i != idx {
                        lemma_fundamental_div_mod(i, sw);
                        assert(sw * (i / sw) == (i / sw) * sw) by (nonlinear_arith);
                        assert(surface@[i] == before[i]);
                    }
                }
            }
            x += 1;
        }
        proof {
            assert forall|i: int| 0 <= i < len implies #[trigger] surface@[i] == (if shows(
                frame@,
                sw as nat,
                i,
            ) && i / sw < y + 1 {
                packed(frame@.pixel(i % sw, i / sw))
            } else {
                start[i]
            }) by {
                if sw > 0 {
                    lemma_fundamental_div_mod(i, sw);
                }
            }
        }
        y += 1;
    }
    assert(surface@ =~= blitted(start, frame@, surface_width as nat));
}

} // verus!
