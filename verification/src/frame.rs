//! Pixels and frames: an owned RGBA buffer with its width and height.

use vstd::arithmetic::div_mod::{
    lemma_div_pos_is_pos, lemma_fundamental_div_mod, lemma_mod_bound, lemma_multiply_divide_lt,
};
use vstd::prelude::*;

verus! {

/// One pixel: red, green, blue and alpha, alpha not premultiplied.
#[derive(Clone, Copy, Debug, PartialEq, Eq, Structural)]
pub struct Rgba {
    pub r: u8,
    pub g: u8,
    pub b: u8,
    pub a: u8,
}

impl Rgba {
    /// The pixel that a new frame is filled with: all four channels zero.
    pub open spec fn transparent() -> Rgba {
        Rgba { r: 0, g: 0, b: 0, a: 0 }
    }

    /// Channel `c` of the pixel, in the order red, green, blue, alpha.
    pub open spec fn channel(self, c: int) -> u8 {
        if c == 0 {
            self.r
        } else if c == 1 {
            self.g
        } else if c == 2 {
            self.b
        } else {
            self.a
        }
    }
}

/// What a frame is: its size and its pixels, row by row from the top.
#[verifier::ext_equal]
pub struct FrameView {
    pub width: nat,
    pub height: nat,
    pub rows: Seq<Seq<Rgba>>,
}

impl FrameView {
    /// There are `height` rows of `width` pixels each, and both fit in `u32`.
    pub open spec fn wf(self) -> bool {
        &&& self.width <= u32::MAX
        &&& self.height <= u32::MAX
        &&& self.rows.len() == self.height
        &&& forall|y: int| 0 <= y < self.height ==> (#[trigger] self.rows[y]).len() == self.width
    }

    /// Whether `(x, y)` is a pixel of the frame.
    pub open spec fn contains(self, x: int, y: int) -> bool {
        0 <= x < self.width && 0 <= y < self.height
    }

    /// The pixel in column `x` of row `y`.
    pub open spec fn pixel(self, x: int, y: int) -> Rgba
        recommends
            self.contains(x, y),
    {
        self.rows[y][x]
    }

    /// The frame of the given size whose pixel at `(x, y)` is `f(x, y)`.
    pub open spec fn from_fn(width: nat, height: nat, f: spec_fn(int, int) -> Rgba) -> FrameView {
        FrameView {
            width,
            height,
            rows: Seq::new(height, |y: int| Seq::new(width, |x: int| f(x, y))),
        }
    }

    /// The frame of the given size with every pixel transparent.
    pub open spec fn blank(width: nat, height: nat) -> FrameView {
        FrameView::from_fn(width, height, |x: int, y: int| Rgba::transparent())
    }

    /// The same frame with the pixel at `(x, y)` replaced by `color`.
    pub open spec fn put(self, x: int, y: int, color: Rgba) -> FrameView
        recommends
            self.contains(x, y),
    {
        FrameView { rows: self.rows.update(y, self.rows[y].update(x, color)), ..self }
    }

    /// Two well-formed frames of one size with the same pixels are equal.
    pub proof fn lemma_eq_by_pixels(self, other: FrameView)
        requires
            self.wf(),
            other.wf(),
            self.width == other.width,
            self.height == other.height,
            forall|x: int, y: int|
                self.contains(x, y) ==> #[trigger] self.pixel(x, y) == other.pixel(x, y),
        ensures
            self == other,
    {
        assert forall|y: int| 0 <= y < self.height implies #[trigger] self.rows[y]
            =~= other.rows[y] by {
            assert forall|x: int| 0 <= x < self.width implies #[trigger] self.rows[y][x]
                == other.rows[y][x] by {
                assert(self.pixel(x, y) == other.pixel(x, y));
            }
        }
        assert(self =~~= other);
    }

    /// The frame as bytes: row by row from the top, four bytes to a pixel in
    /// the order red, green, blue, alpha.
    pub open spec fn to_bytes(self) -> Seq<u8> {
        Seq::new(
            4 * (self.width * self.height),
            |k: int|
                self.pixel((k / 4) % (self.width as int), (k / 4) / (self.width as int)).channel(
                    k % 4,
                ),
        )
    }

    /// The pixel that starts at byte `4 * i` of an RGBA byte buffer.
    pub open spec fn pixel_of_bytes(bytes: Seq<u8>, i: int) -> Rgba {
        Rgba { r: bytes[4 * i], g: bytes[4 * i + 1], b: bytes[4 * i + 2], a: bytes[4 * i + 3] }
    }

    /// The frame that a row-major RGBA byte buffer of length
    /// `4 * width * height` holds.
    pub open spec fn from_bytes(width: nat, height: nat, bytes: Seq<u8>) -> FrameView {
        FrameView::from_fn(
            width,
            height,
            |x: int, y: int| FrameView::pixel_of_bytes(bytes, y * width + x),
        )
    }
}

/// An owned RGBA pixel buffer with its width and height.
pub struct Frame {
    pub(crate) width: u32,
    pub(crate) height: u32,
    pub(crate) data: Vec<u8>,
}

impl View for Frame {
    type V = FrameView;

    closed spec fn view(&self) -> FrameView {
        FrameView::from_bytes(self.width as nat, self.height as nat, self.data@)
    }
}

/// Whether a frame of this size has a buffer that the machine can address.
pub open spec fn frame_fits(width: nat, height: nat) -> bool {
    4 * (width * height) <= isize::MAX
}

/// A frame no larger than one that fits also fits.
pub(crate) proof fn lemma_frame_fits_smaller(w1: nat, h1: nat, w2: nat, h2: nat)
    requires
        w1 <= w2,
        h1 <= h2,
        frame_fits(w2, h2),
    ensures
        frame_fits(w1, h1),
{
    assert(w1 * h1 <= w2 * h2) by (nonlinear_arith)
        requires
            w1 <= w2,
            h1 <= h2,
    ;
}

/// A frame turned by a quarter fits where the frame does.
pub(crate) proof fn lemma_frame_fits_swapped(w: nat, h: nat)
    requires
        frame_fits(w, h),
    ensures
        frame_fits(h, w),
{
    assert(w * h == h * w) by (nonlinear_arith);
}

/// A row-major index stays below `w * h`.
pub(crate) proof fn lemma_index(x: int, y: int, w: int, h: int)
    requires
        0 <= x < w,
        0 <= y < h,
    ensures
        0 <= y * w + x < w * h,
        0 <= y * w <= w * h - w,
{
    assert(y * w + w <= h * w) by (nonlinear_arith)
        requires
            0 <= y < h,
            0 < w,
    ;
    assert(0 <= y * w) by (nonlinear_arith)
        requires
            0 <= y,
            0 < w,
    ;
    assert(h * w == w * h) by (nonlinear_arith);
}

/// Pixels of different rows have different row-major indices.
proof fn lemma_index_distinct(x1: int, y1: int, x2: int, y2: int, w: int)
    requires
        0 <= x1 < w,
        0 <= x2 < w,
        y1 != y2,
    ensures
        y1 * w + x1 != y2 * w + x2,
{
    if y1 < y2 {
        assert(y1 * w + w <= y2 * w) by (nonlinear_arith)
            requires
                y1 < y2,
                0 < w,
        ;
    } else {
        assert(y2 * w + w <= y1 * w) by (nonlinear_arith)
            requires
                y2 < y1,
                0 < w,
        ;
    }
}

/// A buffer of zeros of the right length holds the blank frame.
proof fn lemma_blank_bytes(width: nat, height: nat, bytes: Seq<u8>)
    requires
        bytes.len() == 4 * (width * height),
        forall|i: int| 0 <= i < bytes.len() ==> bytes[i] == 0,
    ensures
        FrameView::from_bytes(width, height, bytes) == FrameView::blank(width, height),
{
    let v = FrameView::from_bytes(width, height, bytes);
    assert forall|y: int, x: int| 0 <= y < height && 0 <= x < width implies #[trigger] v.rows[y][x]
        == Rgba::transparent() by {
        lemma_index(x, y, width as int, height as int);
    }
    assert(v =~~= FrameView::blank(width, height));
}

/// Reading a buffer as a frame and writing the frame out as bytes gives the
/// buffer back.
pub proof fn lemma_bytes_round_trip(width: nat, height: nat, bytes: Seq<u8>)
    requires
        bytes.len() == 4 * (width * height),
    ensures
        FrameView::from_bytes(width, height, bytes).to_bytes() == bytes,
{
    let v = FrameView::from_bytes(width, height, bytes);
    let w = width as int;
    assert forall|k: int| 0 <= k < bytes.len() implies #[trigger] v.to_bytes()[k] == bytes[k] by {
        let i = k / 4;
        assert(0 <= i < w * height && 4 * i + k % 4 == k);
        assert(w > 0) by (nonlinear_arith)
            requires
                0 <= i < w * height,
                0 <= w,
        ;
        lemma_fundamental_div_mod(i, w);
        lemma_mod_bound(i, w);
        lemma_div_pos_is_pos(i, w);
        lemma_multiply_divide_lt(i, w, height as int);
        assert(w * (i / w) == (i / w) * w) by (nonlinear_arith);
        assert(v.pixel(i % w, i / w) == FrameView::pixel_of_bytes(bytes, i));
    }
    assert(v.to_bytes() =~= bytes);
}

/// The number of pixels of a frame of the given size.
pub fn pixel_count(width: u32, height: u32) -> (n: u64)
    ensures
        n == width * height,
{
    assert(width * height <= 0xFFFF_FFFF * 0xFFFF_FFFF) by (nonlinear_arith)
        requires
            0 <= width <= 0xFFFF_FFFF,
            0 <= height <= 0xFFFF_FFFF,
    ;
    width as u64 * height as u64
}

impl Frame {
    #[verifier::type_invariant]
    closed spec fn inv(&self) -> bool {
        &&& self.data.len() == 4 * (self.width * self.height)
        &&& frame_fits(self.width as nat, self.height as nat)
    }

    /// The width in pixels.
    pub fn width(&self) -> (w: u32)
        ensures
            w == self@.width,
    {
        self.width
    }

    /// The height in pixels.
    pub fn height(&self) -> (h: u32)
        ensures
            h == self@.height,
    {
        self.height
    }

    /// Every frame's view is well formed.
    pub proof fn lemma_view_wf(&self)
        ensures
            self@.wf(),
    {
    }

    /// Both dimensions, width first. A frame that exists has a well-formed
    /// view and a buffer that the machine can address.
    pub fn dimensions(&self) -> (d: (u32, u32))
        ensures
            d.0 == self@.width,
            d.1 == self@.height,
            self@.wf(),
            frame_fits(self@.width, self@.height),
    {
        proof {
            use_type_invariant(self);
        }
        (self.width, self.height)
    }

    /// A transparent frame of the same size as this one.
    pub fn blank_like(&self) -> (out: Frame)
        ensures
            out@ == FrameView::blank(self@.width, self@.height),
    {
        proof {
            use_type_invariant(self);
        }
        let n: usize = self.data.len();
        let data: Vec<u8> = vec![0u8; n];
        let out = Frame { width: self.width, height: self.height, data };
        proof {
            lemma_blank_bytes(self.width as nat, self.height as nat, out.data@);
        }
        out
    }

    /// A transparent frame of the given size, or `None` where its buffer
    /// would be longer than the machine can address.
    pub fn new(width: u32, height: u32) -> (out: Option<Frame>)
        ensures
            out is Some <==> frame_fits(width as nat, height as nat),
            out matches Some(f) ==> f@ == FrameView::blank(width as nat, height as nat),
    {
        let n: u128 = 4 * pixel_count(width, height) as u128;
        if n > isize::MAX as u128 {
            return None;
        }
        let data: Vec<u8> = vec![0u8; n as usize];
        let f = Frame { width, height, data };
        proof {
            lemma_blank_bytes(width as nat, height as nat, f.data@);
        }
        Some(f)
    }

    /// The frame that a row-major RGBA byte buffer holds, or `None` where the
    /// buffer's length is not `4 * width * height`.
    pub fn from_raw(width: u32, height: u32, data: Vec<u8>) -> (out: Option<Frame>)
        ensures
            out is Some <==> data@.len() == 4 * (width * height) && frame_fits(
                width as nat,
                height as nat,
            ),
            out matches Some(f) ==> f@ == FrameView::from_bytes(
                width as nat,
                height as nat,
                data@,
            ),
    {
        let n: u128 = 4 * pixel_count(width, height) as u128;
        if data.len() as u128 != n || n > isize::MAX as u128 {
            return None;
        }
        Some(Frame { width, height, data })
    }

    /// The frame's bytes, row by row from the top, four to a pixel.
    pub fn into_raw(self) -> (out: Vec<u8>)
        ensures
            out@ == self@.to_bytes(),
            FrameView::from_bytes(self@.width, self@.height, out@) == self@,
    {
        proof {
            use_type_invariant(&self);
            lemma_bytes_round_trip(self.width as nat, self.height as nat, self.data@);
        }
        self.data
    }

    /// The pixel at `(x, y)`.
    pub fn get_pixel(&self, x: u32, y: u32) -> (p: Rgba)
        requires
            self@.contains(x as int, y as int),
        ensures
            p == self@.pixel(x as int, y as int),
    {
        proof {
            use_type_invariant(self);
            lemma_index(x as int, y as int, self.width as int, self.height as int);
        }
        let i: usize = 4 * (y as usize * self.width as usize + x as usize);
        Rgba { r: self.data[i], g: self.data[i + 1], b: self.data[i + 2], a: self.data[i + 3] }
    }

    /// Replaces the pixel at `(x, y)` by `color`.
    pub fn put_pixel(&mut self, x: u32, y: u32, color: Rgba)
        requires
            old(self)@.contains(x as int, y as int),
        ensures
            final(self)@ == old(self)@.put(x as int, y as int, color),
            final(self)@.wf(),
            final(self)@.width == old(self)@.width,
            final(self)@.height == old(self)@.height,
            forall|xx: int, yy: int|
                old(self)@.contains(xx, yy) ==> #[trigger] final(self)@.pixel(xx, yy) == (if xx == x
                    && yy == y {
                    color
                } else {
                    old(self)@.pixel(xx, yy)
                }),
    {
        proof {
            use_type_invariant(&*self);
            lemma_index(x as int, y as int, self.width as int, self.height as int);
        }
        let i: usize = 4 * (y as usize * self.width as usize + x as usize);
        self.data[i] = color.r;
        self.data[i + 1] = color.g;
        self.data[i + 2] = color.b;
        self.data[i + 3] = color.a;
        proof {
            let w = self.width as int;
            let goal = old(self)@.put(x as int, y as int, color);
            assert(self.width == old(self).width && self.height == old(self).height);
            assert(i == 4 * (y * w + x));
            assert forall|yy: int, xx: int| 0 <= yy < self.height && 0 <= xx < w implies
                #[trigger] self@.rows[yy][xx] == goal.rows[yy][xx] by {
                lemma_index(xx, yy, w, self.height as int);
                let j = yy * w + xx;
                assert(self@.rows[yy][xx] == FrameView::pixel_of_bytes(self.data@, j));
                assert(old(self)@.rows[yy][xx] == FrameView::pixel_of_bytes(old(self).data@, j));
                if yy != y {
                    lemma_index_distinct(xx, yy, x as int, y as int, w);
                }
                if yy == y && xx == x {
                    assert(goal.rows[yy][xx] == color);
                } else {
                    assert(j != y * w + x);
                    assert(goal.rows[yy][xx] == old(self)@.rows[yy][xx]);
                }
            }
            assert(self@ =~~= goal);
        }
    }
}

impl Clone for Frame {
    fn clone(&self) -> (out: Frame)
        ensures
            out@ == self@,
    {
        proof {
            use_type_invariant(self);
        }
        let data: Vec<u8> = self.data.clone();
        assert(data@ =~= self.data@);
        Frame { width: self.width, height: self.height, data }
    }
}

} // verus!
