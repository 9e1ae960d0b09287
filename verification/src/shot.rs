//! Capture regions, locating the output to capture, and the two masks.

use crate::frame::{lemma_frame_fits_swapped, Frame, FrameView, Rgba};
use vstd::prelude::*;

verus! {

/// A rectangle of pixels: its top-left corner and its size.
#[derive(Clone, Copy, Debug, PartialEq, Eq, Structural)]
pub struct Area {
    pub x: u32,
    pub y: u32,
    pub width: u32,
    pub height: u32,
}

impl Default for Area {
    fn default() -> (out: Area)
        ensures
            out == (Area { x: 0, y: 0, width: 0, height: 0 }),
    {
        Area { x: 0, y: 0, width: 0, height: 0 }
    }
}

/// Where a span of `extent` pixels centred on `p` starts, held at zero.
pub open spec fn centred_origin(p: int, extent: int) -> int {
    if p - extent / 2 < 0 {
        0
    } else {
        p - extent / 2
    }
}

/// `origin` moved inward so that `len` pixels from it end within `limit`.
pub open spec fn shifted_inward(origin: int, len: int, limit: int) -> int {
    if origin <= limit - len {
        origin
    } else {
        limit - len
    }
}

/// The smaller of two lengths.
pub open spec fn capped(len: int, limit: int) -> int {
    if len <= limit {
        len
    } else {
        limit
    }
}

impl Area {
    /// Whether the rectangle lies within a frame of the given size.
    pub open spec fn inside(self, frame_width: int, frame_height: int) -> bool {
        self.x + self.width <= frame_width && self.y + self.height <= frame_height
    }

    /// Whether the rectangle holds no pixel.
    pub open spec fn empty(self) -> bool {
        self.width == 0 || self.height == 0
    }

    /// The rectangle of the given size centred on `pointer`: its corner is
    /// `pointer - size / 2`, held at zero where that is negative.
    pub open spec fn spec_around(pointer: (i32, i32), width: u32, height: u32) -> Area {
        Area {
            x: centred_origin(pointer.0 as int, width as int) as u32,
            y: centred_origin(pointer.1 as int, height as int) as u32,
            width,
            height,
        }
    }

    /// The rectangle capped at the frame's size and shifted inward until it
    /// lies within the frame.
    pub open spec fn spec_clamp_to(self, frame_width: u32, frame_height: u32) -> Area {
        let width = capped(self.width as int, frame_width as int);
        let height = capped(self.height as int, frame_height as int);
        Area {
            x: shifted_inward(self.x as int, width, frame_width as int) as u32,
            y: shifted_inward(self.y as int, height, frame_height as int) as u32,
            width: width as u32,
            height: height as u32,
        }
    }

    /// The rectangle of the given size centred on `pointer`.
    #[verifier::when_used_as_spec(spec_around)]
    pub fn around(pointer: (i32, i32), width: u32, height: u32) -> (out: Area)
        ensures
            out == Area::spec_around(pointer, width, height),
    {
        let x: i64 = pointer.0 as i64 - (width / 2) as i64;
        let y: i64 = pointer.1 as i64 - (height / 2) as i64;
        Area {
            x: if x < 0 {
                0
            } else {
                x as u32
            },
            y: if y < 0 {
                0
            } else {
                y as u32
            },
            width,
            height,
        }
    }

    /// The rectangle capped at the frame's size and shifted inward: the
    /// result lies within the frame, and a rectangle that already does is
    /// returned unchanged.
    #[verifier::when_used_as_spec(spec_clamp_to)]
    pub fn clamp_to(self, frame_width: u32, frame_height: u32) -> (out: Area)
        ensures
            out == self.spec_clamp_to(frame_width, frame_height),
            out.inside(frame_width as int, frame_height as int),
            self.inside(frame_width as int, frame_height as int) ==> out == self,
    {
        let width: u32 = if self.width <= frame_width {
            self.width
        } else {
            frame_width
        };
        let height: u32 = if self.height <= frame_height {
            self.height
        } else {
            frame_height
        };
        Area {
            x: if self.x <= frame_width - width {
                self.x
            } else {
                frame_width - width
            },
            y: if self.y <= frame_height - height {
                self.y
            } else {
                frame_height - height
            },
            width,
            height,
        }
    }
}

/// Whether `(x, y)` lies in one of the four bands, `thickness` pixels wide,
/// along the edges of a frame of the given size.
pub open spec fn in_border(width: int, height: int, thickness: int, x: int, y: int) -> bool {
    x < thickness || y < thickness || x >= width - thickness || y >= height - thickness
}

/// The frame with its four edge bands painted in `color`.
pub open spec fn bordered(v: FrameView, thickness: nat, color: Rgba) -> FrameView {
    FrameView::from_fn(
        v.width,
        v.height,
        |x: int, y: int|
            if in_border(v.width as int, v.height as int, thickness as int, x, y) {
                color
            } else {
                v.pixel(x, y)
            },
    )
}

/// The frame with the pixels of the rectangle from `(x0, y0)` up to, not
/// including, `(x1, y1)` painted in `color`.
pub open spec fn filled(v: FrameView, x0: int, y0: int, x1: int, y1: int, color: Rgba) -> FrameView {
    FrameView::from_fn(
        v.width,
        v.height,
        |x: int, y: int|
            if x0 <= x < x1 && y0 <= y < y1 {
                color
            } else {
                v.pixel(x, y)
            },
    )
}

/// Paints the rectangle from `(x0, y0)` up to, not including, `(x1, y1)`.
fn fill_rect(img: &mut Frame, x0: u32, y0: u32, x1: u32, y1: u32, color: Rgba)
    requires
        x1 <= old(img)@.width,
        y1 <= old(img)@.height,
    ensures
        final(img)@ == filled(old(img)@, x0 as int, y0 as int, x1 as int, y1 as int, color),
        final(img)@.wf(),
        final(img)@.width == old(img)@.width,
        final(img)@.height == old(img)@.height,
{
    let (w, h) = img.dimensions();
    let ghost start = img@;
    let ghost goal = filled(start, x0 as int, y0 as int, x1 as int, y1 as int, color);
    let mut y: u32 = y0;
    while y < y1
        invariant
            y1 <= h,
            x1 <= w,
            y0 <= y,
            y <= y1 || y == y0,
            start.wf(),
            img@.wf(),
            w == start.width,
            h == start.height,
            img@.width == w,
            img@.height == h,
            forall|xx: int, yy: int|
                0 <= xx < w && 0 <= yy < h ==> #[trigger] img@.pixel(xx, yy) == (if x0 <= xx < x1
                    && y0 <= yy < y {
                    color
                } else {
                    start.pixel(xx, yy)
                }),
        decreases y1 - y,
    {
        let mut x: u32 = x0;
        while x < x1
            invariant
                y < y1,
                y0 <= y,
                y1 <= h,
                x1 <= w,
                x0 <= x,
                x <= x1 || x == x0,
                start.wf(),
                img@.wf(),
                w == start.width,
                h == start.height,
                img@.width == w,
                img@.height == h,
                forall|xx: int, yy: int|
                    0 <= xx < w && 0 <= yy < h ==> #[trigger] img@.pixel(xx, yy) == (if (x0 <= xx
                        < x1 && y0 <= yy < y) || (yy == y && x0 <= xx < x) {
                        color
                    } else {
                        start.pixel(xx, yy)
                    }),
            decreases x1 - x,
        {
            img.put_pixel(x, y, color);
            x += 1;
        }
        y += 1;
    }
    proof {
        img@.lemma_eq_by_pixels(goal);
    }
}

/// Paints bands `border_thickness` pixels wide along all four edges of the
/// frame, over what was there: first the top and bottom bands, then the left
/// and right ones. A band wider than the frame covers all of it.
pub fn generate_border(img: &mut Frame, border_thickness: u32, color: Rgba)
    ensures
        final(img)@ == bordered(old(img)@, border_thickness as nat, color),
{
    let (width, height) = img.dimensions();
    let ghost start = img@;
    let rows: u32 = if border_thickness <= height {
        border_thickness
    } else {
        height
    };
    let cols: u32 = if border_thickness <= width {
        border_thickness
    } else {
        width
    };
    fill_rect(img, 0, 0, width, rows, color);
    fill_rect(img, 0, height - rows, width, height, color);
    fill_rect(img, 0, 0, cols, height, color);
    fill_rect(img, width - cols, 0, width, height, color);
    proof {
        img@.lemma_eq_by_pixels(bordered(start, border_thickness as nat, color));
    }
}

/// Four times the squared distance of `(x, y)` from the centre of a frame of
/// the given size, the centre taken at exactly half the width and height.
pub open spec fn distance_sq4(width: int, height: int, x: int, y: int) -> int {
    (2 * x - width) * (2 * x - width) + (2 * y - height) * (2 * y - height)
}

/// Twice the radius of the disk: the larger side less twice the thickness.
pub open spec fn diameter(width: int, height: int, thickness: int) -> int {
    (if width >= height {
        width
    } else {
        height
    }) - 2 * thickness
}

/// Whether the distance `d` with `d2sq == 4 * d * d` is less than `bound2 / 2`.
pub open spec fn within(d2sq: int, bound2: int) -> bool {
    bound2 > 0 && d2sq < bound2 * bound2
}

/// Whether `(x, y)` is closer to the centre than the radius.
pub open spec fn in_disk(width: int, height: int, thickness: int, x: int, y: int) -> bool {
    within(distance_sq4(width, height, x, y), diameter(width, height, thickness))
}

/// Whether the distance of `(x, y)` from the centre is at least the radius
/// less the thickness and less than the radius plus the thickness.
pub open spec fn in_ring(width: int, height: int, thickness: int, x: int, y: int) -> bool {
    let d = distance_sq4(width, height, x, y);
    let r = diameter(width, height, thickness);
    !within(d, r - 2 * thickness) && within(d, r + 2 * thickness)
}

/// The circular clip of a frame: the ring in `color` where one is given, the
/// source inside the disk elsewhere, and transparent pixels outside.
pub open spec fn rounded(v: FrameView, thickness: nat, color: Option<Rgba>) -> FrameView {
    FrameView::from_fn(
        v.width,
        v.height,
        |x: int, y: int|
            if color is Some && in_ring(v.width as int, v.height as int, thickness as int, x, y) {
                color->0
            } else if in_disk(v.width as int, v.height as int, thickness as int, x, y) {
                v.pixel(x, y)
            } else {
                Rgba::transparent()
            },
    )
}

/// Whether `within(d2sq, bound2)` holds, computed.
fn check_within(d2sq: i128, bound2: i128) -> (ok: bool)
    requires
        0 <= d2sq <= 0x10_0000_0000_0000_0000,
        -0x10_0000_0000 <= bound2 <= 0x10_0000_0000,
    ensures
        ok == within(d2sq as int, bound2 as int),
{
    if bound2 <= 0 {
        return false;
    }
    assert(bound2 * bound2 <= 0x10_0000_0000 * 0x10_0000_0000) by (nonlinear_arith)
        requires
            0 < bound2 <= 0x10_0000_0000,
    ;
    d2sq < bound2 * bound2
}

/// Four times the squared distance of `(x, y)` from the centre, computed.
fn compute_distance_sq4(width: u32, height: u32, x: u32, y: u32) -> (d: i128)
    ensures
        d == distance_sq4(width as int, height as int, x as int, y as int),
        0 <= d <= 0x10_0000_0000_0000_0000,
{
    let dx: i128 = 2 * x as i128 - width as i128;
    let dy: i128 = 2 * y as i128 - height as i128;
    assert(0 <= dx * dx <= 0x2_0000_0000 * 0x2_0000_0000) by (nonlinear_arith)
        requires
            -0x2_0000_0000 <= dx <= 0x2_0000_0000,
    ;
    assert(0 <= dy * dy <= 0x2_0000_0000 * 0x2_0000_0000) by (nonlinear_arith)
        requires
            -0x2_0000_0000 <= dy <= 0x2_0000_0000,
    ;
    dx * dx + dy * dy
}

/// Clips a frame to a circle. The result has the size of `img`; with `R` the
/// larger side halved less the thickness and `d` a pixel's distance from the
/// centre, a pixel is `color` where one is given and `R - thickness <= d < R
/// + thickness`, else the source pixel where `d < R`, else transparent.
/// Membership is exact: no pixel is blended.
pub fn round_image(img: &Frame, border_thickness: u32, color: Option<Rgba>) -> (out: Frame)
    ensures
        out@ == rounded(img@, border_thickness as nat, color),
{
    let (width, height) = img.dimensions();
    let mut out = img.blank_like();
    let ghost goal = rounded(img@, border_thickness as nat, color);
    let larger: i128 = if width >= height {
        width as i128
    } else {
        height as i128
    };
    let t2: i128 = 2 * border_thickness as i128;
    let r: i128 = larger - t2;
    let mut y: u32 = 0;
    while y < height
        invariant
            y <= height,
            width == img@.width,
            height == img@.height,
            img@.wf(),
            out@.wf(),
            out@.width == width,
            out@.height == height,
            t2 == 2 * border_thickness,
            r == diameter(width as int, height as int, border_thickness as int),
            goal == rounded(img@, border_thickness as nat, color),
            forall|xx: int, yy: int|
                0 <= xx < width && 0 <= yy < y ==> #[trigger] out@.pixel(xx, yy) == goal.pixel(
                    xx,
                    yy,
                ),
            forall|xx: int, yy: int|
                0 <= xx < width && y <= yy < height ==> #[trigger] out@.pixel(xx, yy)
                    == Rgba::transparent(),
        decreases height - y,
    {
        let mut x: u32 = 0;
        while x < width
            invariant
                x <= width,
                y < height,
                width == img@.width,
                height == img@.height,
                img@.wf(),
                out@.wf(),
                out@.width == width,
                out@.height == height,
                t2 == 2 * border_thickness,
                r == diameter(width as int, height as int, border_thickness as int),
                goal == rounded(img@, border_thickness as nat, color),
                forall|xx: int, yy: int|
                    0 <= xx < width && 0 <= yy < y ==> #[trigger] out@.pixel(xx, yy)
                        == goal.pixel(xx, yy),
                forall|xx: int| 0 <= xx < x ==> #[trigger] out@.pixel(xx, y as int) == goal.pixel(
                    xx,
                    y as int,
                ),
                forall|xx: int, yy: int|
                    0 <= xx < width && y <= yy < height && !(yy == y && xx < x)
                        ==> #[trigger] out@.pixel(xx, yy) == Rgba::transparent(),
            decreases width - x,
        {
            let d = compute_distance_sq4(width, height, x, y);
            let ring = color.is_some() && !check_within(d, r - t2) && check_within(d, r + t2);
            if ring {
                out.put_pixel(x, y, color.unwrap());
            } else if check_within(d, r) {
                let p = img.get_pixel(x, y);
                out.put_pixel(x, y, p);
            }
            x += 1;
        }
        y += 1;
    }
    proof {
        out@.lemma_eq_by_pixels(goal);
    }
    out
}

/// How an output is turned against the upright screen.
#[derive(Clone, Copy, Debug, PartialEq, Eq, Structural)]
pub enum Rotation {
    /// The output stands upright.
    Normal,
    /// A quarter turn brings it upright.
    Deg90,
    /// A half turn brings it upright.
    Deg180,
    /// Three quarter turns bring it upright.
    Deg270,
}

/// The frame turned clockwise by the given rotation. A quarter turn swaps
/// width and height.
pub open spec fn rotated(v: FrameView, t: Rotation) -> FrameView {
    match t {
        Rotation::Normal => v,
        Rotation::Deg90 => FrameView::from_fn(
            v.height,
            v.width,
            |x: int, y: int| v.pixel(y, v.height - 1 - x),
        ),
        Rotation::Deg180 => FrameView::from_fn(
            v.width,
            v.height,
            |x: int, y: int| v.pixel(v.width - 1 - x, v.height - 1 - y),
        ),
        Rotation::Deg270 => FrameView::from_fn(
            v.height,
            v.width,
            |x: int, y: int| v.pixel(v.width - 1 - y, x),
        ),
    }
}

/// Turns a captured frame clockwise by the output's rotation, so that it
/// stands upright.
pub fn rotate(screen: &Frame, t: Rotation) -> (out: Frame)
    ensures
        out@ == rotated(screen@, t),
{
    let (w, h) = screen.dimensions();
    if let Rotation::Normal = t {
        return screen.clone();
    }
    let quarter: bool = match t {
        Rotation::Deg90 => true,
        Rotation::Deg270 => true,
        _ => false,
    };
    let (ow, oh) = if quarter {
        (h, w)
    } else {
        (w, h)
    };
    proof {
        lemma_frame_fits_swapped(w as nat, h as nat);
    }
    let mut out = Frame::new(ow, oh).unwrap();
    let ghost goal = rotated(screen@, t);
    let mut y: u32 = 0;
    while y < oh
        invariant
            y <= oh,
            t != Rotation::Normal,
            quarter == (t == Rotation::Deg90 || t == Rotation::Deg270),
            quarter ==> ow == h && oh == w,
            !quarter ==> ow == w && oh == h,
            w == screen@.width,
            h == screen@.height,
            screen@.wf(),
            goal == rotated(screen@, t),
            out@.wf(),
            out@.width == ow,
            out@.height == oh,
            forall|xx: int, yy: int|
                0 <= xx < ow && 0 <= yy < y ==> #[trigger] out@.pixel(xx, yy) == goal.pixel(
                    xx,
                    yy,
                ),
        decreases oh - y,
    {
        let mut x: u32 = 0;
        while x < ow
            invariant
                x <= ow,
                y < oh,
                t != Rotation::Normal,
                quarter == (t == Rotation::Deg90 || t == Rotation::Deg270),
                quarter ==> ow == h && oh == w,
                !quarter ==> ow == w && oh == h,
                w == screen@.width,
                h == screen@.height,
                screen@.wf(),
                goal == rotated(screen@, t),
                out@.wf(),
                out@.width == ow,
                out@.height == oh,
                forall|xx: int, yy: int|
                    0 <= xx < ow && 0 <= yy < y ==> #[trigger] out@.pixel(xx, yy) == goal.pixel(
                        xx,
                        yy,
                    ),
                forall|xx: int| 0 <= xx < x ==> #[trigger] out@.pixel(xx, y as int) == goal.pixel(
                    xx,
                    y as int,
                ),
            decreases ow - x,
        {
            let p = match t {
                Rotation::Deg90 => screen.get_pixel(y, h - 1 - x),
                Rotation::Deg180 => screen.get_pixel(w - 1 - x, h - 1 - y),
                _ => screen.get_pixel(w - 1 - y, x),
            };
            out.put_pixel(x, y, p);
            x += 1;
        }
        y += 1;
    }
    proof {
        out@.lemma_eq_by_pixels(goal);
    }
    out
}

/// One output of the display: its name, where it stands in the screen's
/// coordinates, its size, and how it is turned.
#[derive(Clone, Debug)]
pub struct Output {
    pub name: String,
    pub x: i32,
    pub y: i32,
    pub width: u32,
    pub height: u32,
    pub transform: Rotation,
}

/// What picks the output to capture: a point of the screen, or a name.
#[derive(Clone, Debug)]
pub enum Locator {
    /// The output whose rectangle holds this point.
    Point(i32, i32),
    /// The output of this name.
    Name(String),
}

/// Why a capture produced no frame.
#[derive(Clone, Copy, Debug, PartialEq, Eq, Structural)]
pub enum CaptureError {
    /// No output's rectangle holds the point.
    NoOutputAtPoint,
    /// No output has the name.
    OutputNotFound,
    /// The backend handed back no screenshot of the output.
    BackendFailure,
}

impl Output {
    /// Whether the point lies in the output's rectangle: `x` from the
    /// output's left edge up to, not including, that edge plus the width, and
    /// `y` likewise.
    pub open spec fn contains_point(&self, x: int, y: int) -> bool {
        self.x <= x < self.x + self.width && self.y <= y < self.y + self.height
    }

    /// Whether the locator picks this output.
    pub open spec fn matches(&self, locator: &Locator) -> bool {
        match locator {
            Locator::Point(x, y) => self.contains_point(*x as int, *y as int),
            Locator::Name(name) => self.name@ == name@,
        }
    }

    /// Whether the locator picks this output, computed.
    pub fn is_match(&self, locator: &Locator) -> (hit: bool)
        ensures
            hit == self.matches(locator),
    {
        match locator {
            Locator::Point(x, y) => {
                let px: i64 = *x as i64;
                let py: i64 = *y as i64;
                self.x as i64 <= px && px < self.x as i64 + self.width as i64 && self.y as i64
                    <= py && py < self.y as i64 + self.height as i64
            },
            Locator::Name(name) => self.name == *name,
        }
    }
}

/// The error by which a locator that picks no output fails.
pub open spec fn miss(locator: &Locator) -> CaptureError {
    match locator {
        Locator::Point(_, _) => CaptureError::NoOutputAtPoint,
        Locator::Name(_) => CaptureError::OutputNotFound,
    }
}

/// Finds the output to capture: the index of the first one that the locator
/// picks. Fails with `NoOutputAtPoint` exactly when the locator is a point
/// that no output holds, and with `OutputNotFound` exactly when it is a name
/// that no output has.
pub fn locate(outputs: &Vec<Output>, locator: &Locator) -> (out: Result<usize, CaptureError>)
    ensures
        match out {
            Ok(i) => i < outputs.len() && outputs[i as int].matches(locator) && forall|j: int|
                0 <= j < i ==> !(#[trigger] outputs[j]).matches(locator),
            Err(e) => e == miss(locator) && forall|j: int|
                0 <= j < outputs.len() ==> !(#[trigger] outputs[j]).matches(locator),
        },
{
    let mut i: usize = 0;
    while i < outputs.len()
        invariant
            i <= outputs.len(),
            forall|j: int| 0 <= j < i ==> !(#[trigger] outputs[j]).matches(locator),
        decreases outputs.len() - i,
    {
        if outputs[i].is_match(locator) {
            return Ok(i);
        }
        i += 1;
    }
    match locator {
        Locator::Point(_, _) => Err(CaptureError::NoOutputAtPoint),
        Locator::Name(_) => Err(CaptureError::OutputNotFound),
    }
}

/// The index of the first output that the locator picks.
pub open spec fn first_match(outputs: Seq<Output>, locator: &Locator) -> int {
    choose|i: int|
        0 <= i < outputs.len() && (#[trigger] outputs[i]).matches(locator) && forall|j: int|
            0 <= j < i ==> !(#[trigger] outputs[j]).matches(locator)
}

/// What a capture yields, given what the backend handed back for the output
/// that the locator picks.
pub open spec fn captured(
    outputs: Seq<Output>,
    locator: &Locator,
    shot: Option<FrameView>,
) -> Result<FrameView, CaptureError> {
    if forall|j: int| 0 <= j < outputs.len() ==> !(#[trigger] outputs[j]).matches(locator) {
        Err(miss(locator))
    } else {
        match shot {
            None => Err(CaptureError::BackendFailure),
            Some(v) => Ok(rotated(v, outputs[first_match(outputs, locator)].transform)),
        }
    }
}

/// What the backend handed back, as the frame's content.
pub open spec fn shot_view(shot: Option<Frame>) -> Option<FrameView> {
    match shot {
        Some(frame) => Some(frame@),
        None => None,
    }
}

/// Completes a capture. `shot` is the screenshot that the backend took of
/// the output that `locate` found, or `None` where the backend failed. The
/// frame comes back turned upright. Where the locator picks no output its
/// error comes back, and no frame, whatever `shot` holds; where it picks one
/// and the backend failed, `BackendFailure` comes back.
pub fn capture(outputs: &Vec<Output>, locator: &Locator, shot: Option<Frame>) -> (out: Result<
    Frame,
    CaptureError,
>)
    ensures
        match out {
            Ok(frame) => captured(outputs@, locator, shot_view(shot)) == Ok::<
                FrameView,
                CaptureError,
            >(frame@),
            Err(e) => captured(outputs@, locator, shot_view(shot)) == Err::<
                FrameView,
                CaptureError,
            >(e),
        },
{
    match locate(outputs, locator) {
        Err(e) => Err(e),
        Ok(i) => {
            proof {
                let k = first_match(outputs@, locator);
                assert(outputs@[i as int].matches(locator));
                assert(k == i) by {
                    if k < i {
                        assert(!outputs@[k].matches(locator));
                    }
                    if i < k {
                        assert(!outputs@[i as int].matches(locator));
                    }
                }
            }
            match shot {
                None => Err(CaptureError::BackendFailure),
                Some(screen) => Ok(rotate(&screen, outputs[i].transform)),
            }
        },
    }
}

} // verus!
