//! Extracting the region of interest from a frame and rescaling it.

use crate::frame::{frame_fits, lemma_frame_fits_smaller, pixel_count, Frame, FrameView};
use crate::shot::Area;
use vstd::prelude::*;

verus! {

/// The pixels of `v` that `area` covers, as a frame of the area's size.
pub open spec fn cropped(v: FrameView, area: Area) -> FrameView {
    FrameView::from_fn(
        area.width as nat,
        area.height as nat,
        |x: int, y: int| v.pixel(area.x + x, area.y + y),
    )
}

/// A new frame that holds the pixels of `frame` under `area`, the area first
/// capped and shifted inward so that it lies within the frame.
pub fn crop(frame: &Frame, area: Area) -> (out: Frame)
    ensures
        out@ == cropped(frame@, area.clamp_to(frame@.width as u32, frame@.height as u32)),
{
    let (fw, fh) = frame.dimensions();
    let a = area.clamp_to(fw, fh);
    proof {
        lemma_frame_fits_smaller(a.width as nat, a.height as nat, fw as nat, fh as nat);
    }
    let mut out = Frame::new(a.width, a.height).unwrap();
    let ghost goal = cropped(frame@, a);
    let mut y: u32 = 0;
    while y < a.height
        invariant
            y <= a.height,
            a.inside(fw as int, fh as int),
            fw == frame@.width,
            fh == frame@.height,
            frame@.wf(),
            goal == cropped(frame@, a),
            out@.wf(),
            out@.width == a.width,
            out@.height == a.height,
            forall|xx: int, yy: int|
                0 <= xx < a.width && 0 <= yy < y ==> #[trigger] out@.pixel(xx, yy) == goal.pixel(
                    xx,
                    yy,
                ),
        decreases a.height - y,
    {
        let mut x: u32 = 0;
        while x < a.width
            invariant
                x <= a.width,
                y < a.height,
                a.inside(fw as int, fh as int),
                fw == frame@.width,
                fh == frame@.height,
                frame@.wf(),
                goal == cropped(frame@, a),
                out@.wf(),
                out@.width == a.width,
                out@.height == a.height,
                forall|xx: int, yy: int|
                    0 <= xx < a.width && 0 <= yy < y ==> #[trigger] out@.pixel(xx, yy)
                        == goal.pixel(xx, yy),
                forall|xx: int| 0 <= xx < x ==> #[trigger] out@.pixel(xx, y as int) == goal.pixel(
                    xx,
                    y as int,
                ),
            decreases a.width - x,
        {
            let p = frame.get_pixel(a.x + x, a.y + y);
            out.put_pixel(x, y, p);
            x += 1;
        }
        y += 1;
    }
    proof {
        out@.lemma_eq_by_pixels(goal);
    }
    out
}

/// The resampling filter that a rescale uses. The choice changes how smooth
/// the result looks, nothing else.
#[derive(Clone, Copy, Debug, PartialEq, Eq, Structural)]
pub enum Filter {
    /// Each pixel takes the value of the nearest source pixel.
    Nearest,
    /// Linear interpolation in both directions.
    Bilinear,
    /// A Gaussian kernel.
    Gaussian,
}

/// Why a transform produced no frame.
#[derive(Clone, Copy, Debug, PartialEq, Eq, Structural)]
pub enum TransformError {
    /// The source has no pixels: its width or its height is zero.
    DegenerateSource,
}

/// What `image::imageops::resize` makes, with the nearest or the bilinear
/// filter, of a frame with at least one pixel when the new size differs from
/// the old one. With these two filters the crate resamples by additions,
/// multiplications, divisions and roundings in 32-bit floating point alone,
/// so the pixels are a function of the source, the size and the filter.
///
/// The Gaussian filter has no such name: its weights come from `f32::exp`,
/// whose last bit the standard library leaves to the platform, and a weight's
/// last bit can move a pixel by one.
pub uninterp spec fn resized(v: FrameView, width: nat, height: nat, filter: Filter) -> FrameView;

/// Whether `out` is a rescale of `v` to `width` by `height`: it is well
/// formed and has that size; it is `v` itself where that is the size of `v`
/// already; and where the size changes and the filter is not the Gaussian
/// one it is the resampled frame. Of the pixels that the Gaussian filter
/// gives when the size changes, nothing is said.
pub open spec fn rescales(
    v: FrameView,
    width: nat,
    height: nat,
    filter: Filter,
    out: FrameView,
) -> bool {
    &&& out.wf()
    &&& out.width == width
    &&& out.height == height
    &&& width == v.width && height == v.height ==> out == v
    &&& !(width == v.width && height == v.height) && filter != Filter::Gaussian ==> out
        == resized(v, width, height, filter)
}

/// The longest side, of the source or of the result, that a rescale which
/// changes the size is carried out for.
///
/// `image::imageops::resize` computes the position of each sample in `f32`.
/// With sides in the millions a position can round so far that every pixel
/// left in the sampling window has weight zero; the weights are then divided
/// by a sum of zero, and the crate panics on the NaN that comes of it. With no
/// side above this bound a position is exact to 1/128 of a pixel, so that the
/// pixel nearest to it lies in the window and has a positive weight under
/// each filter.
pub const MAX_RESIZE_SIDE: u32 = 65_536;

/// Whether a rescale can be carried out. Where the size does not change the
/// source is copied, and it always can. Otherwise no side of the source or of
/// the result is above `MAX_RESIZE_SIDE`, and both buffers can be addressed:
/// the intermediate one, of `src_width` by `height` pixels in four 32-bit
/// channels, and the result.
pub open spec fn resize_fits(src_width: nat, src_height: nat, width: nat, height: nat) -> bool {
    ||| width == src_width && height == src_height
    ||| {
        &&& src_width <= MAX_RESIZE_SIDE
        &&& src_height <= MAX_RESIZE_SIDE
        &&& width <= MAX_RESIZE_SIDE
        &&& height <= MAX_RESIZE_SIDE
        &&& 16 * (src_width * height) <= isize::MAX
        &&& frame_fits(width, height)
    }
}

/// Calls `image::imageops::resize` on the frame's pixels. The contract claims
/// that the result has the size asked for, that it is a copy of the source
/// where the size does not change, and that with the nearest or the bilinear
/// filter it is otherwise a function of the source, the size and the filter
/// alone. Left out are the inputs on which the crate panics or may panic:
/// empty sources, sizes whose buffers cannot be addressed, and sides so long
/// that a sample's position is no longer exact enough (see
/// `MAX_RESIZE_SIDE`).
#[verifier::external_body]
fn resize_frame(src: &Frame, width: u32, height: u32, filter: Filter) -> (out: Frame)
    requires
        src@.width > 0,
        src@.height > 0,
        resize_fits(src@.width, src@.height, width as nat, height as nat),
    ensures
        out@.wf(),
        out@.width == width,
        out@.height == height,
        width == src@.width && height == src@.height ==> out@ == src@,
        !(width == src@.width && height == src@.height) && filter != Filter::Gaussian ==> out@
            == resized(src@, width as nat, height as nat, filter),
{
    let kind = match filter {
        Filter::Nearest => image::imageops::FilterType::Nearest,
        Filter::Bilinear => image::imageops::FilterType::Triangle,
        Filter::Gaussian => image::imageops::FilterType::Gaussian,
    };
    let img = image::RgbaImage::from_raw(src.width, src.height, src.data.clone()).unwrap();
    let out = image::imageops::resize(&img, width, height, kind);
    Frame { width, height, data: out.into_raw() }
}

/// Whether `resize_fits` holds, computed.
fn check_resize_fits(src_width: u32, src_height: u32, width: u32, height: u32) -> (ok: bool)
    ensures
        ok == resize_fits(src_width as nat, src_height as nat, width as nat, height as nat),
{
    if width == src_width && height == src_height {
        return true;
    }
    if src_width > MAX_RESIZE_SIDE || src_height > MAX_RESIZE_SIDE || width > MAX_RESIZE_SIDE
        || height > MAX_RESIZE_SIDE {
        return false;
    }
    let a: u128 = 16 * pixel_count(src_width, height) as u128;
    let b: u128 = 4 * pixel_count(width, height) as u128;
    a <= isize::MAX as u128 && b <= isize::MAX as u128
}

/// Whether `out` is the region of `v` that `region` asks for, rescaled to
/// `target_size`. The region is first capped at the frame's size and shifted
/// inward until it lies within the frame, and it must hold a pixel.
pub open spec fn extracts(
    v: FrameView,
    region: Area,
    target_size: (u32, u32),
    filter: Filter,
    out: FrameView,
) -> bool {
    let area = region.clamp_to(v.width as u32, v.height as u32);
    &&& !area.empty()
    &&& rescales(cropped(v, area), target_size.0 as nat, target_size.1 as nat, filter, out)
}

/// Whether the rescale that `extract_and_scale` asks for can be carried
/// out: `resize_fits` of the clamped region's size and the target size.
pub open spec fn extract_fits(v: FrameView, region: Area, target_size: (u32, u32)) -> bool {
    let area = region.clamp_to(v.width as u32, v.height as u32);
    resize_fits(
        area.width as nat,
        area.height as nat,
        target_size.0 as nat,
        target_size.1 as nat,
    )
}

/// Whether `extract_fits` holds for this frame, computed.
pub fn can_extract(frame: &Frame, region: Area, target_size: (u32, u32)) -> (ok: bool)
    ensures
        ok == extract_fits(frame@, region, target_size),
{
    let (fw, fh) = frame.dimensions();
    let area = region.clamp_to(fw, fh);
    check_resize_fits(area.width, area.height, target_size.0, target_size.1)
}

/// Crops `frame` to `region`, clamped to the frame, and rescales the crop to
/// `target_size`. Fails with `DegenerateSource` exactly when the clamped
/// region holds no pixel. A crop that has the target size already comes back
/// pixel for pixel.
pub fn extract_and_scale(
    frame: &Frame,
    region: Area,
    target_size: (u32, u32),
    filter: Filter,
) -> (out: Result<Frame, TransformError>)
    requires
        extract_fits(frame@, region, target_size),
    ensures
        out is Err <==> region.clamp_to(frame@.width as u32, frame@.height as u32).empty(),
        out matches Err(e) ==> e == TransformError::DegenerateSource,
        out matches Ok(f) ==> extracts(frame@, region, target_size, filter, f@),
{
    let (fw, fh) = frame.dimensions();
    let area = region.clamp_to(fw, fh);
    if area.width == 0 || area.height == 0 {
        return Err(TransformError::DegenerateSource);
    }
    let patch = crop(frame, area);
    Ok(resize_frame(&patch, target_size.0, target_size.1, filter))
}

/// Cropping a region that lies within the frame and rescaling it to its own
/// size gives back exactly the pixels under the region, whatever the filter
/// and however long the sides: such a rescale can always be carried out, and
/// whatever it yields is the crop.
pub proof fn lemma_same_size_is_identity(
    v: FrameView,
    region: Area,
    filter: Filter,
    out: FrameView,
)
    requires
        v.wf(),
        region.inside(v.width as int, v.height as int),
        !region.empty(),
        extracts(v, region, (region.width, region.height), filter, out),
    ensures
        extract_fits(v, region, (region.width, region.height)),
        out == cropped(v, region),
{
}

/// The whole number of times that a source of size `img` goes into `target`
/// in the direction in which it goes more often.
pub open spec fn fill_ratio(img: (u32, u32), target: (u32, u32)) -> int {
    let across = target.0 as int / img.0 as int;
    let down = target.1 as int / img.1 as int;
    if across >= down {
        across
    } else {
        down
    }
}

/// The size of a source scaled by `fill_ratio` in both directions, which
/// keeps its aspect. A source without pixels has none.
pub open spec fn spec_fill_size(img: (u32, u32), target: (u32, u32)) -> Result<
    (u64, u64),
    TransformError,
> {
    if img.0 == 0 || img.1 == 0 {
        Err(TransformError::DegenerateSource)
    } else {
        Ok(
            (
                (img.0 * fill_ratio(img, target)) as u64,
                (img.1 * fill_ratio(img, target)) as u64,
            ),
        )
    }
}

/// The size to which a source of size `img` is scaled so that it keeps its
/// aspect: both sides times the larger of `target.0 / img.0` and `target.1 /
/// img.1`, the divisions rounded down. Fails with `DegenerateSource` exactly
/// when the source has no pixels.
pub fn fill_size(img: (u32, u32), target: (u32, u32)) -> (out: Result<(u64, u64), TransformError>)
    ensures
        out == spec_fill_size(img, target),
{
    if img.0 == 0 || img.1 == 0 {
        return Err(TransformError::DegenerateSource);
    }
    let across: u32 = target.0 / img.0;
    let down: u32 = target.1 / img.1;
    let ratio: u32 = if across >= down {
        across
    } else {
        down
    };
    Ok((pixel_count(img.0, ratio), pixel_count(img.1, ratio)))
}

/// Whether `out` is the region of `v` that `region` asks for, rescaled by
/// the whole ratio that `fill_size` gives for `target_size`, to the size
/// that it gives.
pub open spec fn fills(
    v: FrameView,
    region: Area,
    target_size: (u32, u32),
    filter: Filter,
    out: FrameView,
) -> bool {
    let area = region.clamp_to(v.width as u32, v.height as u32);
    &&& spec_fill_size((area.width, area.height), target_size) matches Ok(size)
    &&& rescales(cropped(v, area), size.0 as nat, size.1 as nat, filter, out)
}

/// Whether the frame that `extract_and_fill` makes has sides that fit in
/// `u32`, and the rescale to it can be carried out.
pub open spec fn fill_fits(v: FrameView, region: Area, target_size: (u32, u32)) -> bool {
    let area = region.clamp_to(v.width as u32, v.height as u32);
    match spec_fill_size((area.width, area.height), target_size) {
        Err(_) => true,
        Ok(size) => size.0 <= u32::MAX && size.1 <= u32::MAX && resize_fits(
            area.width as nat,
            area.height as nat,
            size.0 as nat,
            size.1 as nat,
        ),
    }
}

/// Whether `fill_fits` holds for this frame, computed.
pub fn can_fill(frame: &Frame, region: Area, target_size: (u32, u32)) -> (ok: bool)
    ensures
        ok == fill_fits(frame@, region, target_size),
{
    let (fw, fh) = frame.dimensions();
    let area = region.clamp_to(fw, fh);
    match fill_size((area.width, area.height), target_size) {
        Err(_) => true,
        Ok(size) => size.0 <= u32::MAX as u64 && size.1 <= u32::MAX as u64 && check_resize_fits(
            area.width,
            area.height,
            size.0 as u32,
            size.1 as u32,
        ),
    }
}

/// Crops `frame` to `region`, clamped to the frame, and rescales the crop by
/// one whole ratio in both directions, the one that `fill_size` gives for
/// `target_size`, so that the crop keeps its aspect. Fails with
/// `DegenerateSource` exactly when the clamped region holds no pixel.
pub fn extract_and_fill(
    frame: &Frame,
    region: Area,
    target_size: (u32, u32),
    filter: Filter,
) -> (out: Result<Frame, TransformError>)
    requires
        fill_fits(frame@, region, target_size),
    ensures
        out is Err <==> region.clamp_to(frame@.width as u32, frame@.height as u32).empty(),
        out matches Err(e) ==> e == TransformError::DegenerateSource,
        out matches Ok(f) ==> fills(frame@, region, target_size, filter, f@),
{
    let (fw, fh) = frame.dimensions();
    let area = region.clamp_to(fw, fh);
    match fill_size((area.width, area.height), target_size) {
        Err(e) => Err(e),
        Ok(size) => {
            let patch = crop(frame, area);
            Ok(resize_frame(&patch, size.0 as u32, size.1 as u32, filter))
        },
    }
}

} // verus!
