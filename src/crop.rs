//! Choosing the window of a photograph that best holds a target aspect
//! ratio, and the pipeline from photograph to EPD stream.

use vstd::prelude::*;

use crate::dither::{dither_image, dithered};
use crate::epd::{
    encode, header, lemma_row_end, lemma_split, packed, packed_len, palette_stream, HEADER_LEN,
};
use crate::error::Error;
use crate::raster::{ImageBuffer, Pixel};
use crate::{EPD_HEIGHT, EPD_WIDTH};

verus! {

/// An axis-aligned window of a source image.
#[derive(Debug, Clone, Copy, PartialEq, Eq, Structural)]
pub struct CropWindow {
    pub x: u32,
    pub y: u32,
    pub width: u32,
    pub height: u32,
}

/// A non-empty window that lies wholly inside a `width` by `height` image.
pub open spec fn inside(w: CropWindow, width: int, height: int) -> bool {
    &&& 0 < w.width
    &&& 0 < w.height
    &&& w.x + w.width <= width
    &&& w.y + w.height <= height
}

/// The source is smaller than the target in some dimension.
pub open spec fn too_small(sw: int, sh: int, tw: int, th: int) -> bool {
    sw < tw || sh < th
}

/// The window's sides keep the ratio `tw : th` up to the rounding of one
/// side to whole pixels.
pub open spec fn keeps_ratio(w: CropWindow, tw: int, th: int) -> bool {
    let d = w.width * th - w.height * tw;
    -vstd::math::max(tw, th) < d < vstd::math::max(tw, th)
}

/// Size of the largest window of the ratio `tw : th` inside a `sw` by `sh`
/// source, the shorter-constrained side rounded down.
pub open spec fn window_size(sw: int, sh: int, tw: int, th: int) -> (int, int) {
    if sw * th <= sh * tw {
        (sw, sw * th / tw)
    } else {
        (sh * tw / th, sh)
    }
}

/// The saliency search runs on images whose shorter side is at most this.
pub const ANALYSIS_SIDE: u32 = 400;

/// Size of the image the saliency search runs on: the source itself, or
/// the source scaled down until its shorter side is `ANALYSIS_SIDE`.
pub open spec fn analysis_size(sw: int, sh: int) -> (int, int) {
    let m = vstd::math::min(sw, sh);
    if m <= ANALYSIS_SIDE {
        (sw, sh)
    } else {
        (sw * (ANALYSIS_SIDE as int) / (m as int), sh * (ANALYSIS_SIDE as int) / (m as int))
    }
}

/// The pixels the saliency search runs on.
pub open spec fn analysis_pixels(source: ImageBuffer) -> Seq<Pixel> {
    let (aw, ah) = analysis_size(source.width as int, source.height as int);
    if vstd::math::min(source.width as int, source.height as int) <= ANALYSIS_SIDE {
        source.pixels@
    } else {
        lanczos_resize_of(source.width, source.height, source.pixels@, aw as u32, ah as u32)
    }
}

/// The window `(x, y, width, height)` that smartcrop's saliency search picks
/// in the `width` by `height` image `pixels` for the aspect ratio
/// `target_width : target_height`.
pub uninterp spec fn smart_crop_of(
    width: u32,
    height: u32,
    pixels: Seq<Pixel>,
    target_width: u32,
    target_height: u32,
) -> (u32, u32, u32, u32);

/// Relies on `smartcrop::find_best_crop` (package smartcrop2), over the
/// pixels as an `image::RgbaImage`. It fails only on an image with a zero
/// side. With the shorter side at most 400 pixels its prescale factor is 1:
/// the image is analysed unscaled, one crop side equals the image side, and
/// its size assertions hold; `requires` leaves the other images out.
#[verifier::external_body]
fn find_best_crop(source: &ImageBuffer, target_width: u32, target_height: u32) -> (r: (u32, u32, u32, u32))
    requires
        source.wf(),
        source.width > 0,
        source.height > 0,
        source.width <= ANALYSIS_SIDE || source.height <= ANALYSIS_SIDE,
        target_width > 0,
        target_height > 0,
    ensures
        r == smart_crop_of(source.width, source.height, source.pixels@, target_width, target_height),
{
    let raw: Vec<u8> = source.pixels.iter().flat_map(|p| [p.r, p.g, p.b, p.a]).collect();
    let img = image::RgbaImage::from_raw(source.width, source.height, raw).unwrap();
    let tw = std::num::NonZeroU32::new(target_width).unwrap();
    let th = std::num::NonZeroU32::new(target_height).unwrap();
    let found = smartcrop::find_best_crop(&img, tw, th).unwrap();
    (found.crop.x, found.crop.y, found.crop.width, found.crop.height)
}

/// The top-left corner that the saliency search suggests, in source
/// coordinates.
pub open spec fn salient_corner(source: ImageBuffer, tw: u32, th: u32) -> (int, int) {
    let (aw, ah) = analysis_size(source.width as int, source.height as int);
    let found = smart_crop_of(aw as u32, ah as u32, analysis_pixels(source), tw, th);
    (found.0 * source.width / aw, found.1 * source.height / ah)
}

/// The window that the crop selector picks in a source at least as large as
/// the target: the largest window of the target's ratio, placed at the
/// salient corner as far as the source allows.
pub open spec fn selected(source: ImageBuffer, tw: u32, th: u32) -> CropWindow {
    let (ww, wh) = window_size(source.width as int, source.height as int, tw as int, th as int);
    let (cx, cy) = salient_corner(source, tw, th);
    CropWindow {
        x: vstd::math::min(cx, source.width - ww) as u32,
        y: vstd::math::min(cy, source.height - wh) as u32,
        width: ww as u32,
        height: wh as u32,
    }
}

/// Whatever corner the saliency search suggests, the selected window lies
/// inside the source, is at least as large as the target and keeps its
/// aspect ratio.
pub proof fn lemma_selected_inside(source: ImageBuffer, tw: u32, th: u32)
    requires
        tw > 0,
        th > 0,
        !too_small(source.width as int, source.height as int, tw as int, th as int),
    ensures
        inside(selected(source, tw, th), source.width as int, source.height as int),
        selected(source, tw, th).width >= tw,
        selected(source, tw, th).height >= th,
        keeps_ratio(selected(source, tw, th), tw as int, th as int),
{
    let sw = source.width as int;
    let sh = source.height as int;
    lemma_window_size(sw, sh, tw as int, th as int);
    let (aw, ah) = analysis_size(sw, sh);
    let m = vstd::math::min(sw, sh);
    if m > ANALYSIS_SIDE {
        assert(aw > 0 && ah > 0) by (nonlinear_arith)
            requires
                m == vstd::math::min(sw, sh),
                m > 400,
                aw == sw * 400 / m,
                ah == sh * 400 / m,
        ;
    }
    let found = smart_crop_of(aw as u32, ah as u32, analysis_pixels(source), tw, th);
    let (cx, cy) = salient_corner(source, tw, th);
    assert(cx >= 0 && cy >= 0) by (nonlinear_arith)
        requires
            aw > 0,
            ah > 0,
            cx == found.0 * sw / aw,
            cy == found.1 * sh / ah,
            found.0 >= 0,
            found.1 >= 0,
            sw >= 0,
            sh >= 0,
    ;
}

proof fn lemma_window_size(sw: int, sh: int, tw: int, th: int)
    requires
        0 < tw <= sw,
        0 < th <= sh,
    ensures
        tw <= window_size(sw, sh, tw, th).0 <= sw,
        th <= window_size(sw, sh, tw, th).1 <= sh,
        -vstd::math::max(tw, th) < window_size(sw, sh, tw, th).0 * th - window_size(sw, sh, tw, th).1 * tw
            < vstd::math::max(tw, th),
{
    if sw * th <= sh * tw {
        let a = sw * th;
        let q = a / tw;
        let r = a % tw;
        vstd::arithmetic::div_mod::lemma_fundamental_div_mod(a, tw);
        assert(th <= q <= sh && 0 <= sw * th - q * tw < tw) by (nonlinear_arith)
            requires
                a == tw * q + r,
                0 <= r < tw,
                a == sw * th,
                a <= sh * tw,
                tw <= sw,
                0 < th,
        ;
    } else {
        let a = sh * tw;
        let q = a / th;
        let r = a % th;
        vstd::arithmetic::div_mod::lemma_fundamental_div_mod(a, th);
        assert(tw <= q <= sw && 0 <= sh * tw - q * th < th) by (nonlinear_arith)
            requires
                a == th * q + r,
                0 <= r < th,
                a == sh * tw,
                a < sw * th,
                th <= sh,
                0 < tw,
        ;
    }
}

/// The scaled-down image the saliency search runs on, for a source whose
/// shorter side is longer than `ANALYSIS_SIDE`.
fn analysis_image(source: &ImageBuffer) -> (r: ImageBuffer)
    requires
        source.wf(),
        source.width > ANALYSIS_SIDE,
        source.height > ANALYSIS_SIDE,
    ensures
        r.wf(),
        r.width as int == analysis_size(source.width as int, source.height as int).0,
        r.height as int == analysis_size(source.width as int, source.height as int).1,
        r.pixels@ == analysis_pixels(*source),
        r.width > 0,
        r.height > 0,
        r.width <= ANALYSIS_SIDE || r.height <= ANALYSIS_SIDE,
{
    let m: u32 = if source.width < source.height { source.width } else { source.height };
    let aw: u64 = source.width as u64 * ANALYSIS_SIDE as u64 / m as u64;
    let ah: u64 = source.height as u64 * ANALYSIS_SIDE as u64 / m as u64;
    proof {
        let sw = source.width as int;
        let sh = source.height as int;
        assert(ANALYSIS_SIDE <= aw <= sw && ANALYSIS_SIDE <= ah <= sh) by (nonlinear_arith)
            requires
                m as int == vstd::math::min(sw, sh),
                m > ANALYSIS_SIDE,
                aw == sw * (ANALYSIS_SIDE as int) / (m as int),
                ah == sh * (ANALYSIS_SIDE as int) / (m as int),
        ;
        assert(aw == ANALYSIS_SIDE || ah == ANALYSIS_SIDE) by (nonlinear_arith)
            requires
                m as int == vstd::math::min(sw, sh),
                m > 0,
                aw == sw * (ANALYSIS_SIDE as int) / (m as int),
                ah == sh * (ANALYSIS_SIDE as int) / (m as int),
        ;
    }
    resize_lanczos(source, aw as u32, ah as u32)
}

/// Finds the window of `source` with the aspect ratio
/// `target_width : target_height` whose placement scores best for
/// saliency: the largest such window, at the corner the search suggests.
/// Fails with `InvalidTarget` on a zero target side, and with
/// `SourceTooSmall` where the source is narrower or lower than the target.
/// The window always lies inside the source, is at least the target's size
/// and keeps its ratio up to rounding.
pub fn select_crop(source: &ImageBuffer, target_width: u32, target_height: u32) -> (r: Result<CropWindow, Error>)
    requires
        source.wf(),
    ensures
        (target_width == 0 || target_height == 0) ==> r == Err::<CropWindow, Error>(Error::InvalidTarget),
        (target_width > 0 && target_height > 0 && too_small(
            source.width as int,
            source.height as int,
            target_width as int,
            target_height as int,
        )) ==> r == Err::<CropWindow, Error>(Error::SourceTooSmall),
        (target_width > 0 && target_height > 0 && !too_small(
            source.width as int,
            source.height as int,
            target_width as int,
            target_height as int,
        )) ==> r == Ok::<CropWindow, Error>(selected(*source, target_width, target_height)),
        r matches Ok(w) ==> {
            &&& inside(w, source.width as int, source.height as int)
            &&& w.width >= target_width
            &&& w.height >= target_height
            &&& keeps_ratio(w, target_width as int, target_height as int)
        },
{
    if target_width == 0 || target_height == 0 {
        return Err(Error::InvalidTarget);
    }
    if source.width < target_width || source.height < target_height {
        return Err(Error::SourceTooSmall);
    }
    let sw = source.width as u64;
    let sh = source.height as u64;
    let tw = target_width as u64;
    let th = target_height as u64;
    proof {
        lemma_window_size(sw as int, sh as int, tw as int, th as int);
        lemma_selected_inside(*source, target_width, target_height);
    }
    assert(sw * th <= u64::MAX && sh * tw <= u64::MAX) by (nonlinear_arith)
        requires
            sw <= u32::MAX,
            sh <= u32::MAX,
            tw <= u32::MAX,
            th <= u32::MAX,
    ;
    let (ww, wh) = if sw * th <= sh * tw {
        (sw, sw * th / tw)
    } else {
        (sh * tw / th, sh)
    };
    let (aw, ah, found) = if source.width <= ANALYSIS_SIDE || source.height <= ANALYSIS_SIDE {
        (source.width, source.height, find_best_crop(source, target_width, target_height))
    } else {
        let analysed = analysis_image(source);
        (analysed.width, analysed.height, find_best_crop(&analysed, target_width, target_height))
    };
    assert(found.0 * sw <= u64::MAX && found.1 * sh <= u64::MAX) by (nonlinear_arith)
        requires
            found.0 <= u32::MAX,
            found.1 <= u32::MAX,
            sw <= u32::MAX,
            sh <= u32::MAX,
    ;
    let cx: u64 = found.0 as u64 * sw / aw as u64;
    let cy: u64 = found.1 as u64 * sh / ah as u64;
    let x: u64 = if cx < sw - ww { cx } else { sw - ww };
    let y: u64 = if cy < sh - wh { cy } else { sh - wh };
    Ok(CropWindow { x: x as u32, y: y as u32, width: ww as u32, height: wh as u32 })
}

/// The pixels of `w` in `source`, row-major.
pub open spec fn cropped(source: ImageBuffer, w: CropWindow) -> Seq<Pixel> {
    Seq::new(
        (w.width * w.height) as nat,
        |i: int| source.at(w.x + i % (w.width as int), w.y + i / (w.width as int)),
    )
}

/// Copies the window `w` out of `source`.
pub fn crop_pixels(source: &ImageBuffer, w: CropWindow) -> (r: ImageBuffer)
    requires
        source.wf(),
        inside(w, source.width as int, source.height as int),
    ensures
        r.width == w.width,
        r.height == w.height,
        r.pixels@ == cropped(*source, w),
        r.wf(),
{
    let n: usize = source.pixels.len();
    let sw: usize = source.width as usize;
    let ww: usize = w.width as usize;
    let mut out: Vec<Pixel> = Vec::new();
    let mut y: u32 = 0;
    while y < w.height
        invariant
            inside(w, source.width as int, source.height as int),
            source.wf(),
            n == source.pixels@.len(),
            sw == source.width,
            ww == w.width,
            y <= w.height,
            out@.len() == y * w.width,
            forall|i: int| 0 <= i < out@.len() ==> #[trigger] out@[i] == cropped(*source, w)[i],
        decreases w.height - y,
    {
        proof {
            lemma_row_end((w.y + y) as int, source.height as int, source.width as int);
        }
        let row: usize = (w.y + y) as usize * sw + w.x as usize;
        let mut x: u32 = 0;
        while x < w.width
            invariant
                inside(w, source.width as int, source.height as int),
                source.wf(),
                n == source.pixels@.len(),
                sw == source.width,
                ww == w.width,
                y < w.height,
                row == (w.y + y) * source.width + w.x,
                row + w.width <= source.pixels@.len(),
                x <= w.width,
                out@.len() == y * w.width + x,
                forall|i: int| 0 <= i < out@.len() ==> #[trigger] out@[i] == cropped(*source, w)[i],
            decreases w.width - x,
        {
            proof {
                lemma_split(y * w.width + x, w.width as int, y as int, x as int);
                lemma_row_end(y as int, w.height as int, w.width as int);
                assert(y * w.width + x < w.width * w.height);
                assert(cropped(*source, w)[y * w.width + x] == source.pixels@[row + x]);
            }
            out.push(source.pixels[row + x as usize]);
            x += 1;
        }
        proof {
            assert((y + 1) * w.width == y * w.width + w.width) by (nonlinear_arith);
        }
        y += 1;
    }
    assert(w.height * w.width == w.width * w.height) by (nonlinear_arith);
    assert(out@ =~= cropped(*source, w));
    ImageBuffer { width: w.width, height: w.height, pixels: out }
}

/// The pixels, row-major, that resampling the `width` by `height` image
/// `pixels` to `new_width` by `new_height` with a Lanczos filter of radius
/// three gives.
pub uninterp spec fn lanczos_resize_of(
    width: u32,
    height: u32,
    pixels: Seq<Pixel>,
    new_width: u32,
    new_height: u32,
) -> Seq<Pixel>;

/// Relies on `image::imageops::resize` with `FilterType::Lanczos3`: it
/// returns an image of exactly the requested size.
#[verifier::external_body]
fn resize_lanczos(source: &ImageBuffer, new_width: u32, new_height: u32) -> (r: ImageBuffer)
    requires
        source.wf(),
    ensures
        r.width == new_width,
        r.height == new_height,
        r.pixels@ == lanczos_resize_of(source.width, source.height, source.pixels@, new_width, new_height),
        r.wf(),
{
    let raw: Vec<u8> = source.pixels.iter().flat_map(|p| [p.r, p.g, p.b, p.a]).collect();
    let img = image::RgbaImage::from_raw(source.width, source.height, raw).unwrap();
    let out = image::imageops::resize(&img, new_width, new_height, image::imageops::FilterType::Lanczos3);
    let pixels: Vec<Pixel> = out.pixels().map(|p| Pixel::new(p[0], p[1], p[2], p[3])).collect();
    ImageBuffer { width: out.width(), height: out.height(), pixels }
}

/// The EPD stream made from a source at least the panel's size: the selected window, resampled to the panel's size, quantised
/// and packed.
pub open spec fn converted(source: ImageBuffer) -> Seq<u8> {
    let w = selected(source, EPD_WIDTH as u32, EPD_HEIGHT as u32);
    let scaled = lanczos_resize_of(w.width, w.height, cropped(source, w), EPD_WIDTH as u32, EPD_HEIGHT as u32);
    header(EPD_WIDTH as int, EPD_HEIGHT as int) + packed(dithered(scaled), EPD_WIDTH as int, EPD_HEIGHT as int)
}

/// Turns a photograph into an EPD stream: selects the best window of the
/// target's aspect ratio, resamples it to `width` by `height`, quantises it
/// and packs it. Fails as `select_crop` does, and with `WrongDimensions`
/// where the target is not the panel's size.
pub fn crop_image(source: &ImageBuffer, width: u32, height: u32) -> (r: Result<Vec<u8>, Error>)
    requires
        source.wf(),
    ensures
        (width == 0 || height == 0) ==> r == Err::<Vec<u8>, Error>(Error::InvalidTarget),
        (width > 0 && height > 0 && too_small(
            source.width as int,
            source.height as int,
            width as int,
            height as int,
        )) ==> r == Err::<Vec<u8>, Error>(Error::SourceTooSmall),
        (width > 0 && height > 0 && !too_small(
            source.width as int,
            source.height as int,
            width as int,
            height as int,
        ) && (width != EPD_WIDTH || height != EPD_HEIGHT)) ==> r == Err::<Vec<u8>, Error>(
            Error::WrongDimensions(width as usize, height as usize),
        ),
        (width == EPD_WIDTH && height == EPD_HEIGHT && !too_small(
            source.width as int,
            source.height as int,
            width as int,
            height as int,
        )) ==> (r matches Ok(b) && b@ == converted(*source)),
        r matches Ok(b) ==> b@.len() == HEADER_LEN + packed_len(EPD_WIDTH as int, EPD_HEIGHT as int)
            && b@.subrange(0, HEADER_LEN as int) == header(EPD_WIDTH as int, EPD_HEIGHT as int)
            && palette_stream(b@),
{
    let window = match select_crop(source, width, height) {
        Ok(w) => w,
        Err(e) => return Err(e),
    };
    let part = crop_pixels(source, window);
    let scaled = resize_lanczos(&part, width, height);
    let indexed = match dither_image(&scaled) {
        Ok(img) => img,
        Err(e) => return Err(e),
    };
    encode(&indexed)
}

} // verus!
