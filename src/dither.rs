//! Palette quantisation with Floyd–Steinberg error diffusion.

use vstd::prelude::*;

use crate::error::Error;
use crate::palette::{palette, palette_spec};
use crate::raster::{ImageBuffer, IndexedImage, Pixel};
use crate::{EPD_HEIGHT, EPD_WIDTH};

verus! {

/// The palette indices that exoquant's Floyd–Steinberg remapper gives the
/// row-major `pixels`, in rows of `width`, against `palette`.
pub uninterp spec fn floyd_steinberg_of(palette: Seq<Pixel>, pixels: Seq<Pixel>, width: usize) -> Seq<u8>;

/// Relies on `exoquant::Remapper::remap` over `SimpleColorSpace` with
/// `ditherer::FloydSteinberg::vanilla()` (weights 7/16, 3/16, 5/16, 1/16,
/// error carried undamped): it scans the pixels in row-major order and
/// yields, for each, the index of a palette entry.
#[verifier::external_body]
fn remap_floyd_steinberg(palette: &Vec<Pixel>, pixels: &Vec<Pixel>, width: usize) -> (r: Vec<u8>)
    requires
        0 < palette@.len() <= 256,
        width > 0,
    ensures
        r@ == floyd_steinberg_of(palette@, pixels@, width),
        r@.len() == pixels@.len(),
        forall|i: int| 0 <= i < r@.len() ==> #[trigger] r@[i] < palette@.len(),
{
    let palette: Vec<exoquant::Color> = palette.iter().map(|p| exoquant::Color::new(p.r, p.g, p.b, p.a)).collect();
    let pixels: Vec<exoquant::Color> = pixels.iter().map(|p| exoquant::Color::new(p.r, p.g, p.b, p.a)).collect();
    let colorspace = exoquant::SimpleColorSpace::default();
    let ditherer = exoquant::ditherer::FloydSteinberg::vanilla();
    exoquant::Remapper::new(&palette, &colorspace, &ditherer).remap(&pixels, width)
}

/// `p` with its alpha channel made fully opaque.
pub open spec fn opaque_pixel(p: Pixel) -> Pixel {
    Pixel { r: p.r, g: p.g, b: p.b, a: 255 }
}

/// The pixels with alpha ignored, i.e. made fully opaque.
pub open spec fn opaque(pixels: Seq<Pixel>) -> Seq<Pixel> {
    pixels.map_values(|p: Pixel| opaque_pixel(p))
}

/// The indices that quantising a panel-sized image gives.
pub open spec fn dithered(pixels: Seq<Pixel>) -> Seq<u8> {
    floyd_steinberg_of(palette_spec(), opaque(pixels), EPD_WIDTH)
}

fn make_opaque(pixels: &Vec<Pixel>) -> (r: Vec<Pixel>)
    ensures
        r@ == opaque(pixels@),
{
    let mut out: Vec<Pixel> = Vec::new();
    let mut i: usize = 0;
    while i < pixels.len()
        invariant
            i <= pixels@.len(),
            out@ =~= opaque(pixels@).take(i as int),
        decreases pixels@.len() - i,
    {
        let p = pixels[i];
        out.push(Pixel { r: p.r, g: p.g, b: p.b, a: 255 });
        i += 1;
        assert(out@ =~= opaque(pixels@).take(i as int));
    }
    assert(opaque(pixels@).take(i as int) =~= opaque(pixels@));
    out
}

/// Maps a panel-sized image onto the fixed palette, scanning row-major and
/// diffusing each pixel's error to its unvisited neighbours. Alpha is
/// ignored. An image of any other size fails with `WrongDimensions`
/// carrying its width and height.
pub fn dither_image(image: &ImageBuffer) -> (r: Result<IndexedImage, Error>)
    requires
        image.wf(),
    ensures
        (image.width != EPD_WIDTH || image.height != EPD_HEIGHT) ==> r == Err::<IndexedImage, Error>(
            Error::WrongDimensions(image.width as usize, image.height as usize),
        ),
        (image.width == EPD_WIDTH && image.height == EPD_HEIGHT) ==> (r matches Ok(img) && {
            &&& img.width == EPD_WIDTH
            &&& img.height == EPD_HEIGHT
            &&& img.indices@ == dithered(image.pixels@)
            &&& img.wf()
        }),
{
    if image.width as usize != EPD_WIDTH || image.height as usize != EPD_HEIGHT {
        return Err(Error::WrongDimensions(image.width as usize, image.height as usize));
    }
    let colors = palette();
    let pixels = make_opaque(&image.pixels);
    let indices = remap_floyd_steinberg(&colors, &pixels, EPD_WIDTH);
    let img = IndexedImage { width: EPD_WIDTH, height: EPD_HEIGHT, indices };
    assert(img.indices@.len() == img.width * img.height);
    Ok(img)
}

} // verus!
