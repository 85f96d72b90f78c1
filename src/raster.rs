//! Pixel buffers and palette-indexed images.

use vstd::prelude::*;

use crate::error::Error;
use crate::palette::PALETTE_LEN;
use crate::{EPD_HEIGHT, EPD_WIDTH};

verus! {

/// One RGBA pixel, eight bits per channel.
#[derive(Debug, Clone, Copy, PartialEq, Eq, Structural)]
pub struct Pixel {
    pub r: u8,
    pub g: u8,
    pub b: u8,
    pub a: u8,
}

impl Pixel {
    pub fn new(r: u8, g: u8, b: u8, a: u8) -> (p: Pixel)
        ensures
            p == (Pixel { r, g, b, a }),
    {
        Pixel { r, g, b, a }
    }
}

/// A row-major grid of pixels, origin at the top left.
#[derive(Debug, Clone)]
pub struct ImageBuffer {
    pub width: u32,
    pub height: u32,
    pub pixels: Vec<Pixel>,
}

impl ImageBuffer {
    /// The buffer holds exactly one pixel per grid cell.
    pub open spec fn wf(&self) -> bool {
        self.pixels@.len() == self.width * self.height
    }

    /// The pixel at column `x` of row `y`.
    pub open spec fn at(&self, x: int, y: int) -> Pixel {
        self.pixels@[y * self.width + x]
    }
}

/// A row-major grid of palette indices.
#[derive(Debug, Clone)]
pub struct IndexedImage {
    pub width: usize,
    pub height: usize,
    pub indices: Vec<u8>,
}

impl IndexedImage {
    /// One index per grid cell, each naming a palette entry.
    pub open spec fn wf(&self) -> bool {
        &&& self.indices@.len() == self.width * self.height
        &&& forall|i: int| 0 <= i < self.indices@.len() ==> #[trigger] self.indices@[i] < PALETTE_LEN
    }
}

/// Accepts decoded pixels as a panel-sized image. Any other size, or a
/// pixel count that does not match the size, fails with `WrongDimensions`
/// carrying the width and height given.
pub fn panel_image(width: usize, height: usize, pixels: Vec<Pixel>) -> (r: Result<ImageBuffer, Error>)
    ensures
        (width == EPD_WIDTH && height == EPD_HEIGHT && pixels@.len() == width * height) ==> (r matches Ok(
            img,
        ) && img.width == EPD_WIDTH && img.height == EPD_HEIGHT && img.pixels@ == pixels@),
        !(width == EPD_WIDTH && height == EPD_HEIGHT && pixels@.len() == width * height) ==> r == Err::<
            ImageBuffer,
            Error,
        >(Error::WrongDimensions(width, height)),
{
    if width != EPD_WIDTH || height != EPD_HEIGHT || pixels.len() != EPD_WIDTH * EPD_HEIGHT {
        return Err(Error::WrongDimensions(width, height));
    }
    Ok(ImageBuffer { width: EPD_WIDTH as u32, height: EPD_HEIGHT as u32, pixels })
}

/// The colour shown for index `i`: its palette entry, or the last entry for
/// an index past the palette's end.
pub open spec fn shown(palette: Seq<Pixel>, i: u8) -> Pixel {
    if (i as int) < palette.len() {
        palette[i as int]
    } else {
        palette[palette.len() - 1]
    }
}

/// Paints an indexed image in the colours of `palette`, for previewing.
pub fn render_preview(img: &IndexedImage, palette: &Vec<Pixel>) -> (r: ImageBuffer)
    requires
        img.indices@.len() == img.width * img.height,
        img.width <= u32::MAX,
        img.height <= u32::MAX,
        palette@.len() > 0,
    ensures
        r.width == img.width,
        r.height == img.height,
        r.wf(),
        r.pixels@ == img.indices@.map_values(|i: u8| shown(palette@, i)),
{
    let mut out: Vec<Pixel> = Vec::new();
    let last: usize = palette.len() - 1;
    let mut k: usize = 0;
    while k < img.indices.len()
        invariant
            k <= img.indices@.len(),
            last == palette@.len() - 1,
            out@ =~= img.indices@.take(k as int).map_values(|i: u8| shown(palette@, i)),
        decreases img.indices@.len() - k,
    {
        let i = img.indices[k] as usize;
        let c = if i <= last {
            palette[i]
        } else {
            palette[last]
        };
        out.push(c);
        k += 1;
        assert(out@ =~= img.indices@.take(k as int).map_values(|i: u8| shown(palette@, i)));
    }
    assert(img.indices@.take(k as int) =~= img.indices@);
    ImageBuffer { width: img.width as u32, height: img.height as u32, pixels: out }
}

} // verus!
