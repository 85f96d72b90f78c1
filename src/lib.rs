//! Turns photographs into packed, fixed-palette bitmaps for a seven-colour
//! electronic-paper panel: crop selection, palette quantisation and the EPD
//! byte format.

use vstd::prelude::*;

pub mod config;
pub mod crop;
pub mod dither;
pub mod epd;
pub mod error;
pub mod palette;
pub mod photos;
pub mod paths;
pub mod raster;

verus! {

/// Width of the panel, in pixels.
pub const EPD_WIDTH: usize = 800;

/// Height of the panel, in pixels.
pub const EPD_HEIGHT: usize = 480;

} // verus!
