//! The panel's fixed seven-colour palette.

use vstd::prelude::*;

use crate::raster::Pixel;

verus! {

/// Number of palette entries.
pub const PALETTE_LEN: u8 = 7;

pub const BLACK: u8 = 0;
pub const WHITE: u8 = 1;
pub const GREEN: u8 = 2;
pub const BLUE: u8 = 3;
pub const RED: u8 = 4;
pub const YELLOW: u8 = 5;
pub const ORANGE: u8 = 6;

/// The opaque colour of each palette index, in index order.
pub open spec fn palette_spec() -> Seq<Pixel> {
    seq![
        Pixel { r: 0, g: 0, b: 0, a: 255 },
        Pixel { r: 255, g: 255, b: 255, a: 255 },
        Pixel { r: 0, g: 255, b: 0, a: 255 },
        Pixel { r: 0, g: 0, b: 255, a: 255 },
        Pixel { r: 255, g: 0, b: 0, a: 255 },
        Pixel { r: 255, g: 255, b: 0, a: 255 },
        Pixel { r: 255, g: 128, b: 0, a: 255 },
    ]
}

/// The palette, index `i` holding the colour of index `i`.
pub fn palette() -> (p: Vec<Pixel>)
    ensures
        p@ == palette_spec(),
        p@.len() == PALETTE_LEN,
{
    let p = vec![
        Pixel::new(0, 0, 0, 255),
        Pixel::new(255, 255, 255, 255),
        Pixel::new(0, 255, 0, 255),
        Pixel::new(0, 0, 255, 255),
        Pixel::new(255, 0, 0, 255),
        Pixel::new(255, 255, 0, 255),
        Pixel::new(255, 128, 0, 255),
    ];
    assert(p@ =~= palette_spec());
    p
}

} // verus!
