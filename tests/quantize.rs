use photo_desk::dither::dither_image;
use photo_desk::error::Error;
use photo_desk::palette::{palette, BLUE, RED, WHITE};
use photo_desk::raster::{panel_image, render_preview, ImageBuffer, IndexedImage, Pixel};
use photo_desk::{EPD_HEIGHT, EPD_WIDTH};

fn filled(p: Pixel) -> ImageBuffer {
    ImageBuffer { width: EPD_WIDTH as u32, height: EPD_HEIGHT as u32, pixels: vec![p; EPD_WIDTH * EPD_HEIGHT] }
}

#[test]
fn all_white_quantizes_to_white() {
    let img = dither_image(&filled(Pixel::new(255, 255, 255, 255))).unwrap();
    assert_eq!(img.width, EPD_WIDTH);
    assert_eq!(img.height, EPD_HEIGHT);
    assert!(img.indices.iter().all(|&i| i == WHITE));
}

#[test]
fn palette_colours_map_to_their_index() {
    let red = dither_image(&filled(Pixel::new(255, 0, 0, 255))).unwrap();
    assert!(red.indices.iter().all(|&i| i == RED));
    let blue = dither_image(&filled(Pixel::new(0, 0, 255, 10))).unwrap();
    assert!(blue.indices.iter().all(|&i| i == BLUE));
}

#[test]
fn quantize_rejects_other_sizes() {
    let img = ImageBuffer { width: 2, height: 2, pixels: vec![Pixel::new(0, 0, 0, 255); 4] };
    assert_eq!(dither_image(&img).err(), Some(Error::WrongDimensions(2, 2)));
}

#[test]
fn panel_image_checks_size() {
    let ok = panel_image(EPD_WIDTH, EPD_HEIGHT, vec![Pixel::new(1, 2, 3, 4); EPD_WIDTH * EPD_HEIGHT]).unwrap();
    assert_eq!((ok.width, ok.height), (800, 480));
    assert_eq!(panel_image(640, 480, vec![]).err(), Some(Error::WrongDimensions(640, 480)));
    assert_eq!(panel_image(EPD_WIDTH, EPD_HEIGHT, vec![]).err(), Some(Error::WrongDimensions(800, 480)));
}

#[test]
fn palette_has_seven_fixed_colours() {
    let p = palette();
    assert_eq!(p.len(), 7);
    assert_eq!(p[0], Pixel::new(0, 0, 0, 255));
    assert_eq!(p[1], Pixel::new(255, 255, 255, 255));
    assert_eq!(p[6], Pixel::new(255, 128, 0, 255));
}

#[test]
fn preview_clamps_out_of_range_indices() {
    let img = IndexedImage { width: 3, height: 1, indices: vec![0, 4, 9] };
    let out = render_preview(&img, &palette());
    assert_eq!((out.width, out.height), (3, 1));
    assert_eq!(out.pixels, vec![Pixel::new(0, 0, 0, 255), Pixel::new(255, 0, 0, 255), Pixel::new(255, 128, 0, 255)]);
}
