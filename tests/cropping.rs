use photo_desk::crop::{crop_image, crop_pixels, select_crop, CropWindow};
use photo_desk::epd::{decode, HEADER_LEN};
use photo_desk::error::Error;
use photo_desk::raster::{ImageBuffer, Pixel};

fn gradient(width: u32, height: u32) -> ImageBuffer {
    let mut pixels = Vec::new();
    for y in 0..height {
        for x in 0..width {
            let r = (x * 255 / width.max(1)) as u8;
            let g = (y * 255 / height.max(1)) as u8;
            let b = ((x + y) % 256) as u8;
            pixels.push(Pixel::new(r, g, b, 255));
        }
    }
    ImageBuffer { width, height, pixels }
}

#[test]
fn zero_target_width_is_invalid() {
    assert_eq!(select_crop(&gradient(40, 30), 0, 480), Err(Error::InvalidTarget));
    assert_eq!(select_crop(&gradient(40, 30), 800, 0), Err(Error::InvalidTarget));
}

#[test]
fn source_smaller_than_target_is_too_small() {
    assert_eq!(select_crop(&gradient(4, 2), 800, 480), Err(Error::SourceTooSmall));
    assert_eq!(select_crop(&gradient(100, 50), 800, 480), Err(Error::SourceTooSmall));
    assert_eq!(select_crop(&gradient(799, 600), 800, 480), Err(Error::SourceTooSmall));
    assert_eq!(select_crop(&gradient(900, 479), 800, 480), Err(Error::SourceTooSmall));
    assert_eq!(select_crop(&gradient(0, 0), 800, 480), Err(Error::SourceTooSmall));
    assert_eq!(crop_image(&gradient(100, 50), 800, 480), Err(Error::SourceTooSmall));
}

fn check_window(w: CropWindow, width: u32, height: u32, tw: u32, th: u32) {
    assert!(w.width >= tw && w.height >= th, "{:?} for {}x{}", w, tw, th);
    assert!(w.x + w.width <= width, "{:?} in {}x{}", w, width, height);
    assert!(w.y + w.height <= height, "{:?} in {}x{}", w, width, height);
    let d = w.width as i64 * th as i64 - w.height as i64 * tw as i64;
    assert!(d.abs() < tw.max(th) as i64, "{:?} for {}x{}", w, tw, th);
}

#[test]
fn source_of_target_size_is_taken_whole() {
    let w = select_crop(&gradient(40, 24), 40, 24).unwrap();
    assert_eq!(w, CropWindow { x: 0, y: 0, width: 40, height: 24 });
}

#[test]
fn window_is_the_largest_of_the_ratio() {
    let w = select_crop(&gradient(120, 24), 40, 24).unwrap();
    assert_eq!((w.width, w.height), (40, 24));
    check_window(w, 120, 24, 40, 24);
    let w = select_crop(&gradient(50, 90), 40, 24).unwrap();
    assert_eq!((w.width, w.height), (50, 30));
    check_window(w, 50, 90, 40, 24);
}

#[test]
fn windows_stay_inside_varied_sources() {
    let mut seed: u32 = 12345;
    for _ in 0..12 {
        seed = seed.wrapping_mul(1103515245).wrapping_add(12345);
        let width = 40 + (seed >> 8) % 200;
        seed = seed.wrapping_mul(1103515245).wrapping_add(12345);
        let height = 24 + (seed >> 8) % 200;
        let w = select_crop(&gradient(width, height), 40, 24).unwrap();
        check_window(w, width, height, 40, 24);
    }
}

#[test]
fn large_sources_are_analysed_scaled_down() {
    let w = select_crop(&gradient(803, 800), 800, 480).unwrap();
    check_window(w, 803, 800, 800, 480);
    assert_eq!((w.width, w.height), (803, 481));
    let w = select_crop(&gradient(1000, 520), 800, 480).unwrap();
    check_window(w, 1000, 520, 800, 480);
    assert_eq!((w.width, w.height), (866, 520));
}

#[test]
fn crop_pixels_copies_the_window() {
    let src = gradient(6, 4);
    let part = crop_pixels(&src, CropWindow { x: 1, y: 2, width: 3, height: 2 });
    assert_eq!((part.width, part.height), (3, 2));
    assert_eq!(part.pixels[0], src.pixels[2 * 6 + 1]);
    assert_eq!(part.pixels[5], src.pixels[3 * 6 + 3]);
}

#[test]
fn crop_image_produces_a_panel_stream() {
    let bytes = crop_image(&gradient(820, 500), 800, 480).unwrap();
    assert_eq!(bytes.len(), HEADER_LEN + 480 * 400);
    assert_eq!(&bytes[..HEADER_LEN], &[0x45, 0x50, 0x44, 0x37, 1, 32, 3, 0, 0, 224, 1, 0, 0]);
    assert!(bytes[HEADER_LEN..].iter().all(|&b| b >> 4 < 7 && b & 15 < 7));
    let img = decode(&bytes).unwrap();
    assert!(img.indices.iter().all(|&i| i < 7));
}

#[test]
fn crop_image_needs_the_panel_size() {
    assert_eq!(crop_image(&gradient(40, 30), 40, 30), Err(Error::WrongDimensions(40, 30)));
}
