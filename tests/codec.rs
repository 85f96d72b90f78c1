use photo_desk::epd::{decode, encode, pack_indices, unpack_indices, HEADER_LEN};
use photo_desk::error::Error;
use photo_desk::raster::IndexedImage;
use photo_desk::{EPD_HEIGHT, EPD_WIDTH};

fn panel_image_with(first: &[u8]) -> IndexedImage {
    let mut indices = vec![0u8; EPD_WIDTH * EPD_HEIGHT];
    indices[..first.len()].copy_from_slice(first);
    IndexedImage { width: EPD_WIDTH, height: EPD_HEIGHT, indices }
}

fn pattern_image() -> IndexedImage {
    let indices = (0..EPD_WIDTH * EPD_HEIGHT).map(|i| ((i * 7 + i / 13) % 7) as u8).collect();
    IndexedImage { width: EPD_WIDTH, height: EPD_HEIGHT, indices }
}

#[test]
fn encode_writes_header() {
    let bytes = encode(&panel_image_with(&[])).unwrap();
    assert_eq!(&bytes[..HEADER_LEN], &[0x45, 0x50, 0x44, 0x37, 1, 32, 3, 0, 0, 224, 1, 0, 0]);
    assert_eq!(bytes.len(), HEADER_LEN + 480 * 400);
}

#[test]
fn encode_packs_first_pair_high_nibble_first() {
    let bytes = encode(&panel_image_with(&[0, 3])).unwrap();
    assert_eq!(bytes[HEADER_LEN], 0x03);
    assert!(bytes[HEADER_LEN + 1..].iter().all(|&b| b == 0));
}

#[test]
fn encode_packs_pairs_in_row_order() {
    let bytes = encode(&panel_image_with(&[6, 1, 2, 5])).unwrap();
    assert_eq!(bytes[HEADER_LEN], 0x61);
    assert_eq!(bytes[HEADER_LEN + 1], 0x25);
}

#[test]
fn encode_rejects_other_sizes() {
    let img = IndexedImage { width: 2, height: 1, indices: vec![0, 3] };
    assert_eq!(encode(&img), Err(Error::WrongDimensions(2, 1)));
}

#[test]
fn decode_reverses_encode() {
    let img = pattern_image();
    let bytes = encode(&img).unwrap();
    let back = decode(&bytes).unwrap();
    assert_eq!(back.width, EPD_WIDTH);
    assert_eq!(back.height, EPD_HEIGHT);
    assert_eq!(back.indices, img.indices);
}

#[test]
fn decode_ignores_trailing_bytes() {
    let img = pattern_image();
    let mut bytes = encode(&img).unwrap();
    bytes.extend_from_slice(&[0xff, 0xff]);
    assert_eq!(decode(&bytes).unwrap().indices, img.indices);
}

#[test]
fn decode_rejects_bad_magic() {
    let mut bytes = encode(&pattern_image()).unwrap();
    bytes[0] = b'X';
    assert_eq!(decode(&bytes).err(), Some(Error::BadMagic));
    assert_eq!(decode(&b"EPD8".to_vec()).err(), Some(Error::BadMagic));
    assert_eq!(decode(&b"PNG".to_vec()).err(), Some(Error::BadMagic));
    assert_eq!(decode(&Vec::new()).err(), Some(Error::BadMagic));
}

#[test]
fn decode_rejects_unknown_version() {
    let mut bytes = encode(&pattern_image()).unwrap();
    bytes[4] = 2;
    assert_eq!(decode(&bytes).err(), Some(Error::UnsupportedVersion));
}

#[test]
fn decode_reports_truncation() {
    let bytes = encode(&pattern_image()).unwrap();
    assert_eq!(decode(&bytes[..4].to_vec()).err(), Some(Error::Truncated));
    assert_eq!(decode(&bytes[..10].to_vec()).err(), Some(Error::Truncated));
    assert_eq!(decode(&bytes[..bytes.len() - 1].to_vec()).err(), Some(Error::Truncated));
}

#[test]
fn decode_rejects_other_sizes() {
    let mut bytes = encode(&pattern_image()).unwrap();
    bytes[5] = 33;
    assert_eq!(decode(&bytes).err(), Some(Error::WrongDimensions(801, 480)));
}

#[test]
fn pack_pads_odd_rows_with_white() {
    let packed = pack_indices(&vec![1, 2, 3, 4, 5, 6], 3, 2);
    assert_eq!(packed, vec![0x12, 0x31, 0x45, 0x61]);
}

#[test]
fn unpack_drops_padding_nibble() {
    let unpacked = unpack_indices(&vec![0x12, 0x31, 0x45, 0x61], 3, 2);
    assert_eq!(unpacked, vec![1, 2, 3, 4, 5, 6]);
}

#[test]
fn pack_then_unpack_odd_width() {
    let indices: Vec<u8> = (0..35).map(|i| (i % 16) as u8).collect();
    let packed = pack_indices(&indices, 7, 5);
    assert_eq!(packed.len(), 5 * 4);
    assert_eq!(unpack_indices(&packed, 7, 5), indices);
}
