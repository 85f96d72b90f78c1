//! The EPD byte format: a thirteen-byte header followed by palette indices
//! packed two to a byte, high nibble first, each row padded on its own.

use vstd::prelude::*;
use vstd::arithmetic::div_mod::lemma_fundamental_div_mod_converse;

use crate::error::Error;
use crate::palette::PALETTE_LEN;
use crate::raster::IndexedImage;
use crate::{EPD_HEIGHT, EPD_WIDTH};

verus! {

/// The format version that this library writes and reads.
pub const EPD_VERSION: u8 = 1;

/// Bytes before the pixel data: magic, version, width, height.
pub const HEADER_LEN: usize = 13;

/// The index packed beside the last pixel of an odd-width row (white).
pub const PADDING_INDEX: u8 = 1;

/// The four magic bytes, ASCII `EPD7`.
pub open spec fn magic() -> Seq<u8> {
    seq![0x45u8, 0x50u8, 0x44u8, 0x37u8]
}

/// `v` as four little-endian bytes.
pub open spec fn le_u32(v: int) -> Seq<u8> {
    seq![
        (v % 256) as u8,
        ((v / 256) % 256) as u8,
        ((v / 65536) % 256) as u8,
        ((v / 16777216) % 256) as u8,
    ]
}

/// The little-endian integer in bytes `at .. at + 4` of `b`.
pub open spec fn read_le_u32(b: Seq<u8>, at: int) -> int {
    b[at] + 256 * b[at + 1] + 65536 * b[at + 2] + 16777216 * b[at + 3]
}

/// The header of an image of the given size.
pub open spec fn header(width: int, height: int) -> Seq<u8> {
    magic().push(EPD_VERSION) + le_u32(width) + le_u32(height)
}

/// Bytes taken by one packed row.
pub open spec fn row_bytes(width: int) -> int {
    (width + 1) / 2
}

/// Bytes taken by the packed pixel data of a `width` by `height` image.
pub open spec fn packed_len(width: int, height: int) -> int {
    height * row_bytes(width)
}

/// One byte holding index `hi` in its high nibble and `lo` in its low one.
pub open spec fn nibble_pair(hi: u8, lo: u8) -> u8 {
    (hi * 16 + lo) as u8
}

/// Byte `c` of packed row `y`: pixels `2c` and `2c + 1` of that row, the
/// padding index standing in for a pixel past the row's end.
pub open spec fn row_byte(idx: Seq<u8>, width: int, y: int, c: int) -> u8 {
    let hi = idx[y * width + 2 * c];
    let lo = if 2 * c + 1 < width {
        idx[y * width + 2 * c + 1]
    } else {
        PADDING_INDEX
    };
    nibble_pair(hi, lo)
}

/// Byte `k` of the packed pixel data.
pub open spec fn packed_byte(idx: Seq<u8>, width: int, k: int) -> u8 {
    row_byte(idx, width, k / row_bytes(width), k % row_bytes(width))
}

/// The packed pixel data of the row-major indices `idx`.
pub open spec fn packed(idx: Seq<u8>, width: int, height: int) -> Seq<u8> {
    Seq::new(packed_len(width, height) as nat, |k: int| packed_byte(idx, width, k))
}

/// The high (`high`) or low nibble of `b`.
pub open spec fn nibble(b: u8, high: bool) -> u8 {
    if high {
        b / 16
    } else {
        b % 16
    }
}

/// Index `i` of the image unpacked from `data`.
pub open spec fn unpacked_index(data: Seq<u8>, width: int, i: int) -> u8 {
    let y = i / width;
    let x = i % width;
    nibble(data[y * row_bytes(width) + x / 2], x % 2 == 0)
}

/// The row-major indices unpacked from the packed pixel data `data`.
pub open spec fn unpacked(data: Seq<u8>, width: int, height: int) -> Seq<u8> {
    Seq::new((width * height) as nat, |i: int| unpacked_index(data, width, i))
}

/// Every index fits in a nibble.
pub open spec fn nibbles(idx: Seq<u8>) -> bool {
    forall|i: int| 0 <= i < idx.len() ==> #[trigger] idx[i] < 16
}

/// The whole EPD stream of `img`.
pub open spec fn encoded(img: IndexedImage) -> Seq<u8> {
    header(img.width as int, img.height as int) + packed(img.indices@, img.width as int, img.height as int)
}

/// Why `b` is not an EPD stream of the panel's size, if it is not one.
pub open spec fn decode_failure(b: Seq<u8>) -> Option<Error> {
    if b.len() < 4 || b.subrange(0, 4) != magic() {
        Some(Error::BadMagic)
    } else if b.len() < 5 {
        Some(Error::Truncated)
    } else if b[4] != EPD_VERSION {
        Some(Error::UnsupportedVersion)
    } else if b.len() < HEADER_LEN {
        Some(Error::Truncated)
    } else if read_le_u32(b, 5) != EPD_WIDTH || read_le_u32(b, 9) != EPD_HEIGHT {
        Some(Error::WrongDimensions(read_le_u32(b, 5) as usize, read_le_u32(b, 9) as usize))
    } else if b.len() < HEADER_LEN + packed_len(EPD_WIDTH as int, EPD_HEIGHT as int) {
        Some(Error::Truncated)
    } else {
        None
    }
}

pub(crate) proof fn lemma_split(i: int, d: int, q: int, r: int)
    requires
        d > 0,
        0 <= r < d,
        i == q * d + r,
    ensures
        i / d == q,
        i % d == r,
{
    lemma_fundamental_div_mod_converse(i, d, q, r);
}

pub(crate) proof fn lemma_row_end(y: int, rows: int, len: int)
    requires
        0 <= y < rows,
        len >= 0,
    ensures
        0 <= y * len,
        y * len + len <= rows * len,
        rows * len == len * rows,
{
    assert(0 <= y * len && y * len + len <= rows * len && rows * len == len * rows) by (nonlinear_arith)
        requires
            0 <= y < rows,
            len >= 0,
    ;
}

proof fn lemma_nibbles(hi: u8, lo: u8)
    requires
        hi < 16,
        lo < 16,
    ensures
        (hi << 4u8) | lo == nibble_pair(hi, lo),
        nibble(nibble_pair(hi, lo), true) == hi,
        nibble(nibble_pair(hi, lo), false) == lo,
{
    assert((hi << 4u8) | lo == hi * 16 + lo) by (bit_vector)
        requires
            hi < 16,
            lo < 16,
    ;
}

proof fn lemma_halves(b: u8)
    ensures
        b >> 4u8 == nibble(b, true),
        b & 15u8 == nibble(b, false),
{
    assert(b >> 4u8 == b / 16) by (bit_vector);
    assert(b & 15u8 == b % 16) by (bit_vector);
}

proof fn lemma_unpack_index(idx: Seq<u8>, width: int, height: int, i: int)
    requires
        width > 0,
        height >= 0,
        idx.len() == width * height,
        nibbles(idx),
        0 <= i < width * height,
    ensures
        unpacked_index(packed(idx, width, height), width, i) == idx[i],
{
    let rb = row_bytes(width);
    let y = i / width;
    let x = i % width;
    vstd::arithmetic::div_mod::lemma_fundamental_div_mod(i, width);
    assert(i == width * y + x);
    assert(0 <= x < width);
    assert(y * width == width * y) by (nonlinear_arith);
    assert(0 <= y < height) by (nonlinear_arith)
        requires
            i == width * y + x,
            0 <= x < width,
            0 <= i < width * height,
            width > 0,
    ;
    lemma_row_end(y, height, rb);
    lemma_row_end(y, height, width);
    let k = y * rb + x / 2;
    assert(0 <= k < packed_len(width, height));
    lemma_split(k, rb, y, x / 2);
    let hi_at = y * width + 2 * (x / 2);
    assert(0 <= hi_at <= i);
    let hi = idx[hi_at];
    let lo = if 2 * (x / 2) + 1 < width {
        idx[y * width + 2 * (x / 2) + 1]
    } else {
        PADDING_INDEX
    };
    assert(lo < 16);
    lemma_nibbles(hi, lo);
    assert(packed(idx, width, height)[k] == nibble_pair(hi, lo));
}

/// Unpacking what `pack_indices` packed gives back every index, the
/// padding nibble of odd-width rows included in none of them.
pub proof fn lemma_unpack_pack(idx: Seq<u8>, width: int, height: int)
    requires
        width >= 0,
        height >= 0,
        idx.len() == width * height,
        nibbles(idx),
    ensures
        unpacked(packed(idx, width, height), width, height) == idx,
{
    if width > 0 {
        assert forall|i: int| 0 <= i < width * height implies #[trigger] unpacked_index(
            packed(idx, width, height),
            width,
            i,
        ) == idx[i] by {
            lemma_unpack_index(idx, width, height, i);
        }
    }
    assert(unpacked(packed(idx, width, height), width, height) =~= idx);
}

/// Packs row-major palette indices two to a byte, high nibble first; the
/// last byte of an odd-width row carries the padding index in its low nibble.
pub fn pack_indices(indices: &Vec<u8>, width: usize, height: usize) -> (r: Vec<u8>)
    requires
        indices@.len() == width * height,
        nibbles(indices@),
    ensures
        r@ == packed(indices@, width as int, height as int),
{
    let rb: usize = width / 2 + width % 2;
    assert(rb == row_bytes(width as int));
    let n: usize = indices.len();
    let mut out: Vec<u8> = Vec::new();
    let mut y: usize = 0;
    while y < height
        invariant
            y <= height,
            rb == row_bytes(width as int),
            n == indices@.len(),
            indices@.len() == width * height,
            nibbles(indices@),
            out@.len() == y * rb,
            forall|k: int| 0 <= k < out@.len() ==> #[trigger] out@[k] == packed_byte(indices@, width as int, k),
        decreases height - y,
    {
        proof {
            lemma_row_end(y as int, height as int, width as int);
        }
        let row: usize = y * width;
        let mut c: usize = 0;
        while c < rb
            invariant
                y < height,
                rb == row_bytes(width as int),
                row == y * width,
                row + width <= indices@.len(),
                n == indices@.len(),
                indices@.len() == width * height,
                nibbles(indices@),
                c <= rb,
                out@.len() == y * rb + c,
                forall|k: int| 0 <= k < out@.len() ==> #[trigger] out@[k] == packed_byte(indices@, width as int, k),
            decreases rb - c,
        {
            let x: usize = 2 * c;
            let hi = indices[row + x];
            let lo = if x + 1 < width {
                indices[row + x + 1]
            } else {
                PADDING_INDEX
            };
            proof {
                lemma_nibbles(hi, lo);
                lemma_split(y * rb + c, rb as int, y as int, c as int);
            }
            out.push((hi << 4u8) | lo);
            c += 1;
        }
        proof {
            assert((y + 1) * rb == y * rb + rb) by (nonlinear_arith);
        }
        y += 1;
    }
    assert(out@ =~= packed(indices@, width as int, height as int));
    out
}

fn unpack_from(data: &Vec<u8>, start: usize, width: usize, height: usize) -> (r: Vec<u8>)
    requires
        start + packed_len(width as int, height as int) <= data@.len(),
        width * height <= usize::MAX,
    ensures
        r@ == unpacked(data@.subrange(start as int, data@.len() as int), width as int, height as int),
{
    let ghost tail = data@.subrange(start as int, data@.len() as int);
    let rb: usize = width / 2 + width % 2;
    assert(rb == row_bytes(width as int));
    let n: usize = data.len();
    let mut out: Vec<u8> = Vec::new();
    let mut y: usize = 0;
    while y < height
        invariant
            y <= height,
            rb == row_bytes(width as int),
            n == data@.len(),
            start + height * rb <= data@.len(),
            width * height <= usize::MAX,
            tail == data@.subrange(start as int, data@.len() as int),
            out@.len() == y * width,
            forall|i: int| 0 <= i < out@.len() ==> #[trigger] out@[i] == unpacked_index(tail, width as int, i),
        decreases height - y,
    {
        proof {
            lemma_row_end(y as int, height as int, rb as int);
            lemma_row_end(y as int, height as int, width as int);
        }
        let base: usize = start + y * rb;
        let mut x: usize = 0;
        while x < width
            invariant
                y < height,
                rb == row_bytes(width as int),
                base == start + y * rb,
                base + rb <= data@.len(),
                n == data@.len(),
                y * width + width <= width * height,
                width * height <= usize::MAX,
                tail == data@.subrange(start as int, data@.len() as int),
                x <= width,
                out@.len() == y * width + x,
                forall|i: int| 0 <= i < out@.len() ==> #[trigger] out@[i] == unpacked_index(tail, width as int, i),
            decreases width - x,
        {
            let b = data[base + x / 2];
            let v = if x % 2 == 0 {
                b >> 4u8
            } else {
                b & 15u8
            };
            proof {
                lemma_halves(b);
                lemma_split(y * width + x, width as int, y as int, x as int);
                assert(tail[y * rb + x / 2] == b);
            }
            out.push(v);
            x += 1;
        }
        proof {
            assert((y + 1) * width == y * width + width) by (nonlinear_arith);
        }
        y += 1;
    }
    assert(height * width == width * height) by (nonlinear_arith);
    assert(out@ =~= unpacked(tail, width as int, height as int));
    out
}

/// Unpacks row-major palette indices, two to a byte, high nibble first,
/// leaving out the padding nibble of odd-width rows.
pub fn unpack_indices(data: &Vec<u8>, width: usize, height: usize) -> (r: Vec<u8>)
    requires
        packed_len(width as int, height as int) <= data@.len(),
        width * height <= usize::MAX,
    ensures
        r@ == unpacked(data@, width as int, height as int),
{
    let r = unpack_from(data, 0, width, height);
    assert(data@.subrange(0, data@.len() as int) =~= data@);
    r
}

fn push_le_u32(out: &mut Vec<u8>, v: u32)
    ensures
        final(out)@ == old(out)@ + le_u32(v as int),
{
    out.push((v % 256) as u8);
    out.push(((v / 256) % 256) as u8);
    out.push(((v / 65536) % 256) as u8);
    out.push(((v / 16777216) % 256) as u8);
    assert(final(out)@ =~= old(out)@ + le_u32(v as int));
}

fn read_le_u32_at(b: &Vec<u8>, at: usize) -> (r: u32)
    requires
        at <= HEADER_LEN,
        at + 4 <= b@.len(),
    ensures
        r == read_le_u32(b@, at as int),
{
    b[at] as u32 + 256 * (b[at + 1] as u32) + 65536 * (b[at + 2] as u32) + 16777216 * (b[at + 3] as u32)
}

/// Both nibbles of every pixel-data byte of the stream `b` are palette
/// indices.
pub open spec fn palette_stream(b: Seq<u8>) -> bool {
    forall|k: int|
        HEADER_LEN <= k < b.len() ==> nibble(#[trigger] b[k], true) < PALETTE_LEN && nibble(b[k], false)
            < PALETTE_LEN
}

proof fn lemma_packed_byte_palette(idx: Seq<u8>, width: int, height: int, k: int)
    requires
        width >= 0,
        height >= 0,
        idx.len() == width * height,
        forall|i: int| 0 <= i < idx.len() ==> #[trigger] idx[i] < PALETTE_LEN,
        0 <= k < packed_len(width, height),
    ensures
        nibble(packed_byte(idx, width, k), true) < PALETTE_LEN,
        nibble(packed_byte(idx, width, k), false) < PALETTE_LEN,
{
    let rb = row_bytes(width);
    assert(rb > 0) by (nonlinear_arith)
        requires
            0 <= k < height * rb,
            height >= 0,
    ;
    let y = k / rb;
    let c = k % rb;
    vstd::arithmetic::div_mod::lemma_fundamental_div_mod(k, rb);
    assert(0 <= c < rb);
    assert(0 <= y < height) by (nonlinear_arith)
        requires
            k == rb * y + c,
            0 <= c < rb,
            0 <= k < height * rb,
            rb > 0,
    ;
    assert(2 * c + 1 <= width);
    lemma_row_end(y, height, width);
    let hi = idx[y * width + 2 * c];
    let lo = if 2 * c + 1 < width {
        idx[y * width + 2 * c + 1]
    } else {
        PADDING_INDEX
    };
    lemma_nibbles(hi, lo);
}

/// Writes `img` as an EPD stream: the header, then its packed indices.
/// Only an image of the panel's size is written; any other fails with
/// `WrongDimensions` carrying its width and height.
pub fn encode(img: &IndexedImage) -> (r: Result<Vec<u8>, Error>)
    requires
        img.wf(),
    ensures
        (img.width != EPD_WIDTH || img.height != EPD_HEIGHT) ==> r == Err::<Vec<u8>, Error>(
            Error::WrongDimensions(img.width, img.height),
        ),
        (img.width == EPD_WIDTH && img.height == EPD_HEIGHT) ==> (r matches Ok(b) && b@ == encoded(*img)),
        r matches Ok(b) ==> palette_stream(b@),
{
    if img.width != EPD_WIDTH || img.height != EPD_HEIGHT {
        return Err(Error::WrongDimensions(img.width, img.height));
    }
    let mut out: Vec<u8> = Vec::new();
    out.push(0x45u8);
    out.push(0x50u8);
    out.push(0x44u8);
    out.push(0x37u8);
    out.push(EPD_VERSION);
    assert(out@ =~= magic().push(EPD_VERSION));
    push_le_u32(&mut out, EPD_WIDTH as u32);
    push_le_u32(&mut out, EPD_HEIGHT as u32);
    assert(out@ =~= header(EPD_WIDTH as int, EPD_HEIGHT as int));
    assert forall|i: int| 0 <= i < img.indices@.len() implies #[trigger] img.indices@[i] < 16 by {}
    let mut data = pack_indices(&img.indices, img.width, img.height);
    let ghost head = out@;
    let ghost body = data@;
    out.append(&mut data);
    assert forall|k: int| HEADER_LEN <= k < out@.len() implies nibble(#[trigger] out@[k], true) < PALETTE_LEN
        && nibble(out@[k], false) < PALETTE_LEN by {
        assert(out@[k] == packed_byte(img.indices@, img.width as int, k - HEADER_LEN))
            by {
            assert(out@[k] == body[k - head.len()]);
        }
        lemma_packed_byte_palette(img.indices@, img.width as int, img.height as int, k - HEADER_LEN);
    }
    Ok(out)
}

/// Reads an EPD stream of the panel's size. Fails with `BadMagic` unless
/// it starts with `EPD7`, `UnsupportedVersion` unless the version byte is
/// this library's, `WrongDimensions` unless the header declares the panel's
/// size, and `Truncated` where fewer bytes are present than the header
/// needs or declares. Bytes past the declared pixel data are ignored.
pub fn decode(bytes: &Vec<u8>) -> (r: Result<IndexedImage, Error>)
    ensures
        (bytes@.len() < 4 || bytes@.subrange(0, 4) != magic()) ==> r == Err::<IndexedImage, Error>(
            Error::BadMagic,
        ),
        match r {
            Ok(img) => {
                &&& decode_failure(bytes@) == None::<Error>
                &&& img.width == EPD_WIDTH
                &&& img.height == EPD_HEIGHT
                &&& img.indices@ == unpacked(
                    bytes@.subrange(HEADER_LEN as int, bytes@.len() as int),
                    EPD_WIDTH as int,
                    EPD_HEIGHT as int,
                )
            },
            Err(e) => decode_failure(bytes@) == Some(e),
        },
{
    let n: usize = bytes.len();
    if n < 4 || bytes[0] != 0x45u8 || bytes[1] != 0x50u8 || bytes[2] != 0x44u8 || bytes[3] != 0x37u8 {
        proof {
            if n >= 4 {
                assert(bytes@.subrange(0, 4)[0] == bytes@[0]);
                assert(bytes@.subrange(0, 4)[1] == bytes@[1]);
                assert(bytes@.subrange(0, 4)[2] == bytes@[2]);
                assert(bytes@.subrange(0, 4)[3] == bytes@[3]);
            }
        }
        return Err(Error::BadMagic);
    }
    assert(bytes@.subrange(0, 4) =~= magic());
    if n < 5 {
        return Err(Error::Truncated);
    }
    if bytes[4] != EPD_VERSION {
        return Err(Error::UnsupportedVersion);
    }
    if n < HEADER_LEN {
        return Err(Error::Truncated);
    }
    let width = read_le_u32_at(bytes, 5);
    let height = read_le_u32_at(bytes, 9);
    if width as usize != EPD_WIDTH || height as usize != EPD_HEIGHT {
        return Err(Error::WrongDimensions(width as usize, height as usize));
    }
    assert(packed_len(EPD_WIDTH as int, EPD_HEIGHT as int) == 192000);
    if n < HEADER_LEN + 192000 {
        return Err(Error::Truncated);
    }
    let indices = unpack_from(bytes, HEADER_LEN, EPD_WIDTH, EPD_HEIGHT);
    Ok(IndexedImage { width: EPD_WIDTH, height: EPD_HEIGHT, indices })
}

/// Decoding the encoding of a panel-sized image succeeds and gives back
/// every one of its indices.
pub proof fn lemma_decode_encode(img: IndexedImage)
    requires
        img.wf(),
        img.width == EPD_WIDTH,
        img.height == EPD_HEIGHT,
    ensures
        decode_failure(encoded(img)) == None::<Error>,
        unpacked(
            encoded(img).subrange(HEADER_LEN as int, encoded(img).len() as int),
            EPD_WIDTH as int,
            EPD_HEIGHT as int,
        ) == img.indices@,
{
    let b = encoded(img);
    let h = header(EPD_WIDTH as int, EPD_HEIGHT as int);
    let p = packed(img.indices@, EPD_WIDTH as int, EPD_HEIGHT as int);
    assert(h =~= seq![0x45u8, 0x50u8, 0x44u8, 0x37u8, 1u8, 32u8, 3u8, 0u8, 0u8, 224u8, 1u8, 0u8, 0u8]);
    assert(packed_len(EPD_WIDTH as int, EPD_HEIGHT as int) == 192000);
    assert(b.subrange(0, 4) =~= magic());
    assert(b[4] == EPD_VERSION);
    assert(read_le_u32(b, 5) == EPD_WIDTH);
    assert(read_le_u32(b, 9) == EPD_HEIGHT);
    assert(b.subrange(HEADER_LEN as int, b.len() as int) =~= p);
    assert forall|i: int| 0 <= i < img.indices@.len() implies #[trigger] img.indices@[i] < 16 by {}
    lemma_unpack_pack(img.indices@, EPD_WIDTH as int, EPD_HEIGHT as int);
}

} // verus!
