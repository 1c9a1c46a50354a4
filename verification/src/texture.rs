//! Texture images: RGBA8 pixel buffers, decoded from PNG data and turned
//! upside down, so that the first row in memory is the bottom row of the
//! picture.

use vstd::arithmetic::div_mod::lemma_fundamental_div_mod_converse;
use vstd::prelude::*;

verus! {

/// A 2D image of RGBA8 pixels, row after row.
pub struct Texture {
    pub width: u32,
    pub height: u32,
    /// Four bytes per pixel, `width` pixels per row, `height` rows.
    pub pixels: Vec<u8>,
}

impl Texture {
    /// The buffer holds exactly `width * height` pixels.
    pub open spec fn wf(&self) -> bool {
        self.pixels@.len() == 4 * self.width * self.height
    }

    /// Bytes per row.
    pub open spec fn row_len(&self) -> int {
        4 * self.width
    }
}

/// The byte at position `i` of a buffer of `rows` rows of `row` bytes each,
/// after the order of the rows is reversed: the byte at the same place within
/// the opposite row.
pub open spec fn flipped_byte(pixels: Seq<u8>, row: int, rows: int, i: int) -> u8 {
    pixels[(rows - 1 - i / row) * row + i % row]
}

/// A buffer of `rows` rows of `row` bytes each, with the order of its rows reversed.
pub open spec fn flipped_rows(pixels: Seq<u8>, row: int, rows: int) -> Seq<u8> {
    Seq::new(pixels.len(), |i: int| flipped_byte(pixels, row, rows, i))
}

/// What decoding `bytes` as a PNG image and converting it to RGBA8 gives:
/// width, height and the pixel bytes, or nothing where `bytes` cannot be decoded.
pub uninterp spec fn decoded_png(bytes: Seq<u8>) -> Option<(u32, u32, Seq<u8>)>;

/// `image::load_from_memory_with_format` with the PNG format, followed by
/// `DynamicImage::into_rgba8`. The contract claims only that the outcome is
/// determined by the bytes; nothing is claimed of the decoded buffer's size.
#[verifier::external_body]
fn decode_png(bytes: &[u8]) -> (decoded: Option<(u32, u32, Vec<u8>)>)
    ensures
        match decoded {
            Some(picture) => decoded_png(bytes@) == Some((picture.0, picture.1, picture.2@)),
            None => decoded_png(bytes@).is_none(),
        },
{
    match image::load_from_memory_with_format(bytes, image::ImageFormat::Png) {
        Ok(picture) => {
            let rgba = picture.into_rgba8();
            Some((rgba.width(), rgba.height(), rgba.into_raw()))
        },
        Err(_) => None,
    }
}

impl Texture {
    /// Makes a texture of a pixel buffer, provided that the buffer holds
    /// exactly `width * height` RGBA8 pixels.
    pub fn from_rgba8(width: u32, height: u32, pixels: Vec<u8>) -> (made: Option<Texture>)
        ensures
            pixels@.len() == 4 * width * height ==> made == Some(
                (Texture { width, height, pixels }),
            ),
            pixels@.len() != 4 * width * height ==> made.is_none(),
    {
        let ghost w: int = width as int;
        let ghost h: int = height as int;
        assert(0 <= w * h <= 0xffff_ffff * 0xffff_ffff && 4 * w * h == 4 * (w * h)) by (nonlinear_arith)
            requires
                0 <= w <= 0xffff_ffff,
                0 <= h <= 0xffff_ffff,
        ;
        let area: u64 = (width as u64) * (height as u64);
        let len: usize = pixels.len();
        if len % 4 == 0 && (len / 4) as u64 == area {
            Some(Texture { width, height, pixels })
        } else {
            None
        }
    }

    /// The same picture with its rows in the opposite order.
    pub fn flip_vertical(&self) -> (flipped: Texture)
        requires
            self.wf(),
        ensures
            flipped.width == self.width,
            flipped.height == self.height,
            flipped.pixels@ == flipped_rows(self.pixels@, self.row_len(), self.height as int),
            flipped.wf(),
    {
        let rows: usize = self.height as usize;
        let mut out: Vec<u8> = Vec::new();
        let ghost w: int = self.width as int;
        let ghost h: int = self.height as int;
        if rows == 0 || self.pixels.len() == 0 {
            assert(self.pixels@.len() == 0) by (nonlinear_arith)
                requires
                    self.pixels@.len() == 4 * w * h,
                    h == 0 || self.pixels@.len() == 0,
            ;
            assert(out@ =~= flipped_rows(self.pixels@, self.row_len(), self.height as int));
            return Texture { width: self.width, height: self.height, pixels: out };
        }
        assert(4 * w <= 4 * w * h && 4 * w * h == h * (4 * w) && w >= 1) by (nonlinear_arith)
            requires
                h >= 1,
                w >= 0,
                4 * w * h > 0,
        ;
        let row: usize = 4 * (self.width as usize);
        let mut y: usize = 0;
        while y < rows
            invariant
                self.wf(),
                rows == self.height,
                rows >= 1,
                row == 4 * self.width,
                row >= 1,
                self.pixels@.len() == rows * row,
                self.pixels@.len() <= usize::MAX,
                y <= rows,
                out@.len() == y * row,
                forall|i: int|
                    0 <= i < out@.len() ==> out@[i] == #[trigger] flipped_byte(
                        self.pixels@,
                        row as int,
                        rows as int,
                        i,
                    ),
            decreases rows - y,
        {
            let source: usize = rows - 1 - y;
            assert(0 <= source * row && source * row + row <= rows * row && y * row + row <= rows
                * row) by (nonlinear_arith)
                requires
                    0 <= source,
                    source + 1 <= rows,
                    y + 1 <= rows,
                    row >= 0,
            ;
            let start: usize = source * row;
            let mut x: usize = 0;
            while x < row
                invariant
                    x <= row,
                    row >= 1,
                    y < rows,
                    source == rows - 1 - y,
                    start == source * row,
                    start + row <= self.pixels@.len(),
                    y * row + row <= rows * row,
                    self.pixels@.len() == rows * row,
                    self.pixels@.len() <= usize::MAX,
                    out@.len() == y * row + x,
                    forall|i: int|
                        0 <= i < out@.len() ==> out@[i] == #[trigger] flipped_byte(
                            self.pixels@,
                            row as int,
                            rows as int,
                            i,
                        ),
                decreases row - x,
            {
                let ghost at: int = y * row + x;
                proof {
                    lemma_fundamental_div_mod_converse(at, row as int, y as int, x as int);
                }
                out.push(self.pixels[start + x]);
                assert(out@[at] == flipped_byte(self.pixels@, row as int, rows as int, at));
                x += 1;
            }
            assert((y + 1) * row == y * row + row) by (nonlinear_arith);
            y += 1;
        }
        assert(out@ =~= flipped_rows(self.pixels@, self.row_len(), self.height as int));
        Texture { width: self.width, height: self.height, pixels: out }
    }
}

/// Decodes PNG data to RGBA8 and turns the picture upside down. There is no
/// texture where the data cannot be decoded, or where the decoded buffer does
/// not hold exactly `width * height` pixels.
pub fn get_image_data(bytes: &[u8]) -> (image: Option<Texture>)
    ensures
        match decoded_png(bytes@) {
            Some((width, height, pixels)) => if pixels.len() == 4 * width * height {
                image.is_some() && image.unwrap().width == width && image.unwrap().height
                    == height && image.unwrap().pixels@ == flipped_rows(
                    pixels,
                    4 * width,
                    height as int,
                )
            } else {
                image.is_none()
            },
            None => image.is_none(),
        },
{
    match decode_png(bytes) {
        Some((width, height, pixels)) => match Texture::from_rgba8(width, height, pixels) {
            Some(upright) => Some(upright.flip_vertical()),
            None => None,
        },
        None => None,
    }
}

/// After the flip, the byte at offset `x` of row `y` is the byte that stood at
/// offset `x` of row `rows - 1 - y`.
pub proof fn lemma_flip_moves_rows(pixels: Seq<u8>, row: int, rows: int, y: int, x: int)
    requires
        pixels.len() == row * rows,
        0 <= y < rows,
        0 <= x < row,
    ensures
        0 <= y * row + x < pixels.len(),
        0 <= (rows - 1 - y) * row + x < pixels.len(),
        flipped_rows(pixels, row, rows)[y * row + x] == pixels[(rows - 1 - y) * row + x],
{
    let m = rows - 1 - y;
    assert(0 <= y * row + x < row * rows && 0 <= m * row + x < row * rows) by (nonlinear_arith)
        requires
            0 <= y < rows,
            0 <= m < rows,
            0 <= x < row,
    ;
    lemma_fundamental_div_mod_converse(y * row + x, row, y, x);
}

/// Reversing the order of the rows twice gives the buffer back.
pub proof fn lemma_flip_twice(pixels: Seq<u8>, row: int, rows: int)
    requires
        row >= 0,
        rows >= 0,
        pixels.len() == row * rows,
    ensures
        flipped_rows(flipped_rows(pixels, row, rows), row, rows) == pixels,
{
    let once = flipped_rows(pixels, row, rows);
    let twice = flipped_rows(once, row, rows);
    assert forall|i: int| 0 <= i < pixels.len() implies twice[i] == pixels[i] by {
        lemma_opposite_row(pixels.len() as int, row, rows, i);
        let j = (rows - 1 - i / row) * row + i % row;
        lemma_opposite_row(pixels.len() as int, row, rows, j);
        assert(twice[i] == once[j]);
        assert(once[j] == pixels[(rows - 1 - j / row) * row + j % row]);
        vstd::arithmetic::div_mod::lemma_fundamental_div_mod(i, row);
        assert((i / row) * row == row * (i / row)) by (nonlinear_arith);
    }
    assert(twice =~= pixels);
}

/// The place opposite to `i` lies within the buffer, in the row that mirrors
/// the row of `i`, at the same offset within the row.
pub proof fn lemma_opposite_row(len: int, row: int, rows: int, i: int)
    requires
        row >= 0,
        rows >= 0,
        len == row * rows,
        0 <= i < len,
    ensures
        row > 0,
        0 <= i / row < rows,
        0 <= (rows - 1 - i / row) * row + i % row < len,
        ((rows - 1 - i / row) * row + i % row) / row == rows - 1 - i / row,
        ((rows - 1 - i / row) * row + i % row) % row == i % row,
{
    assert(row > 0) by (nonlinear_arith)
        requires
            row >= 0,
            0 < row * rows,
    ;
    let q = i / row;
    let r = i % row;
    vstd::arithmetic::div_mod::lemma_fundamental_div_mod(i, row);
    vstd::arithmetic::div_mod::lemma_mod_bound(i, row);
    assert(0 <= q < rows) by (nonlinear_arith)
        requires
            i == row * q + r,
            0 <= r < row,
            0 <= i < row * rows,
            row > 0,
    ;
    let m = rows - 1 - q;
    assert(0 <= m * row + r < row * rows) by (nonlinear_arith)
        requires
            0 <= m < rows,
            0 <= r < row,
    ;
    lemma_fundamental_div_mod_converse(m * row + r, row, m, r);
}

} // verus!
