//! The in-memory raster frame and the crop operation: a pure,
//! deterministic pixel-region extraction with no resampling.  A frame is
//! a row-major RGB buffer, three bytes per pixel, tagged with its
//! dimensions.

use vstd::prelude::*;

verus! {

/// Flat offset of channel `ch` of the pixel in row `row`, column `col`,
/// inside a row-major RGB buffer `width` pixels wide.
pub open spec fn pixel_offset(width: int, row: int, col: int, ch: int) -> int {
    (row * width + col) * 3 + ch
}

/// One raster frame: width and height in pixels and the row-major RGB
/// byte buffer.
#[derive(Clone)]
pub struct Frame {
    /// Width in pixels.
    pub width: u32,
    /// Height in pixels.
    pub height: u32,
    /// Row-major RGB bytes, three per pixel.
    pub data: Vec<u8>,
}

impl Frame {
    /// A well-formed frame carries exactly three bytes for each of its
    /// `width * height` pixels.
    pub open spec fn wf(self) -> bool {
        self.data@.len() == self.width * self.height * 3
    }
}

/// `out` is the crop of `src` at rectangle `(x, y, w, h)`: the dimensions
/// are exactly `w` by `h` and every byte of every pixel equals the
/// corresponding byte of the source sub-region.
pub open spec fn is_crop_of(out: Frame, src: Frame, x: int, y: int, w: int, h: int) -> bool {
    &&& out.width == w
    &&& out.height == h
    &&& out.wf()
    &&& forall|row: int, col: int, ch: int|
        0 <= row < h && 0 <= col < w && 0 <= ch < 3 ==> out.data@[pixel_offset(w, row, col, ch)]
            == src.data@[pixel_offset(src.width as int, y + row, x + col, ch)]
}

proof fn lemma_offset_bound(width: int, height: int, row: int, col: int)
    by (nonlinear_arith)
    requires
        0 <= row < height,
        0 <= col < width,
    ensures
        0 <= row * width + col,
        row * width + col < width * height,
        width * height <= width * height * 3,
        (row * width + col) * 3 + 2 < width * height * 3,
{
}

proof fn lemma_offset_order(width: int, r2: int, c2: int, r1: int, c1: int)
    by (nonlinear_arith)
    requires
        0 <= r2,
        0 <= c2 < width,
        0 <= c1,
        r2 < r1 || (r2 == r1 && c2 < c1),
    ensures
        r2 * width + c2 < r1 * width + c1,
{
}

/// Extracts the rectangle `(x, y, w, h)` from `src`.  The output is
/// exactly `w` by `h` and its pixel content equals the source sub-region
/// byte for byte.
pub fn crop(src: &Frame, x: u32, y: u32, w: u32, h: u32) -> (out: Frame)
    requires
        src.wf(),
        x + w <= src.width,
        y + h <= src.height,
    ensures
        is_crop_of(out, *src, x as int, y as int, w as int, h as int),
{
    let src_len: usize = src.data.len();
    let mut data: Vec<u8> = Vec::new();
    let mut row: u32 = 0;
    while row < h
        invariant
            src.wf(),
            src_len == src.data@.len(),
            x + w <= src.width,
            y + h <= src.height,
            0 <= row <= h,
            data@.len() == row * w * 3,
            forall|r2: int, c2: int, ch: int|
                0 <= r2 < row && 0 <= c2 < w && 0 <= ch < 3 ==> data@[pixel_offset(
                    w as int,
                    r2,
                    c2,
                    ch,
                )] == src.data@[pixel_offset(src.width as int, y + r2, x + c2, ch)],
        decreases h - row,
    {
        let mut col: u32 = 0;
        while col < w
            invariant
                src.wf(),
                src_len == src.data@.len(),
                x + w <= src.width,
                y + h <= src.height,
                0 <= row < h,
                0 <= col <= w,
                data@.len() == (row * w + col) * 3,
                forall|r2: int, c2: int, ch: int|
                    ((0 <= r2 < row && 0 <= c2 < w) || (r2 == row && 0 <= c2 < col)) && 0 <= ch < 3
                        ==> data@[pixel_offset(w as int, r2, c2, ch)] == src.data@[pixel_offset(
                        src.width as int,
                        y + r2,
                        x + c2,
                        ch,
                    )],
            decreases w - col,
        {
            proof {
                lemma_offset_bound(src.width as int, src.height as int, y + row, x + col);
                lemma_offset_bound(w as int, h as int, row as int, col as int);
            }
            let base: usize = ((y + row) as usize * src.width as usize + (x + col) as usize) * 3;
            let ghost old_data = data@;
            data.push(src.data[base]);
            data.push(src.data[base + 1]);
            data.push(src.data[base + 2]);
            proof {
                assert forall|r2: int, c2: int, ch: int|
                    ((0 <= r2 < row && 0 <= c2 < w) || (r2 == row && 0 <= c2 < col + 1)) && 0 <= ch
                        < 3 implies data@[pixel_offset(w as int, r2, c2, ch)]
                    == src.data@[pixel_offset(src.width as int, y + r2, x + c2, ch)] by {
                    if r2 == row && c2 == col {
                        assert(pixel_offset(w as int, r2, c2, ch) == old_data.len() + ch);
                    } else {
                        lemma_offset_order(w as int, r2, c2, row as int, col as int);
                        assert(pixel_offset(w as int, r2, c2, ch) < old_data.len());
                        assert(data@[pixel_offset(w as int, r2, c2, ch)] == old_data[pixel_offset(
                            w as int,
                            r2,
                            c2,
                            ch,
                        )]);
                    }
                }
            }
            col += 1;
        }
        proof {
            assert((row as int * w as int + w as int) * 3 == (row as int + 1) * w as int * 3)
                by (nonlinear_arith);
        }
        row += 1;
    }
    proof {
        assert(h as int * w as int * 3 == w as int * h as int * 3) by (nonlinear_arith);
    }
    Frame { width: w, height: h, data }
}

} // verus!
