//! Turning a raw frame read from the device into the image array served to
//! clients.

use vstd::prelude::*;
use crate::error::{AscomError, ErrorCode};
use crate::camera::{FrameImage, Pixels, err};

verus! {

/// Position, in the column-by-column layout of an image `h` pixels high, of
/// pixel (x, y).
pub open spec fn column_index(x: int, y: int, h: int) -> int {
    x * h + y
}

/// Position, in the row-by-row layout the device uses for an image `w`
/// pixels wide, of pixel (x, y).
pub open spec fn row_index(x: int, y: int, w: int) -> int {
    y * w + x
}

/// The 16-bit value of pixel `k` of a little-endian raw frame.
pub open spec fn raw_u16(data: Seq<u8>, k: int) -> u16 {
    (data[2 * k] as int + 256 * (data[2 * k + 1] as int)) as u16
}

/// Whether a raw frame can be turned into an image: a single channel of 8
/// or 16 bits per pixel, with exactly one value per pixel.
pub open spec fn frame_convertible(data_len: nat, width: u32, height: u32, bits_per_pixel: u32, channels: u32) -> bool {
    &&& channels == 1
    &&& (bits_per_pixel == 8 && data_len == width * height) || (bits_per_pixel == 16 && data_len == 2
        * width * height)
}

/// `img` holds the raw frame `data`, transposed to column-by-column order.
pub open spec fn image_of_frame(img: FrameImage, data: Seq<u8>, width: u32, height: u32) -> bool {
    &&& img.width == width
    &&& img.height == height
    &&& match img.pixels {
        Pixels::Eight(p) => {
            &&& p@.len() == width * height
            &&& forall|x: int, y: int|
                0 <= x < width && 0 <= y < height ==> #[trigger] p@[column_index(x, y, height as int)]
                    == data[row_index(x, y, width as int)]
        },
        Pixels::Sixteen(p) => {
            &&& p@.len() == width * height
            &&& forall|x: int, y: int|
                0 <= x < width && 0 <= y < height ==> #[trigger] p@[column_index(x, y, height as int)]
                    == raw_u16(data, row_index(x, y, width as int))
        },
    }
}

proof fn lemma_index_below(a: int, b: int, n: int, m: int)
    by (nonlinear_arith)
    requires
        0 <= a < n,
        0 <= b < m,
    ensures
        0 <= a * m + b < n * m,
        a * m + b + 1 <= n * m,
        n * m == m * n,
        0 <= a * m,
{
}

proof fn lemma_row_start(a: int, m: int)
    by (nonlinear_arith)
    requires
        0 <= a,
        0 <= m,
    ensures
        a * m + m == (a + 1) * m,
        0 <= a * m,
{
}

/// The values of a row-by-row frame `width` pixels wide and `height` high,
/// laid out column by column.
fn transpose<T: Copy>(data: &Vec<T>, width: u32, height: u32) -> (p: Vec<T>)
    requires
        data@.len() == width * height,
    ensures
        p@.len() == width * height,
        forall|x: int, y: int|
            0 <= x < width && 0 <= y < height ==> #[trigger] p@[column_index(x, y, height as int)]
                == data@[row_index(x, y, width as int)],
{
    let w = width as usize;
    let h = height as usize;
    let len = data.len();
    let mut p: Vec<T> = Vec::new();
    let mut x: usize = 0;
    proof {
        lemma_row_start(0, h as int);
    }
    while x < w
        invariant
            w == width,
            h == height,
            data@.len() == w * h,
            len == data@.len(),
            x <= w,
            p@.len() == x * h,
            forall|xx: int, yy: int|
                0 <= xx < x && 0 <= yy < h ==> #[trigger] p@[column_index(xx, yy, h as int)]
                    == data@[row_index(xx, yy, w as int)],
        decreases w - x,
    {
        let mut y: usize = 0;
        proof {
            lemma_row_start(x as int, h as int);
        }
        while y < h
            invariant
                w == width,
                h == height,
                data@.len() == w * h,
                len == data@.len(),
                x < w,
                y <= h,
                p@.len() == x * h + y,
                forall|xx: int, yy: int|
                    0 <= xx < x && 0 <= yy < h ==> #[trigger] p@[column_index(xx, yy, h as int)]
                        == data@[row_index(xx, yy, w as int)],
                forall|yy: int|
                    0 <= yy < y ==> #[trigger] p@[column_index(x as int, yy, h as int)]
                        == data@[row_index(x as int, yy, w as int)],
            decreases h - y,
        {
            proof {
                lemma_index_below(y as int, x as int, h as int, w as int);
                lemma_index_below(x as int, y as int, w as int, h as int);
            }
            let k = y * w + x;
            let ghost before = p@;
            p.push(data[k]);
            assert forall|xx: int, yy: int|
                0 <= xx < x && 0 <= yy < h implies #[trigger] p@[column_index(xx, yy, h as int)]
                == data@[row_index(xx, yy, w as int)] by {
                lemma_index_below(xx, yy, x as int, h as int);
                assert(p@[column_index(xx, yy, h as int)] == before[column_index(xx, yy, h as int)]);
            }
            assert forall|yy: int|
                0 <= yy < y + 1 implies #[trigger] p@[column_index(x as int, yy, h as int)]
                == data@[row_index(x as int, yy, w as int)] by {
                if yy < y {
                    assert(p@[column_index(x as int, yy, h as int)] == before[column_index(
                        x as int,
                        yy,
                        h as int,
                    )]);
                }
            }
            y = y + 1;
        }
        proof {
            lemma_row_start(x as int, h as int);
        }
        x = x + 1;
    }
    p
}

/// The 16-bit values of a little-endian raw frame, in the frame's order.
fn decode_u16(data: &Vec<u8>) -> (v: Vec<u16>)
    requires
        data@.len() % 2 == 0,
    ensures
        v@.len() == data@.len() / 2,
        forall|k: int| 0 <= k < v@.len() ==> #[trigger] v@[k] == raw_u16(data@, k),
{
    let len = data.len();
    let n = len / 2;
    let mut v: Vec<u16> = Vec::new();
    let mut k: usize = 0;
    while k < n
        invariant
            len == data@.len(),
            n == data@.len() / 2,
            data@.len() % 2 == 0,
            k <= n,
            v@.len() == k,
            forall|j: int| 0 <= j < k ==> #[trigger] v@[j] == raw_u16(data@, j),
        decreases n - k,
    {
        let low = data[2 * k] as u16;
        let high = data[2 * k + 1] as u16;
        v.push(low + 256 * high);
        k = k + 1;
    }
    v
}

/// Turns a raw frame (rows of `width` pixels, 8 bits or 16 little-endian
/// bits per pixel) into an image laid out column by column. Frames with
/// another pixel depth, several channels or a size that does not match are
/// an invalid operation.
pub fn frame_to_image(data: &Vec<u8>, width: u32, height: u32, bits_per_pixel: u32, channels: u32) -> (r:
    Result<FrameImage, AscomError>)
    ensures
        r is Ok <==> frame_convertible(data@.len(), width, height, bits_per_pixel, channels),
        r matches Ok(img) ==> image_of_frame(img, data@, width, height) && (bits_per_pixel == 8
            <==> img.pixels is Eight),
        r matches Err(e) ==> e == err(ErrorCode::InvalidOperation),
{
    if channels != 1 {
        return Err(AscomError::from_code(ErrorCode::InvalidOperation));
    }
    assert((width as int) * (height as int) <= u64::MAX) by (nonlinear_arith)
        requires
            width <= u32::MAX,
            height <= u32::MAX,
    ;
    let pixels: u64 = (width as u64) * (height as u64);
    let len = data.len() as u64;
    if bits_per_pixel == 8 {
        if len != pixels {
            return Err(AscomError::from_code(ErrorCode::InvalidOperation));
        }
        let p = transpose(data, width, height);
        Ok(FrameImage { width, height, pixels: Pixels::Eight(p) })
    } else if bits_per_pixel == 16 {
        assert(2 * width * height == 2 * (width * height)) by (nonlinear_arith);
        if len % 2 != 0 || len / 2 != pixels {
            return Err(AscomError::from_code(ErrorCode::InvalidOperation));
        }
        assert(data@.len() == 2 * width * height) by (nonlinear_arith)
            requires
                data@.len() == 2 * pixels,
                pixels == width * height,
        ;
        let values = decode_u16(data);
        let p = transpose(&values, width, height);
        assert forall|x: int, y: int|
            0 <= x < width && 0 <= y < height implies #[trigger] p@[column_index(x, y, height as int)]
                == raw_u16(data@, row_index(x, y, width as int)) by {
            lemma_index_below(y, x, height as int, width as int);
        }
        Ok(FrameImage { width, height, pixels: Pixels::Sixteen(p) })
    } else {
        Err(AscomError::from_code(ErrorCode::InvalidOperation))
    }
}

} // verus!
