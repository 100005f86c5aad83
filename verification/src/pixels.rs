//! Compositing the overlay over a captured desktop image, and cutting the
//! result into row bands that each fit in one display-server request.
//!
//! Images are BGRA, four bytes per pixel, rows stored one after another.

use vstd::prelude::*;

verus! {

/// The bytes of a request that are not image data.
pub const REQUEST_HEADER_BYTES: usize = 32;

/// One colour byte of the overlay laid over the background with opacity
/// `a`: opaque overlay wins, transparent overlay leaves the background, and
/// anything in between mixes the two in proportion (rounding down).
pub open spec fn blend(bg: u8, px: u8, a: u8) -> u8 {
    if a == 255 {
        px
    } else if a > 0 {
        ((px * a + bg * (255 - a)) / 255) as u8
    } else {
        bg
    }
}

/// Byte `j` of the composited image: the alpha byte of each pixel stays the
/// background's, and each colour byte is blended with the overlay pixel's alpha.
pub open spec fn composited_byte(background: Seq<u8>, pixels: Seq<u8>, j: int) -> u8 {
    if j % 4 == 3 {
        background[j]
    } else {
        blend(background[j], pixels[j], pixels[j - j % 4 + 3])
    }
}

/// Blends one colour byte.
pub fn blend_byte(bg: u8, px: u8, a: u8) -> (r: u8)
    ensures
        r == blend(bg, px, a),
{
    if a == 255 {
        px
    } else if a > 0 {
        let inv: u32 = 255 - a as u32;
        proof {
            lemma_blend_bounds(bg, px, a);
        }
        ((px as u32 * a as u32 + bg as u32 * inv) / 255) as u8
    } else {
        bg
    }
}

/// A blended byte lies between the background byte and the overlay byte.
pub proof fn lemma_blend_bounds(bg: u8, px: u8, a: u8)
    ensures
        px * a + bg * (255 - a) <= 255 * 255,
        (bg <= px ==> bg <= blend(bg, px, a) <= px),
        (px <= bg ==> px <= blend(bg, px, a) <= bg),
{
    let s = px * a + bg * (255 - a);
    assert(s <= 255 * 255) by (nonlinear_arith)
        requires s == px * a + bg * (255 - a), 0 <= px <= 255, 0 <= bg <= 255, 0 <= a <= 255;
    if 0 < a < 255 {
        assert(bg <= px ==> bg * 255 <= s <= px * 255) by (nonlinear_arith)
            requires s == px * a + bg * (255 - a), 0 <= px <= 255, 0 <= bg <= 255, 0 <= a <= 255;
        assert(px <= bg ==> px * 255 <= s <= bg * 255) by (nonlinear_arith)
            requires s == px * a + bg * (255 - a), 0 <= px <= 255, 0 <= bg <= 255, 0 <= a <= 255;
        assert(bg <= px ==> bg <= s / 255 <= px) by (nonlinear_arith)
            requires bg <= px ==> bg * 255 <= s <= px * 255, 0 <= s;
        assert(px <= bg ==> px <= s / 255 <= bg) by (nonlinear_arith)
            requires px <= bg ==> px * 255 <= s <= bg * 255, 0 <= s;
    }
}

/// The overlay `pixels` composited over `background`, pixel by pixel.
pub fn composite(background: &Vec<u8>, pixels: &Vec<u8>) -> (r: Vec<u8>)
    requires
        background.len() % 4 == 0,
        pixels.len() >= background.len(),
    ensures
        r.len() == background.len(),
        forall|j: int| 0 <= j < r.len() ==> r@[j] == composited_byte(background@, pixels@, j),
{
    let n = background.len();
    let mut out: Vec<u8> = Vec::new();
    let mut i: usize = 0;
    while i < n
        invariant
            n == background.len(),
            n % 4 == 0,
            pixels.len() >= n,
            i % 4 == 0,
            i <= n,
            out.len() == i,
            forall|j: int| 0 <= j < i ==> out@[j] == composited_byte(background@, pixels@, j),
        decreases n - i,
    {
        let a = pixels[i + 3];
        out.push(blend_byte(background[i], pixels[i], a));
        out.push(blend_byte(background[i + 1], pixels[i + 1], a));
        out.push(blend_byte(background[i + 2], pixels[i + 2], a));
        out.push(background[i + 3]);
        assert forall|j: int| 0 <= j < i + 4 implies out@[j] == composited_byte(background@, pixels@, j) by {
            if j >= i {
                assert(j - j % 4 == i);
            }
        }
        i = i + 4;
    }
    out
}

/// A horizontal band of rows of an image: rows `y .. y + rows`, which are
/// the bytes `start .. end`.
#[derive(Clone, Copy, Debug, PartialEq, Eq, Structural)]
pub struct Band {
    pub y: u32,
    pub rows: u32,
    pub start: usize,
    pub end: usize,
}

/// How many rows go in one request: as many whole rows as fit in the
/// request's data, but at least one.
pub open spec fn rows_per_request(width: u32, max_request_bytes: usize) -> int {
    let per = (max_request_bytes - REQUEST_HEADER_BYTES) / (width * 4);
    if per >= 1 { per } else { 1 }
}

/// The bands of an image of `height` rows of `width` pixels: band `k` starts
/// at row `k * n`, where `n` rows go in one request, and the last band holds
/// what is left.
pub open spec fn band_at(width: u32, height: u32, n: int, k: int) -> Band {
    let y = k * n;
    let rows = if n <= height - y { n } else { height - y };
    Band {
        y: y as u32,
        rows: rows as u32,
        start: (y * (width * 4)) as usize,
        end: ((y + rows) * (width * 4)) as usize,
    }
}

/// Cuts an image of `height` rows of `width` pixels into bands of whole
/// rows, top to bottom, each fitting in a request of at most
/// `max_request_bytes` (a band holds at least one row, even when a row alone
/// is larger).
pub fn row_bands(width: u32, height: u32, max_request_bytes: usize) -> (r: Vec<Band>)
    requires
        width > 0,
        width * 4 <= u32::MAX,
        width * 4 * height <= usize::MAX,
        max_request_bytes >= REQUEST_HEADER_BYTES,
        (max_request_bytes - REQUEST_HEADER_BYTES) / (width * 4) <= u32::MAX,
    ensures
        ({
            let n = rows_per_request(width, max_request_bytes);
            &&& r.len() * n >= height
            &&& r.len() == 0 || (r.len() - 1) * n < height
            &&& forall|k: int| 0 <= k < r.len() ==> r@[k] == band_at(width, height, n, k)
        }),
{
    let stride: usize = (width * 4) as usize;
    let max_data = max_request_bytes - REQUEST_HEADER_BYTES;
    let per = max_data / stride;
    let n: u32 = if per >= 1 { per as u32 } else { 1 };
    let ghost gn = rows_per_request(width, max_request_bytes);
    assert(n == gn);
    let mut bands: Vec<Band> = Vec::new();
    let mut y: u32 = 0;
    while y < height
        invariant
            stride == width * 4,
            n == gn,
            n >= 1,
            width * 4 * height <= usize::MAX,
            y <= height,
            y == (if bands.len() * n <= height { bands.len() * n } else { height as int }),
            forall|k: int| 0 <= k < bands.len() ==> bands@[k] == band_at(width, height, gn, k),
            bands.len() == 0 || (bands.len() - 1) * n < height,
        decreases height - y,
    {
        let rows = if n <= height - y { n } else { height - y };
        proof {
            assert(y * (width * 4) <= height * (width * 4)) by (nonlinear_arith)
                requires y <= height;
            assert((y + rows) * (width * 4) <= height * (width * 4)) by (nonlinear_arith)
                requires y + rows <= height;
            assert(height * (width * 4) == width * 4 * height) by (nonlinear_arith);
            assert(y * stride + rows * stride == (y + rows) * stride) by (nonlinear_arith);
            assert(0 <= y * stride) by (nonlinear_arith);
        }
        let start = (y as usize) * stride;
        let end = start + (rows as usize) * stride;
        let ghost k = bands.len() as int;
        bands.push(Band { y, rows, start, end });
        proof {
            assert(y == k * gn);
            assert((k + 1) * gn == k * gn + gn) by (nonlinear_arith);
            assert(bands@[k] == band_at(width, height, gn, k));
        }
        y = y + rows;
    }
    bands
}

/// The bands tile the image: each band is non-empty, lies inside the image,
/// starts where the previous one ended, covers its rows' bytes exactly, and
/// fits in one request unless it is a single row larger than a request.
pub proof fn lemma_bands_tile_image(width: u32, height: u32, max_request_bytes: usize, k: int)
    requires
        width > 0,
        max_request_bytes >= REQUEST_HEADER_BYTES,
        0 <= k,
        k * rows_per_request(width, max_request_bytes) < height,
    ensures
        ({
            let n = rows_per_request(width, max_request_bytes);
            let b = band_at(width, height, n, k);
            &&& b.rows >= 1
            &&& b.y + b.rows <= height
            &&& (k > 0 ==> b.y == band_at(width, height, n, k - 1).y + band_at(width, height, n, k - 1).rows)
            &&& b.rows * (width * 4) == (b.y + b.rows) * (width * 4) - b.y * (width * 4)
            &&& (b.rows == 1 || b.rows * (width * 4) <= max_request_bytes - REQUEST_HEADER_BYTES)
        }),
{
    let n = rows_per_request(width, max_request_bytes);
    let stride = width * 4;
    let d = max_request_bytes - REQUEST_HEADER_BYTES;
    assert(0 <= k * n) by (nonlinear_arith) requires 0 <= k, 1 <= n;
    assert(k * n == (k - 1) * n + n) by (nonlinear_arith);
    assert((k * n + n) * stride - k * n * stride == n * stride) by (nonlinear_arith);
    if n > 1 {
        assert(n == d / stride);
        assert(n * stride <= d) by (nonlinear_arith) requires n == d / stride, stride > 0, d >= 0;
    }
    let y = k * n;
    let rows = if n <= height - y { n } else { height - y };
    assert(rows * stride <= n * stride) by (nonlinear_arith) requires rows <= n, stride > 0;
    assert((y + rows) * stride - y * stride == rows * stride) by (nonlinear_arith);
}

/// Compositing keeps the background's alpha bytes, shows an opaque overlay
/// pixel as it is, and leaves the background where the overlay is
/// transparent.
pub proof fn lemma_composite_by_alpha(background: Seq<u8>, pixels: Seq<u8>, j: int)
    requires
        0 <= j,
    ensures
        j % 4 == 3 ==> composited_byte(background, pixels, j) == background[j],
        j % 4 != 3 && pixels[j - j % 4 + 3] == 255 ==> composited_byte(background, pixels, j) == pixels[j],
        j % 4 != 3 && pixels[j - j % 4 + 3] == 0 ==> composited_byte(background, pixels, j) == background[j],
{
}

} // verus!
