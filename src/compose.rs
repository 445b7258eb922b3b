use image::imageops::{self, FilterType};
use image::RgbImage;
use vstd::arithmetic::div_mod::{
    lemma_fundamental_div_mod, lemma_fundamental_div_mod_converse_div,
    lemma_fundamental_div_mod_converse_mod,
};
use vstd::prelude::*;

use crate::color::RGB;
use crate::error::IdenticonError;

verus! {

/// Channel `k` (0 red, 1 green, 2 blue) of a color.
pub open spec fn rgb_channel(c: RGB, k: int) -> u8 {
    if k == 0 {
        c.red
    } else if k == 1 {
        c.green
    } else {
        c.blue
    }
}

/// Raw RGB bytes of a row-major run of pixels: red, green and blue of each.
pub open spec fn pixel_bytes(pixels: Seq<RGB>) -> Seq<u8> {
    Seq::new(pixels.len() * 3, |i: int| rgb_channel(pixels[i / 3], i % 3))
}

/// The grid column that image column `x` shows: with mirroring, the right
/// half repeats the left half in reverse.
pub open spec fn source_column(x: int, size: int, mirrored: bool) -> int {
    if mirrored && x > size / 2 {
        size - x - 1
    } else {
        x
    }
}

/// The color of pixel `(x, y)` of the `size` by `size` grid image.
pub open spec fn grid_pixel(
    grid: Seq<bool>,
    size: int,
    x: int,
    y: int,
    active: RGB,
    background: RGB,
    mirrored: bool,
) -> RGB {
    let location = (source_column(x, size, mirrored) + y * size) % (size * size);
    if grid[location] {
        active
    } else {
        background
    }
}

/// The `size` by `size` image of a grid, one pixel per cell, row by row.
pub open spec fn grid_image_spec(
    grid: Seq<bool>,
    size: u32,
    active: RGB,
    background: RGB,
    mirrored: bool,
) -> Seq<RGB> {
    Seq::new(
        (size * size) as nat,
        |p: int| grid_pixel(grid, size as int, p % size as int, p / size as int, active, background, mirrored),
    )
}

/// The raw pixels of a square image of side `side` scaled to side
/// `new_side` by nearest-neighbour sampling.
pub uninterp spec fn nearest_resized(pixels: Seq<u8>, side: u32, new_side: u32) -> Seq<u8>;

/// The side of an image of `scale` pixels with a border of `border` pixels.
pub open spec fn framed_side(scale: u32, border: u32) -> int {
    scale + 2 * border
}

/// A `scale` by `scale` image placed at `(border, border)` on a square of
/// side `scale + 2 * border` filled with the background color, as raw bytes.
pub open spec fn framed_spec(scaled: Seq<u8>, scale: u32, border: u32, background: RGB) -> Seq<u8> {
    let side = framed_side(scale, border);
    Seq::new(
        (side * side * 3) as nat,
        |i: int|
            {
                let p = i / 3;
                let k = i % 3;
                let x = p % side;
                let y = p / side;
                if border <= x < border + scale && border <= y < border + scale {
                    scaled[((y - border) * scale + (x - border)) * 3 + k]
                } else {
                    rgb_channel(background, k)
                }
            },
    )
}

/// Position `p` of a row-major square of side `n` is at column `p % n` and
/// row `p / n`, both below `n`.
proof fn lemma_square_position(p: int, n: int)
    requires
        0 <= n,
        0 <= p < n * n,
    ensures
        n > 0,
        0 <= p % n < n,
        0 <= p / n < n,
        (p / n) * n + p % n == p,
{
    assert(n != 0) by {
        if n == 0 {
            assert(n * n == 0);
        }
    }
    lemma_fundamental_div_mod(p, n);
    assert(0 <= p / n < n && (p / n) * n == n * (p / n)) by (nonlinear_arith)
        requires
            n > 0,
            0 <= p < n * n,
            p == n * (p / n) + p % n,
            0 <= p % n < n,
    ;
}

/// A cell at column `x` and row `y` of a row-major square of side `n`
/// comes before `n * n`.
proof fn lemma_square_index(x: int, y: int, n: int)
    requires
        0 <= x < n,
        0 <= y < n,
    ensures
        0 <= y * n + x < n * n,
{
    assert(0 <= y * n + x < n * n) by (nonlinear_arith)
        requires
            0 <= x < n,
            0 <= y < n,
    ;
}

/// Draws a grid as a `size` by `size` image, one pixel per cell: active
/// cells in `active`, the others in `background`.
pub fn draw_grid(grid: &Vec<bool>, size: u32, active: RGB, background: RGB, mirrored: bool) -> (r:
    Vec<RGB>)
    requires
        grid@.len() == size * size,
        size * size <= usize::MAX,
    ensures
        r@ == grid_image_spec(grid@, size, active, background, mirrored),
{
    let n: usize = size as usize * size as usize;
    let ghost spec_image = grid_image_spec(grid@, size, active, background, mirrored);
    let mut pixels: Vec<RGB> = Vec::with_capacity(n);
    let mut p: usize = 0;
    while p < n
        invariant
            n == size * size,
            grid@.len() == n,
            p <= n,
            spec_image == grid_image_spec(grid@, size, active, background, mirrored),
            pixels@ =~= spec_image.subrange(0, p as int),
        decreases n - p,
    {
        proof {
            lemma_square_position(p as int, size as int);
        }
        let x: u32 = (p % size as usize) as u32;
        let y: u32 = (p / size as usize) as u32;
        let column: u32 = if mirrored && x > size / 2 {
            size - x - 1
        } else {
            x
        };
        proof {
            lemma_square_index(column as int, y as int, size as int);
        }
        let location: usize = (column as usize + y as usize * size as usize) % n;
        let pixel = if grid[location] {
            active
        } else {
            background
        };
        pixels.push(pixel);
        p += 1;
    }
    pixels
}

/// The raw RGB bytes of a run of pixels.
pub fn to_bytes(pixels: &Vec<RGB>) -> (r: Vec<u8>)
    requires
        pixels@.len() * 3 <= usize::MAX,
    ensures
        r@ == pixel_bytes(pixels@),
{
    let mut bytes: Vec<u8> = Vec::with_capacity(pixels.len() * 3);
    let mut i: usize = 0;
    while i < pixels.len()
        invariant
            i <= pixels@.len(),
            pixels@.len() * 3 <= usize::MAX,
            bytes@ =~= pixel_bytes(pixels@).subrange(0, 3 * i as int),
        decreases pixels@.len() - i,
    {
        let c = pixels[i];
        bytes.push(c.red);
        bytes.push(c.green);
        bytes.push(c.blue);
        i += 1;
    }
    bytes
}

/// Relies on `image::imageops::resize` with `FilterType::Nearest`: it
/// returns an image of exactly `new_side` by `new_side` pixels whose content
/// depends on the input pixels and the two sides alone. It panics where its
/// buffers (including one of `side * new_side` four-channel `f32` pixels)
/// would not fit in memory.
#[verifier::external_body]
pub(crate) fn resize_nearest(pixels: &Vec<u8>, side: u32, new_side: u32) -> (r: Vec<u8>)
    requires
        pixels@.len() == side * side * 3,
        side <= new_side,
        new_side * new_side * 16 <= isize::MAX,
    ensures
        r@ == nearest_resized(pixels@, side, new_side),
        r@.len() == new_side * new_side * 3,
{
    RgbImage::from_raw(side, side, pixels.clone()).map(
        |image| imageops::resize(&image, new_side, new_side, FilterType::Nearest).into_raw(),
    ).unwrap_or_default()
}

/// Places a `scale` by `scale` image at `(border, border)` on a square of side
/// `scale + 2 * border` filled with `background`.
pub fn frame(scaled: &Vec<u8>, scale: u32, border: u32, background: RGB) -> (r: Vec<u8>)
    requires
        scaled@.len() == scale * scale * 3,
        framed_side(scale, border) <= u32::MAX,
        framed_side(scale, border) * framed_side(scale, border) * 3 <= usize::MAX,
    ensures
        r@ == framed_spec(scaled@, scale, border, background),
{
    // A vector's length fits in a usize, and so does every index into it.
    let scaled_len: usize = scaled.len();
    assert(scale * scale * 3 == scaled_len);
    let side: u32 = scale + 2 * border;
    let n: usize = side as usize * side as usize;
    let ghost spec_image = framed_spec(scaled@, scale, border, background);
    let mut bytes: Vec<u8> = Vec::with_capacity(n * 3);
    let mut p: usize = 0;
    while p < n
        invariant
            side == framed_side(scale, border),
            n == side * side,
            n * 3 <= usize::MAX,
            p <= n,
            scaled@.len() == scale * scale * 3,
            scale * scale * 3 <= usize::MAX,
            spec_image == framed_spec(scaled@, scale, border, background),
            spec_image.len() == n * 3,
            bytes@ =~= spec_image.subrange(0, 3 * p as int),
        decreases n - p,
    {
        proof {
            lemma_square_position(p as int, side as int);
        }
        let x: u32 = (p % side as usize) as u32;
        let y: u32 = (p / side as usize) as u32;
        if border <= x && x < border + scale && border <= y && y < border + scale {
            proof {
                lemma_square_index((x - border) as int, (y - border) as int, scale as int);
            }
            let start: usize = ((y - border) as usize * scale as usize + (x - border) as usize) * 3;
            bytes.push(scaled[start]);
            bytes.push(scaled[start + 1]);
            bytes.push(scaled[start + 2]);
        } else {
            bytes.push(background.red);
            bytes.push(background.green);
            bytes.push(background.blue);
        }
        p += 1;
    }
    bytes
}

/// An image as raw 8-bit RGB bytes, row by row.
pub struct PixelBuffer {
    width: u32,
    height: u32,
    data: Vec<u8>,
}

impl PixelBuffer {
    /// Width in pixels.
    pub closed spec fn spec_width(&self) -> u32 {
        self.width
    }

    /// Height in pixels.
    pub closed spec fn spec_height(&self) -> u32 {
        self.height
    }

    /// The raw bytes: red, green and blue of each pixel, row by row.
    pub closed spec fn spec_data(&self) -> Seq<u8> {
        self.data@
    }

    /// Width in pixels.
    pub fn width(&self) -> (r: u32)
        ensures
            r == self.spec_width(),
    {
        self.width
    }

    /// Height in pixels.
    pub fn height(&self) -> (r: u32)
        ensures
            r == self.spec_height(),
    {
        self.height
    }

    /// The raw bytes: red, green and blue of each pixel, row by row.
    pub fn as_raw(&self) -> (r: &Vec<u8>)
        ensures
            r@ == self.spec_data(),
    {
        &self.data
    }

    /// Takes out the raw bytes.
    pub fn into_raw(self) -> (r: Vec<u8>)
        ensures
            r@ == self.spec_data(),
    {
        self.data
    }
}

/// A bordered image of `scale` pixels fits the image library's limits: its
/// side fits in a `u32` and its buffers in memory.
pub open spec fn image_fits(scale: u32, border: u32) -> bool {
    let side = framed_side(scale, border);
    side <= u32::MAX && side * side * 16 <= isize::MAX
}

/// The raw bytes of the composed image: the grid drawn one pixel per cell,
/// scaled to `scale` by `scale`, on a border of `border` background pixels.
pub open spec fn composed_spec(
    grid: Seq<bool>,
    size: u32,
    active: RGB,
    background: RGB,
    mirrored: bool,
    scale: u32,
    border: u32,
) -> Seq<u8> {
    let drawn = pixel_bytes(grid_image_spec(grid, size, active, background, mirrored));
    framed_spec(nearest_resized(drawn, size, scale), scale, border, background)
}

/// Whether a bordered image of `scale` pixels fits the image library's limits.
pub fn fits(scale: u32, border: u32) -> (r: bool)
    ensures
        r == image_fits(scale, border),
{
    let side: u64 = scale as u64 + 2 * border as u64;
    if side > u32::MAX as u64 {
        false
    } else {
        proof {
            lemma_square_monotone(side as int, u32::MAX as int);
        }
        let area: u128 = side as u128 * side as u128 * 16;
        area <= isize::MAX as u128
    }
}

/// Squaring keeps the order of non-negative numbers.
pub proof fn lemma_square_monotone(a: int, b: int)
    requires
        0 <= a <= b,
    ensures
        a * a <= b * b,
{
    assert(a * a <= b * b) by (nonlinear_arith)
        requires
            0 <= a <= b,
    ;
}

/// Composes the identicon image: draws the grid with one pixel per cell
/// (mirroring the left half onto the right if `mirrored`), scales it to
/// `scale` by `scale` by nearest-neighbour sampling, and places it on a
/// background of `border` pixels on each side.
///
/// Fails with `GenerateImageError` if the bordered image would not fit the
/// image library's limits.
pub fn compose(
    grid: &Vec<bool>,
    size: u32,
    active: RGB,
    background: RGB,
    mirrored: bool,
    scale: u32,
    border: u32,
) -> (r: Result<PixelBuffer, IdenticonError>)
    requires
        grid@.len() == size * size,
        size <= scale,
    ensures
        match r {
            Ok(image) => {
                &&& image_fits(scale, border)
                &&& image.spec_width() == framed_side(scale, border)
                &&& image.spec_height() == framed_side(scale, border)
                &&& image.spec_data() == composed_spec(
                    grid@,
                    size,
                    active,
                    background,
                    mirrored,
                    scale,
                    border,
                )
            },
            Err(e) => !image_fits(scale, border) && e is GenerateImageError,
        },
{
    if !fits(scale, border) {
        return Err(IdenticonError::GenerateImageError);
    }
    proof {
        lemma_square_monotone(size as int, scale as int);
        lemma_square_monotone(scale as int, framed_side(scale, border));
    }
    let pixels = draw_grid(grid, size, active, background, mirrored);
    let drawn = to_bytes(&pixels);
    let scaled = resize_nearest(&drawn, size, scale);
    let side: u32 = scale + 2 * border;
    let data = frame(&scaled, scale, border, background);
    Ok(PixelBuffer { width: side, height: side, data })
}

/// With mirroring and an odd size, the grid image is symmetric about its
/// central column: column `x` and column `size - 1 - x` of each row agree.
pub proof fn lemma_mirror_symmetric(grid: Seq<bool>, size: u32, active: RGB, background: RGB)
    requires
        size % 2 == 1,
    ensures
        forall|x: int, y: int|
            0 <= x < size && 0 <= y < size ==> #[trigger] grid_image_spec(
                grid,
                size,
                active,
                background,
                true,
            )[y * size + x] == grid_image_spec(grid, size, active, background, true)[y * size + (
            size - 1 - x)],
{
    let image = grid_image_spec(grid, size, active, background, true);
    let n = size as int;
    assert forall|x: int, y: int| 0 <= x < n && 0 <= y < n implies #[trigger] image[y * n + x]
        == image[y * n + (n - 1 - x)] by {
        let x2 = n - 1 - x;
        lemma_square_index(x, y, n);
        lemma_square_index(x2, y, n);
        lemma_fundamental_div_mod_converse_mod(y * n + x, n, y, x);
        lemma_fundamental_div_mod_converse_div(y * n + x, n, y, x);
        lemma_fundamental_div_mod_converse_mod(y * n + x2, n, y, x2);
        lemma_fundamental_div_mod_converse_div(y * n + x2, n, y, x2);
        assert(source_column(x, n, true) == source_column(x2, n, true));
    }
}

} // verus!
