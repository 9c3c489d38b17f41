use vstd::prelude::*;
use crate::pixel::{Image, Pixel};

verus! {

/// Position in the row-major output buffer of the pixel at column `i` and
/// row `j` counted from the bottom of the image: the buffer's first row is
/// the image's top.
pub open spec fn buffer_index(width: int, height: int, i: int, j: int) -> int {
    (height - 1 - j) * width + i
}

/// The byte that an integer color level is stored as: the level modulo 256.
pub open spec fn channel_byte(level: int) -> u8 {
    (level % 256) as u8
}

/// Buffer position of pixel `(i, j)`, `j` counted from the bottom row.
pub fn pixel_index(width: usize, height: usize, i: usize, j: usize) -> (index: usize)
    requires
        i < width,
        j < height,
        width * height <= usize::MAX,
    ensures
        index == buffer_index(width as int, height as int, i as int, j as int),
        index < width * height,
{
    let row: usize = height - 1 - j;
    proof {
        assert(row * width + i < width * height) by (nonlinear_arith)
            requires
                row <= height - 1,
                i < width,
        ;
    }
    row * width + i
}

/// Stores an integer color level as a byte, wrapping it modulo 256 as an
/// integer cast to `u8` does.
pub fn to_channel(level: i32) -> (byte: u8)
    ensures
        byte == channel_byte(level as int),
{
    if level >= 0 {
        (level % 256) as u8
    } else {
        let p: i32 = -(level + 1);
        (255 - p % 256) as u8
    }
}

/// A black buffer for a `width` by `height` image.
pub fn blank_image(width: usize, height: usize) -> (image: Image)
    requires
        width * height <= usize::MAX,
    ensures
        image@.len() == width * height,
        forall|k: int| 0 <= k < image@.len() ==> image@[k] == (Pixel { r: 0, g: 0, b: 0 }),
{
    let n: usize = width * height;
    let mut image: Image = Vec::new();
    while image.len() < n
        invariant
            image@.len() <= n,
            forall|k: int| 0 <= k < image@.len() ==> image@[k] == (Pixel { r: 0, g: 0, b: 0 }),
        decreases n - image@.len(),
    {
        image.push(Pixel::new(0, 0, 0));
    }
    image
}

/// Writes the color levels of pixel `(i, j)`, `j` counted from the bottom
/// row, into its place in the buffer, each level wrapped to a byte.
pub fn store_pixel(
    image: &mut Image,
    width: usize,
    height: usize,
    i: usize,
    j: usize,
    r: i32,
    g: i32,
    b: i32,
)
    requires
        old(image)@.len() == width * height,
        i < width,
        j < height,
    ensures
        final(image)@ == old(image)@.update(
            buffer_index(width as int, height as int, i as int, j as int),
            Pixel { r: channel_byte(r as int), g: channel_byte(g as int), b: channel_byte(b as int) },
        ),
{
    let n = image.len();
    assert(width * height == n);
    let index = pixel_index(width, height, i, j);
    image[index].set(to_channel(r), to_channel(g), to_channel(b));
}

/// Distinct pixels of a `width` by `height` image have distinct buffer
/// positions, so each position is written by exactly one pixel.
pub proof fn lemma_buffer_index_injective(
    width: int,
    height: int,
    i1: int,
    j1: int,
    i2: int,
    j2: int,
)
    requires
        0 <= i1 < width,
        0 <= i2 < width,
        0 <= j1 < height,
        0 <= j2 < height,
        buffer_index(width, height, i1, j1) == buffer_index(width, height, i2, j2),
    ensures
        i1 == i2,
        j1 == j2,
{
    let r1 = height - 1 - j1;
    let r2 = height - 1 - j2;
    assert(r1 == r2) by (nonlinear_arith)
        requires
            r1 * width + i1 == r2 * width + i2,
            0 <= i1 < width,
            0 <= i2 < width,
            0 <= r1,
            0 <= r2,
    {
        if r1 < r2 {
            assert(r1 * width + width <= r2 * width);
        } else if r2 < r1 {
            assert(r2 * width + width <= r1 * width);
        }
    }
}

/// Every position of a `width` by `height` buffer belongs to some pixel.
pub proof fn lemma_buffer_index_onto(width: int, height: int, k: int)
    requires
        0 < width,
        0 < height,
        0 <= k < width * height,
    ensures
        exists|i: int, j: int|
            0 <= i < width && 0 <= j < height && buffer_index(width, height, i, j) == k,
{
    let i = k % width;
    let row = k / width;
    assert(0 <= row < height && k == row * width + i && 0 <= i < width) by (nonlinear_arith)
        requires
            0 < width,
            0 <= k < width * height,
            i == k % width,
            row == k / width,
    ;
    assert(buffer_index(width, height, i, height - 1 - row) == k);
}

} // verus!
