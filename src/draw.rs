use vstd::prelude::*;

verus! {

/// Iteration bound of the escape-time loop: a point whose orbit has not left
/// the radius-2 disc after this many steps counts as inside the set.
pub const MAX_ITERATIONS: usize = 1000;

/// The RGBA colour of a pixel whose escape-time count is `count`: black for a
/// point that never escaped, otherwise a band chosen by `count % 32`, each
/// channel wrapping to eight bits.
pub open spec fn color_spec(count: int) -> (u8, u8, u8, u8) {
    if count >= MAX_ITERATIONS {
        (0, 0, 0, 255)
    } else {
        let m = count % 32;
        ((m * 5) as u8, (m * 7) as u8, ((m * 13) % 256) as u8, 255)
    }
}

/// Colour of a pixel from its escape-time count.
pub fn color_of(count: usize) -> (r: (u8, u8, u8, u8))
    ensures
        r == color_spec(count as int),
{
    if count < MAX_ITERATIONS {
        let m: usize = count % 32;
        let r: u8 = (m * 5) as u8;
        let g: u8 = (m * 7) as u8;
        let b: u8 = ((m * 13) % 256) as u8;
        (r, g, b, 255)
    } else {
        (0, 0, 0, 255)
    }
}

/// Byte offset of pixel `(px, py)` in a row-major RGBA buffer of the given
/// width.
pub open spec fn pixel_offset(px: int, py: int, width: int) -> int {
    4 * (px + py * width)
}

/// Channel `k` (red, green, blue, alpha for `k` = 0..3) of a colour.
pub open spec fn channel(c: (u8, u8, u8, u8), k: int) -> u8 {
    if k == 0 {
        c.0
    } else if k == 1 {
        c.1
    } else if k == 2 {
        c.2
    } else {
        c.3
    }
}

proof fn lemma_pixel_in_grid(px: int, py: int, width: int, height: int)
    requires
        0 <= px < width,
        0 <= py < height,
    ensures
        0 <= px + py * width < width * height,
{
    assert(py * width <= (height - 1) * width) by (nonlinear_arith)
        requires
            0 <= py <= height - 1,
            0 < width,
    ;
    assert((height - 1) * width == width * height - width) by (nonlinear_arith);
    assert(0 <= py * width) by (nonlinear_arith)
        requires
            0 <= py,
            0 < width,
    ;
}

/// Builds the RGBA image of a `width` x `height` canvas from the escape-time
/// count of each pixel, given row by row from the top-left corner: the four
/// bytes at `pixel_offset(px, py, width)` are the colour of
/// `counts[px + py * width]`.
pub fn fill_image(width: usize, height: usize, counts: &Vec<usize>) -> (data: Vec<u8>)
    requires
        counts@.len() == width * height,
        4 * width * height <= usize::MAX,
    ensures
        data@.len() == 4 * width * height,
        forall|i: int, k: int|
            0 <= i < counts@.len() && 0 <= k < 4 ==> #[trigger] data@[4 * i + k] == channel(
                color_spec(counts@[i] as int),
                k,
            ),
        forall|px: int, py: int, k: int|
            0 <= px < width && 0 <= py < height && 0 <= k < 4 ==> #[trigger] data@[pixel_offset(
                px,
                py,
                width as int,
            ) + k] == channel(color_spec(counts@[px + py * width] as int), k),
{
    let n: usize = counts.len();
    assert(4 * n == 4 * width * height) by (nonlinear_arith)
        requires
            n == width * height,
    ;
    let mut data: Vec<u8> = Vec::new();
    let mut i: usize = 0;
    while i < n
        invariant
            n == counts@.len(),
            4 * n <= usize::MAX,
            i <= n,
            data@.len() == 4 * i,
            forall|j: int, k: int|
                0 <= j < i && 0 <= k < 4 ==> #[trigger] data@[4 * j + k] == channel(
                    color_spec(counts@[j] as int),
                    k,
                ),
        decreases n - i,
    {
        let (r, g, b, a) = color_of(counts[i]);
        data.push(r);
        data.push(g);
        data.push(b);
        data.push(a);
        assert forall|j: int, k: int| 0 <= j < i + 1 && 0 <= k < 4 implies #[trigger] data@[4 * j
            + k] == channel(color_spec(counts@[j] as int), k) by {
            if j < i {
                assert(4 * j + k < 4 * i);
            }
        }
        i = i + 1;
    }
    assert forall|px: int, py: int, k: int|
        0 <= px < width && 0 <= py < height && 0 <= k < 4 implies #[trigger] data@[pixel_offset(
        px,
        py,
        width as int,
    ) + k] == channel(color_spec(counts@[px + py * width] as int), k) by {
        lemma_pixel_in_grid(px, py, width as int, height as int);
        let j = px + py * width;
        assert(data@[4 * j + k] == channel(color_spec(counts@[j] as int), k));
    }
    data
}

} // verus!
