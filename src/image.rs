use vstd::prelude::*;

verus! {

/// Image coordinates `(x, y)` of the `n`-th pixel in the order an image file
/// stores them: the top row first, left to right, where `y` counts rows from
/// the bottom as the camera's vertical coordinate does.
pub fn pixel_at(n: u32, width: u32, height: u32) -> (r: (u32, u32))
    requires
        width > 0,
        n < width * height,
    ensures
        r.0 == n % width,
        r.1 == height - 1 - n / width,
        r.0 < width,
        r.1 < height,
{
    proof {
        assert(n / width < height) by (nonlinear_arith)
            requires
                width > 0,
                n < width * height,
        ;
    }
    (n % width, height - 1 - n / width)
}

/// Appends one opaque pixel to an RGBA byte buffer.
pub fn push_pixel(data: &mut Vec<u8>, r: u8, g: u8, b: u8)
    ensures
        final(data)@ == old(data)@ + seq![r, g, b, 255u8],
{
    data.push(r);
    data.push(g);
    data.push(b);
    data.push(255);
}

} // verus!
