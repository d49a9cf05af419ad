//! Content-creation workloads: an image pipeline and a CPU render.

use vstd::prelude::*;

use crate::models::BenchmarkProfile;

verus! {

/// How much larger the extended profile makes these workloads.
pub fn scale(profile: &BenchmarkProfile) -> (res: u32)
    ensures
        res == match *profile {
            BenchmarkProfile::Standard => 1u32,
            BenchmarkProfile::Extended => 2u32,
        },
{
    match profile {
        BenchmarkProfile::Standard => 1,
        BenchmarkProfile::Extended => 2,
    }
}

/// Channel `c` (red, green, blue, alpha) of the source pixel at (`x`, `y`).
pub open spec fn source_channel(x: int, y: int, c: int) -> u8 {
    if c == 0 {
        (x % 256) as u8
    } else if c == 1 {
        (y % 256) as u8
    } else if c == 2 {
        ((x + y) % 256) as u8
    } else {
        255u8
    }
}

/// The source image of the image pipeline as RGBA bytes, row after row: the
/// pixel at (`x`, `y`) starts at byte `4 * (y * width + x)`.
pub fn source_pixels(width: u32, height: u32) -> (res: Vec<u8>)
    requires
        width as int * height as int * 4 <= usize::MAX,
    ensures
        res@.len() == width * height * 4,
        forall|y: int, x: int, c: int|
            0 <= y < height && 0 <= x < width && 0 <= c < 4 ==> #[trigger] res@[4 * (y * width + x) + c]
                == source_channel(x, y, c),
{
    let mut data: Vec<u8> = Vec::new();
    let mut y: u32 = 0;
    while y < height
        invariant
            y <= height,
            width as int * height as int * 4 <= usize::MAX,
            data@.len() == 4 * (y * width),
            forall|yy: int, x: int, c: int|
                0 <= yy < y && 0 <= x < width && 0 <= c < 4 ==> #[trigger] data@[4 * (yy * width + x)
                    + c] == source_channel(x, yy, c),
        decreases height - y,
    {
        let mut x: u32 = 0;
        assert(4 * ((y + 1) * width) <= width as int * height as int * 4) by (nonlinear_arith)
            requires
                y < height,
        ;
        assert(4 * (y * width) == 4 * (y * width + 0)) by (nonlinear_arith);
        while x < width
            invariant
                y < height,
                x <= width,
                4 * ((y + 1) * width) <= usize::MAX,
                data@.len() == 4 * (y * width + x),
                forall|yy: int, xx: int, c: int|
                    0 <= yy < y && 0 <= xx < width && 0 <= c < 4 ==> #[trigger] data@[4 * (yy * width
                        + xx) + c] == source_channel(xx, yy, c),
                forall|xx: int, c: int|
                    0 <= xx < x && 0 <= c < 4 ==> #[trigger] data@[4 * (y * width + xx) + c]
                        == source_channel(xx, y as int, c),
            decreases width - x,
        {
            let ghost before = data@;
            assert(4 * (y * width + x) + 4 <= 4 * ((y + 1) * width)) by (nonlinear_arith)
                requires
                    x < width,
            ;
            data.push((x % 256) as u8);
            data.push((y % 256) as u8);
            data.push((((x as u64) + (y as u64)) % 256) as u8);
            data.push(255u8);
            assert forall|yy: int, xx: int, c: int|
                0 <= yy < y && 0 <= xx < width && 0 <= c < 4 implies #[trigger] data@[4 * (yy * width
                    + xx) + c] == source_channel(xx, yy, c) by {
                assert(4 * (yy * width + xx) + c < 4 * (y * width)) by (nonlinear_arith)
                    requires
                        yy < y,
                        xx < width,
                        c < 4,
                ;
                assert(data@[4 * (yy * width + xx) + c] == before[4 * (yy * width + xx) + c]);
            }
            x = x + 1;
        }
        assert(4 * (y * width + width) == 4 * ((y + 1) * width)) by (nonlinear_arith);
        y = y + 1;
    }
    assert(4 * (height * width) == width * height * 4) by (nonlinear_arith);
    data
}

} // verus!
