use vstd::prelude::*;

verus! {

/// A size in 26.6 fixed point: the low 6 bits are a fractional pixel, so one
/// unit is 1/64 pixel.
pub type I26Dot6Size = i32;

/// A size in pixels per em, the device-resolution-scaled glyph size.
pub type PpemSize = i32;

/// A rasterization resolution in dots per inch.
pub type FontResolution = u32;

/// Converts a nonnegative 26.6 fixed-point size into pixels per em at the
/// given resolution, with the 72-points-per-inch convention.
///
/// The same value must be used to scale the shaping engine as the rasterizer
/// derives internally from the 26.6 size, so that shaped advances and offsets
/// agree in scale with the rasterized bitmaps.
pub fn i26dot6_to_ppem(x: I26Dot6Size, res: FontResolution) -> (r: PpemSize)
    requires
        0 <= x,
        x * res <= i32::MAX,
    ensures
        r == (x * res) / 72,
{
    let wide: i64 = (x as i64) * (res as i64);
    (wide / 72) as i32
}

/// Converts a nonnegative pixels-per-em size back into 26.6 fixed point at
/// the given resolution.
pub fn ppem_to_i26dot6(x: PpemSize, res: FontResolution) -> (r: I26Dot6Size)
    requires
        0 <= x,
        1 <= res,
        x * 72 <= i32::MAX,
    ensures
        r == (x * 72) / (res as int),
{
    let wide: i64 = (x as i64) * 72;
    (wide / (res as i64)) as i32
}

} // verus!
