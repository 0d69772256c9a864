use vstd::prelude::*;

verus! {

/// The largest width or height that is ever rasterized, in pixels.
pub const MAX_RENDER_DIM: u32 = 4096;

/// A width or height brought into the range that is rasterized.
pub open spec fn clamped_dimension(pixels: u32) -> u32 {
    if pixels < 1 {
        1
    } else if pixels > MAX_RENDER_DIM {
        MAX_RENDER_DIM
    } else {
        pixels
    }
}

/// Brings a width or height into `1..=MAX_RENDER_DIM`.
pub fn clamp_dimension(pixels: u32) -> (clamped: u32)
    ensures
        clamped == clamped_dimension(pixels),
        1 <= clamped <= MAX_RENDER_DIM,
{
    if pixels < 1 {
        1
    } else if pixels > MAX_RENDER_DIM {
        MAX_RENDER_DIM
    } else {
        pixels
    }
}

/// The size of the pixel buffer for a render of `width` by `height`: each
/// side clamped on its own.
pub fn render_size(width: u32, height: u32) -> (size: (u32, u32))
    ensures
        size.0 == clamped_dimension(width),
        size.1 == clamped_dimension(height),
{
    (clamp_dimension(width), clamp_dimension(height))
}

/// The size at which the document goes to the clipboard: on each side the
/// greater of what was last rendered and the document's own size.
pub fn clipboard_size(rendered: (u32, u32), intrinsic: (u32, u32)) -> (size: (u32, u32))
    ensures
        size.0 == if rendered.0 >= intrinsic.0 {
            rendered.0
        } else {
            intrinsic.0
        },
        size.1 == if rendered.1 >= intrinsic.1 {
            rendered.1
        } else {
            intrinsic.1
        },
{
    let width = if rendered.0 >= intrinsic.0 {
        rendered.0
    } else {
        intrinsic.0
    };
    let height = if rendered.1 >= intrinsic.1 {
        rendered.1
    } else {
        intrinsic.1
    };
    (width, height)
}

} // verus!
