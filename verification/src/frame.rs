use vstd::prelude::*;

verus! {

/// The width of a video frame in pixels.
pub open spec fn spec_frame_width() -> int {
    256
}

/// The height of a video frame in pixels.
pub open spec fn spec_frame_height() -> int {
    240
}

/// How many pixel entries one video frame holds.
pub open spec fn spec_frame_pixel_count() -> int {
    spec_frame_width() * spec_frame_height()
}

/// Returns the width of a video frame in pixels.
pub fn frame_width() -> (n: usize)
    ensures
        n == spec_frame_width(),
{
    256
}

/// Returns the height of a video frame in pixels.
pub fn frame_height() -> (n: usize)
    ensures
        n == spec_frame_height(),
{
    240
}

/// Returns how many pixel entries one video frame holds.
///
/// Every frame step delivers a pixel buffer of exactly this many entries,
/// one byte per pixel, in the fixed 256 by 240 layout; the FFI shell sizes
/// the borrowed view of the native buffer with this number.
pub fn frame_pixel_count() -> (n: usize)
    ensures
        n == spec_frame_pixel_count(),
{
    256 * 240
}

} // verus!
