//! What the overlay needs of a source of frames.
use vstd::prelude::*;

verus! {

/// A source of frames. Nothing is promised of what it delivers: the overlay draws whatever part
/// of a frame is there.
pub trait CaptureBackend {
    /// The width of the frames, in pixels.
    fn width(&self) -> u32;

    /// The height of the frames, in pixels.
    fn height(&self) -> u32;

    /// Captures the current frame as BGRA pixel data, or says why it cannot.
    fn capture_frame(&mut self) -> Result<&[u8], String>;
}

} // verus!
