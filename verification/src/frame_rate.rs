//! Frame rates as reported by ffprobe.
use vstd::prelude::*;

verus! {

/// A stream's frame rate: ffprobe's `r_frame_rate` text (such as
/// `30000/1001`) together with that rate rounded to the nearest whole
/// number of frames per second (ties to even).
#[derive(Clone, Debug, PartialEq)]
pub struct FrameRate {
    pub r_frame_rate: String,
    pub rounded_frame_rate: u32,
}

impl FrameRate {
    /// A copy of this frame rate.
    pub fn duplicate(&self) -> (res: FrameRate)
        ensures
            res == *self,
    {
        FrameRate { r_frame_rate: self.r_frame_rate.clone(), rounded_frame_rate: self.rounded_frame_rate }
    }
}

/// A copy of an optional frame rate.
pub fn copy_opt_frame_rate(f: &Option<FrameRate>) -> (res: Option<FrameRate>)
    ensures
        res == *f,
{
    match f {
        Some(r) => Some(r.duplicate()),
        None => None,
    }
}

} // verus!
