//! OpenCL tone mapping.
use vstd::prelude::*;

use crate::pipeline::{pixel_format_name, FrameState, FrameSurface, PixelFormat};
use crate::text::{str_or, text_or};
use crate::video_filter::{tone_mapped, VideoFilter};

verus! {

/// Tone mapping with OpenCL.
#[derive(Clone, Debug)]
pub struct TonemapOpencl {
    /// The tone mapping algorithm (ffmpeg's `tonemap` option).
    pub algorithm: Option<String>,
    /// The output pixel format: nv12 or p010.
    pub output_format: PixelFormat,
}

impl TonemapOpencl {
    /// The filter text.
    pub open spec fn text(self) -> Option<Seq<char>> {
        Some(
            "tonemap_opencl=tonemap="@ + text_or(self.algorithm, "hable"@)
                + ":desat=0:t=bt709:m=bt709:p=bt709=format="@ + pixel_format_name(self.output_format),
        )
    }

    /// The state after tone mapping.
    pub open spec fn applied(self, old: FrameState, new: FrameState) -> bool {
        tone_mapped(old, new, self.output_format, FrameSurface::Cuda)
    }

    /// A copy of this filter.
    pub fn duplicate(&self) -> (res: TonemapOpencl)
        ensures
            res == *self,
    {
        TonemapOpencl { algorithm: crate::text::copy_opt_string(&self.algorithm), output_format: self.output_format }
    }

    /// Nothing replaces this filter once chosen.
    pub fn evaluate(&self, _state: &FrameState) -> (res: Option<VideoFilter>)
        ensures
            res is None,
    {
        None
    }

    /// Updates the state for the tone-mapped output.
    pub fn apply_to(&self, state: &mut FrameState)
        ensures
            self.applied(*old(state), *final(state)),
    {
        state.pixel_format = self.output_format;
        state.is_hdr = false;
        state.surface = FrameSurface::Cuda;
    }

    /// The surface the filter works on.
    pub fn required_surface(&self) -> (res: FrameSurface)
        ensures
            res == FrameSurface::OpenCL,
    {
        FrameSurface::OpenCL
    }

    /// The filter text.
    pub fn as_arg(&self) -> (res: Option<String>)
        ensures
            match res {
                Some(s) => self.text() == Some(s@),
                None => self.text() is None,
            },
    {
        let mut s = String::from_str("tonemap_opencl=tonemap=");
        s.append(str_or(&self.algorithm, "hable"));
        s.append(":desat=0:t=bt709:m=bt709:p=bt709=format=");
        s.append(self.output_format.as_arg());
        Some(s)
    }
}

} // verus!
