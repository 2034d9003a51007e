//! Where input media comes from.
use vstd::prelude::*;

use crate::probe::ProbeResult;
use crate::text::{arg_texts, copy_args};
use crate::timespan::TimeSpan;

verus! {

/// A source of input media, described by the arguments that make ffmpeg
/// read it (such as `-f lavfi` for a generated source; none for a file).
#[derive(Clone, Debug)]
pub struct InputSource {
    pub input_args: Vec<String>,
}

impl InputSource {
    /// A copy of this source.
    pub fn duplicate(&self) -> (res: InputSource)
        ensures
            arg_texts(res.input_args@) == arg_texts(self.input_args@),
    {
        InputSource { input_args: copy_args(&self.input_args) }
    }

    /// The arguments that come before this source's `-i`.
    pub fn args_for_input(&self) -> (res: Vec<String>)
        ensures
            arg_texts(res@) == arg_texts(self.input_args@),
    {
        copy_args(&self.input_args)
    }
}

/// The audio input: its source, what a probe found in it, the part of it
/// to play, and the stream requested, if any.
#[derive(Clone, Debug)]
pub struct AudioInputSettings {
    pub input_source: InputSource,
    pub probe_result: ProbeResult,
    pub in_point: TimeSpan,
    pub out_point: TimeSpan,
    pub audio_index: Option<u32>,
}

/// The video input: its source, what a probe found in it, the part of it
/// to play, and the stream requested, if any.
#[derive(Clone, Debug)]
pub struct VideoInputSettings {
    pub input_source: InputSource,
    pub probe_result: ProbeResult,
    pub in_point: TimeSpan,
    pub out_point: TimeSpan,
    pub video_index: Option<u32>,
}

/// The inputs of a pipeline.
#[derive(Clone, Debug)]
pub struct InputSettings {
    pub audio_input: AudioInputSettings,
    pub video_input: VideoInputSettings,
}

} // verus!
