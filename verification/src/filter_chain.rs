//! The filters between decoding and encoding.
use vstd::prelude::*;

use crate::audio_filter::AudioFilter;
use crate::text::arg_texts;
use crate::video_filter::VideoFilter;

verus! {

/// A filter of the chain.
#[derive(Clone, Debug)]
pub enum PipelineFilter {
    Audio(AudioFilter),
    Video(VideoFilter),
}

/// The filters of a pipeline, with the audio or video part switched off
/// when that stream is copied.
#[derive(Clone, Debug)]
pub struct FilterChain {
    pub filters: Vec<PipelineFilter>,
    pub audio_enabled: bool,
    pub video_enabled: bool,
}

impl FilterChain {
    /// A chain of `filters`, all enabled.
    pub fn new(filters: Vec<PipelineFilter>) -> (res: FilterChain)
        ensures
            res.filters@ == filters@,
            res.audio_enabled,
            res.video_enabled,
    {
        FilterChain { filters, audio_enabled: true, video_enabled: true }
    }

    /// Switches the audio filters off.
    pub fn disable_audio(&mut self)
        ensures
            *final(self) == (FilterChain { audio_enabled: false, ..*old(self) }),
    {
        self.audio_enabled = false;
    }

    /// Switches the video filters off.
    pub fn disable_video(&mut self)
        ensures
            *final(self) == (FilterChain { video_enabled: false, ..*old(self) }),
    {
        self.video_enabled = false;
    }
}

/// A filter chain as built into ffmpeg arguments: the arguments that
/// describe the filter graph, and the labels of its video and audio
/// outputs.
#[derive(Clone, Debug)]
pub struct FilterGraph {
    pub args: Vec<String>,
    pub video_label: String,
    pub audio_label: String,
}

/// The arguments of a built filter graph.
pub open spec fn graph_args(g: FilterGraph) -> Seq<Seq<char>> {
    arg_texts(g.args@)
}

} // verus!
