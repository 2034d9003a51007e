//! What the output should be normalized to.
use vstd::prelude::*;

use crate::frame_rate::FrameRate;
use crate::frame_size::FrameSize;
use crate::hw_accel::HardwareAccel;
use crate::output_format::OutputFormat;
use crate::pipeline::{AudioFormat, Hz, Kbps, PtsOffset, VideoFormat};

verus! {

/// Loudness normalization targets, each as the decimal text ffmpeg reads.
#[derive(Clone, Debug, PartialEq)]
pub struct AudioLoudnessSettings {
    pub integrated_target: String,
    pub range_target: String,
    pub true_peak: String,
}

/// Audio output settings.
#[derive(Clone, Debug)]
pub struct AudioOutputSettings {
    pub format: Option<AudioFormat>,
    pub bitrate: Option<Kbps>,
    pub buffer: Option<Kbps>,
    pub channels: Option<u32>,
    pub sample_rate: Option<Hz>,
    pub loudness: Option<AudioLoudnessSettings>,
}

/// Output settings of a pipeline.
#[derive(Clone, Debug)]
pub struct OutputSettings {
    pub accel: Option<HardwareAccel>,
    pub audio: AudioOutputSettings,
    pub video_format: Option<VideoFormat>,
    pub bit_depth: Option<u8>,
    pub video_size: Option<FrameSize>,
    pub video_bitrate: Option<Kbps>,
    pub video_buffer: Option<Kbps>,
    pub frame_rate: Option<FrameRate>,
    pub tonemap_algorithm: Option<String>,
    pub pts_offset: Option<PtsOffset>,
    pub realtime: bool,
    pub format: OutputFormat,
}

/// A copy of optional loudness settings.
pub fn copy_loudness(s: &Option<AudioLoudnessSettings>) -> (res: Option<AudioLoudnessSettings>)
    ensures
        res == *s,
{
    match s {
        Some(l) => Some(AudioLoudnessSettings {
            integrated_target: l.integrated_target.clone(),
            range_target: l.range_target.clone(),
            true_peak: l.true_peak.clone(),
        }),
        None => None,
    }
}

} // verus!
