//! Apple VideoToolbox acceleration.
use vstd::prelude::*;

use crate::capabilities::{FormatDepth, VideoToolboxCapabilities};
use crate::ffmpeg_info::{FfmpegInfo, KnownHardwareAccel};
use crate::pipeline::{bit_depth_of, FrameState, FrameSurface, PixelFormat, VideoFormat};
use crate::text::{arg_texts, args2, args4, text_eq};
use crate::video_codec::{hardware_codec_view, opt_codec_view, VideoCodec};
use crate::video_codec::VideoCodecView;
use crate::video_filter::VideoFilter;

verus! {

/// VideoToolbox acceleration on an Apple device.
#[derive(Clone, Debug)]
pub struct VideoToolbox {
    pub capabilities: VideoToolboxCapabilities,
}

/// The video format of a codec name that VideoToolbox decodes.
pub open spec fn video_toolbox_decode_format(codec: Seq<char>) -> Option<VideoFormat> {
    if codec == "h264"@ {
        Some(VideoFormat::H264)
    } else if codec == "hevc"@ {
        Some(VideoFormat::Hevc)
    } else if codec == "vp9"@ {
        Some(VideoFormat::Vp9)
    } else if codec == "av1"@ {
        Some(VideoFormat::Av1)
    } else if codec == "mpeg2video"@ {
        Some(VideoFormat::Mpeg2Video)
    } else {
        None
    }
}

/// VideoToolbox's encoder for a format.
pub open spec fn video_toolbox_codec(format: VideoFormat) -> Option<VideoCodecView> {
    match format {
        VideoFormat::H264 => Some(hardware_codec_view("h264_videotoolbox"@, Seq::empty())),
        VideoFormat::Hevc => Some(hardware_codec_view("hevc_videotoolbox"@, seq!["-tag:v"@, "hvc1"@])),
        _ => None,
    }
}

/// Whether two VideoToolbox capability descriptions agree.
pub open spec fn same_video_toolbox(a: VideoToolboxCapabilities, b: VideoToolboxCapabilities) -> bool {
    &&& a.decode@ == b.decode@
    &&& a.encode@ == b.encode@
}

impl VideoToolbox {
    /// VideoToolbox acceleration with the probed capabilities.
    pub fn new(capabilities: VideoToolboxCapabilities) -> (res: VideoToolbox)
        ensures
            res.capabilities == capabilities,
    {
        VideoToolbox { capabilities }
    }

    /// A copy of this accelerator.
    pub fn duplicate(&self) -> (res: VideoToolbox)
        ensures
            same_video_toolbox(res.capabilities, self.capabilities),
    {
        VideoToolbox { capabilities: self.capabilities.duplicate() }
    }

    /// The filter to use in place of `video_filter`: VideoToolbox has no
    /// filters of its own, so the filter itself.
    pub fn best_filter(&self, video_filter: &VideoFilter, _ffmpeg_info: &FfmpegInfo, _current_state: &FrameState) -> (res: VideoFilter)
        ensures
            res == *video_filter,
    {
        video_filter.duplicate()
    }

    /// Whether the device decodes the codec in the pixel format.
    pub fn can_decode(&self, codec: &str, _profile: &str, pixel_format: &PixelFormat) -> (res: bool)
        ensures
            res == match video_toolbox_decode_format(codec@) {
                Some(f) => self.capabilities.decode@.contains(FormatDepth { format: f, bit_depth: bit_depth_of(*pixel_format) }),
                None => false,
            },
    {
        let format = if text_eq(codec, "h264") {
            Some(VideoFormat::H264)
        } else if text_eq(codec, "hevc") {
            Some(VideoFormat::Hevc)
        } else if text_eq(codec, "vp9") {
            Some(VideoFormat::Vp9)
        } else if text_eq(codec, "av1") {
            Some(VideoFormat::Av1)
        } else if text_eq(codec, "mpeg2video") {
            Some(VideoFormat::Mpeg2Video)
        } else {
            None
        };
        match format {
            Some(f) => self.capabilities.can_decode(&f, pixel_format.bit_depth()),
            None => false,
        }
    }

    /// Whether the device encodes the format at the bit depth.
    pub fn can_encode(&self, format: &VideoFormat, bit_depth: u8) -> (res: bool)
        ensures
            res == self.capabilities.encode@.contains(FormatDepth { format: *format, bit_depth }),
    {
        self.capabilities.can_encode(format, bit_depth)
    }

    /// VideoToolbox's encoder for the format, if it has one.
    pub fn codec_for_format(&self, format: &VideoFormat) -> (res: Option<VideoCodec>)
        ensures
            opt_codec_view(res) == video_toolbox_codec(*format),
    {
        match format {
            VideoFormat::H264 => {
                let options: Vec<String> = Vec::new();
                assert(arg_texts(options@) =~= Seq::<Seq<char>>::empty());
                Some(VideoCodec::hardware("h264_videotoolbox", options))
            },
            VideoFormat::Hevc => Some(VideoCodec::hardware("hevc_videotoolbox", args2("-tag:v", "hvc1"))),
            _ => None,
        }
    }

    /// The arguments that select hardware decoding.
    pub fn decoder_arg(&self) -> (res: Vec<String>)
        ensures
            arg_texts(res@) == seq!["-hwaccel"@, "videotoolbox"@, "-hwaccel_output_format"@, "videotoolbox_vld"@],
    {
        args4("-hwaccel", "videotoolbox", "-hwaccel_output_format", "videotoolbox_vld")
    }

    /// The surface decoded frames are on.
    pub fn decoder_frame_surface(&self) -> (res: FrameSurface)
        ensures
            res == FrameSurface::VideoToolbox,
    {
        FrameSurface::VideoToolbox
    }

    /// The surface the encoder reads frames from.
    pub fn encoder_frame_surface(&self) -> (res: FrameSurface)
        ensures
            res == FrameSurface::VideoToolbox,
    {
        FrameSurface::VideoToolbox
    }

    /// This accelerator, unchanged by the input.
    pub fn initialize(&self, _ffmpeg_info: &FfmpegInfo, _is_hdr: bool) -> (res: VideoToolbox)
        ensures
            same_video_toolbox(res.capabilities, self.capabilities),
    {
        self.duplicate()
    }

    /// The arguments that set up the device.
    pub fn init_hw_device(&self) -> (res: Vec<String>)
        ensures
            arg_texts(res@) == seq!["-init_hw_device"@, "videotoolbox"@],
    {
        args2("-init_hw_device", "videotoolbox")
    }

    /// The acceleration method.
    pub fn known_accel(&self) -> (res: KnownHardwareAccel)
        ensures
            res == KnownHardwareAccel::VideoToolbox,
    {
        KnownHardwareAccel::VideoToolbox
    }
}

} // verus!
