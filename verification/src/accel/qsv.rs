//! Intel Quick Sync Video acceleration.
use vstd::prelude::*;

use crate::capabilities::{FormatDepth, QsvCapabilities};
use crate::ffmpeg_info::{lists_filter, FfmpegInfo, KnownHardwareAccel, KnownVideoFilter};
use crate::frame_size::FrameSize;
use crate::pipeline::{bit_depth_of, FrameState, FrameSurface, PixelFormat, VideoFormat};
use crate::text::{arg_texts, args4, dims_text, text_eq, decimal};
use crate::video_codec::{hardware_codec_view, opt_codec_view, VideoCodec, VideoCodecView};
use crate::video_filter::{resized, HwVideoFilter, VideoFilter};

verus! {

/// Quick Sync acceleration on an Intel device.
#[derive(Clone, Debug)]
pub struct Qsv {
    pub capabilities: QsvCapabilities,
}

/// The video format of a codec name that Quick Sync decodes.
pub open spec fn qsv_decode_format(codec: Seq<char>) -> Option<VideoFormat> {
    if codec == "h264"@ {
        Some(VideoFormat::H264)
    } else if codec == "hevc"@ {
        Some(VideoFormat::Hevc)
    } else {
        None
    }
}

/// The filter that Quick Sync uses in place of `vf`.
pub open spec fn qsv_best_filter(vf: VideoFilter, info: FfmpegInfo) -> VideoFilter {
    match vf {
        VideoFilter::Scale { size, .. } => if lists_filter(info, KnownVideoFilter::VppQsv) {
            VideoFilter::Hardware(HwVideoFilter::ScaleQsv(ScaleQsv { size }))
        } else {
            vf
        },
        _ => vf,
    }
}

/// The options of Quick Sync's encoders.
pub open spec fn qsv_encoder_options() -> Seq<Seq<char>> {
    seq!["-low_power"@, "0"@, "-look_ahead"@, "0"@]
}

/// Quick Sync's encoder for a format.
pub open spec fn qsv_codec(format: VideoFormat) -> Option<VideoCodecView> {
    match format {
        VideoFormat::H264 => Some(hardware_codec_view("h264_qsv"@, qsv_encoder_options())),
        VideoFormat::Hevc => Some(hardware_codec_view("hevc_qsv"@, qsv_encoder_options())),
        _ => None,
    }
}

/// Whether two Quick Sync capability descriptions agree.
pub open spec fn same_qsv(a: QsvCapabilities, b: QsvCapabilities) -> bool {
    &&& a.decode@ == b.decode@
    &&& a.encode@ == b.encode@
    &&& a.vpp_formats@ == b.vpp_formats@
}

impl Qsv {
    /// A copy of this accelerator.
    pub fn duplicate(&self) -> (res: Qsv)
        ensures
            same_qsv(res.capabilities, self.capabilities),
    {
        Qsv {
            capabilities: QsvCapabilities {
                decode: self.capabilities.decode.clone(),
                encode: self.capabilities.encode.clone(),
                vpp_formats: self.capabilities.vpp_formats.clone(),
            },
        }
    }

    /// The filter to use in place of `video_filter`.
    pub fn best_filter(&self, video_filter: &VideoFilter, ffmpeg_info: &FfmpegInfo, _current_state: &FrameState) -> (res: VideoFilter)
        ensures
            res == qsv_best_filter(*video_filter, *ffmpeg_info),
    {
        match video_filter {
            VideoFilter::Scale { size, .. } => {
                if ffmpeg_info.has_video_filter(&KnownVideoFilter::VppQsv) {
                    VideoFilter::Hardware(HwVideoFilter::ScaleQsv(ScaleQsv { size: *size }))
                } else {
                    video_filter.duplicate()
                }
            },
            _ => video_filter.duplicate(),
        }
    }

    /// Whether the device decodes the codec in the pixel format.
    pub fn can_decode(&self, codec: &str, _profile: &str, pixel_format: &PixelFormat) -> (res: bool)
        ensures
            res == match qsv_decode_format(codec@) {
                Some(f) => self.capabilities.decode@.contains(FormatDepth { format: f, bit_depth: bit_depth_of(*pixel_format) }),
                None => false,
            },
    {
        let format = if text_eq(codec, "h264") {
            Some(VideoFormat::H264)
        } else if text_eq(codec, "hevc") {
            Some(VideoFormat::Hevc)
        } else {
            None
        };
        if let Some(format) = format {
            self.capabilities.can_decode(&format, pixel_format.bit_depth())
        } else {
            false
        }
    }

    /// Whether the device encodes the format at the bit depth.
    pub fn can_encode(&self, format: &VideoFormat, bit_depth: u8) -> (res: bool)
        ensures
            res == self.capabilities.encode@.contains(FormatDepth { format: *format, bit_depth }),
    {
        self.capabilities.can_encode(format, bit_depth)
    }

    /// Quick Sync's encoder for the format, if it has one.
    pub fn codec_for_format(&self, format: &VideoFormat) -> (res: Option<VideoCodec>)
        ensures
            opt_codec_view(res) == qsv_codec(*format),
    {
        match format {
            VideoFormat::H264 => Some(VideoCodec::hardware("h264_qsv", args4("-low_power", "0", "-look_ahead", "0"))),
            VideoFormat::Hevc => Some(VideoCodec::hardware("hevc_qsv", args4("-low_power", "0", "-look_ahead", "0"))),
            _ => None,
        }
    }

    /// The arguments that select hardware decoding.
    pub fn decoder_arg(&self) -> (res: Vec<String>)
        ensures
            arg_texts(res@) == seq!["-hwaccel"@, "qsv"@, "-hwaccel_output_format"@, "qsv"@],
    {
        args4("-hwaccel", "qsv", "-hwaccel_output_format", "qsv")
    }

    /// The surface decoded frames are on.
    pub fn decoder_frame_surface(&self) -> (res: FrameSurface)
        ensures
            res == FrameSurface::Qsv,
    {
        FrameSurface::Qsv
    }

    /// The surface the encoder reads frames from.
    pub fn encoder_frame_surface(&self) -> (res: FrameSurface)
        ensures
            res == FrameSurface::Qsv,
    {
        FrameSurface::Qsv
    }

    /// This accelerator, unchanged by the input.
    pub fn initialize(&self, _ffmpeg_info: &FfmpegInfo, _is_hdr: bool) -> (res: Qsv)
        ensures
            same_qsv(res.capabilities, self.capabilities),
    {
        self.duplicate()
    }

    /// The arguments that set up the device.
    pub fn init_hw_device(&self) -> (res: Vec<String>)
        ensures
            arg_texts(res@) == seq!["-init_hw_device"@, "qsv=hw"@, "-filter_hw_device"@, "hw"@],
    {
        args4("-init_hw_device", "qsv=hw", "-filter_hw_device", "hw")
    }

    /// The acceleration method.
    pub fn known_accel(&self) -> (res: KnownHardwareAccel)
        ensures
            res == KnownHardwareAccel::Qsv,
    {
        KnownHardwareAccel::Qsv
    }

    /// Whether the video post-processor accepts the pixel format.
    pub fn supports_pixel_format(&self, pixel_format: &PixelFormat) -> (res: bool)
        ensures
            res == self.capabilities.vpp_formats@.contains(*pixel_format),
    {
        self.capabilities.vpp_supports_format(pixel_format)
    }
}

/// Scaling with the Quick Sync post-processor.
#[derive(Clone, Copy, Debug)]
pub struct ScaleQsv {
    pub size: Option<FrameSize>,
}

impl ScaleQsv {
    /// The filter text.
    pub open spec fn text(self) -> Option<Seq<char>> {
        match self.size {
            Some(s) => Some("vpp_qsv=w="@ + decimal(s.width as nat) + ":h="@ + decimal(s.height as nat)),
            None => None,
        }
    }

    /// The state after scaling.
    pub open spec fn applied(self, old: FrameState, new: FrameState) -> bool {
        match self.size {
            Some(s) => resized(old, new, s, FrameSurface::Qsv),
            None => new == old,
        }
    }

    /// Nothing replaces this filter once chosen.
    pub fn evaluate(&self, _state: &FrameState) -> (res: Option<VideoFilter>)
        ensures
            res is None,
    {
        None
    }

    /// Updates the state for the scaled output.
    pub fn apply_to(&self, state: &mut FrameState)
        ensures
            self.applied(*old(state), *final(state)),
    {
        if let Some(size) = &self.size {
            state.size = *size;
            state.surface = FrameSurface::Qsv;
        }
    }

    /// The surface the filter works on.
    pub fn required_surface(&self) -> (res: FrameSurface)
        ensures
            res == FrameSurface::Qsv,
    {
        FrameSurface::Qsv
    }

    /// The filter text.
    pub fn as_arg(&self) -> (res: Option<String>)
        ensures
            match res {
                Some(s) => self.text() == Some(s@),
                None => self.text() is None,
            },
    {
        match &self.size {
            Some(size) => {
                let mut s = String::from_str("vpp_qsv=w=");
                crate::text::append_decimal(&mut s, size.width as u128);
                s.append(":h=");
                crate::text::append_decimal(&mut s, size.height as u128);
                Some(s)
            },
            None => None,
        }
    }
}

} // verus!
