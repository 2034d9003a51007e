//! Vulkan acceleration.
use vstd::prelude::*;

use crate::accel::cuda::libplacebo_format;
use crate::ffmpeg_info::{lists_filter, FfmpegInfo, KnownHardwareAccel, KnownVideoFilter};
use crate::frame_size::FrameSize;
use crate::pipeline::{bit_depth_of, pixel_format_name, FrameState, FrameSurface, PixelFormat, VideoFormat};
use crate::text::{arg_texts, args2, args4, dims, dims_text, str_or, text_or};
use crate::video_codec::{hardware_codec_view, opt_codec_view, VideoCodec, VideoCodecView};
use crate::video_filter::{reformatted, scaled_to_square, HwVideoFilter, VideoFilter};

verus! {

/// Vulkan acceleration.
#[derive(Clone, Copy, Debug)]
pub struct Vulkan;

/// The filter that Vulkan uses in place of `vf`; scaling moves to the
/// device only for 8-bit frames.
pub open spec fn vulkan_best_filter(vf: VideoFilter, info: FfmpegInfo, state: FrameState) -> VideoFilter {
    match vf {
        VideoFilter::Scale { size, input_is_anamorphic, .. } => if lists_filter(info, KnownVideoFilter::ScaleVulkan)
            && bit_depth_of(state.pixel_format) == 8 {
            VideoFilter::Hardware(HwVideoFilter::ScaleVulkan(ScaleVulkan { size, input_is_anamorphic }))
        } else {
            vf
        },
        VideoFilter::ToneMap { algorithm, format } => if lists_filter(info, KnownVideoFilter::LibPlacebo) {
            VideoFilter::Hardware(
                HwVideoFilter::VulkanLibplacebo(Libplacebo { algorithm, format: libplacebo_format(format) }),
            )
        } else {
            vf
        },
        _ => vf,
    }
}

/// Vulkan's encoder for a format.
pub open spec fn vulkan_codec(format: VideoFormat) -> Option<VideoCodecView> {
    match format {
        VideoFormat::H264 => Some(hardware_codec_view("h264_vulkan"@, seq![])),
        VideoFormat::Hevc => Some(hardware_codec_view("hevc_vulkan"@, seq!["-tag:v"@, "hvc1"@])),
        _ => None,
    }
}

impl Vulkan {
    /// The filter to use in place of `video_filter`.
    pub fn best_filter(&self, video_filter: &VideoFilter, ffmpeg_info: &FfmpegInfo, current_state: &FrameState) -> (res: VideoFilter)
        ensures
            res == vulkan_best_filter(*video_filter, *ffmpeg_info, *current_state),
    {
        match video_filter {
            VideoFilter::Scale { size, input_is_anamorphic, .. } => {
                if ffmpeg_info.has_video_filter(&KnownVideoFilter::ScaleVulkan)
                    && current_state.pixel_format.bit_depth() == 8 {
                    VideoFilter::Hardware(
                        HwVideoFilter::ScaleVulkan(ScaleVulkan { size: *size, input_is_anamorphic: *input_is_anamorphic }),
                    )
                } else {
                    video_filter.duplicate()
                }
            },
            VideoFilter::ToneMap { algorithm, format } => {
                if ffmpeg_info.has_video_filter(&KnownVideoFilter::LibPlacebo) {
                    let out = match format {
                        PixelFormat::Yuv420p10le => PixelFormat::P010le,
                        _ => PixelFormat::Nv12,
                    };
                    VideoFilter::Hardware(
                        HwVideoFilter::VulkanLibplacebo(
                            Libplacebo { algorithm: crate::text::copy_opt_string(algorithm), format: out },
                        ),
                    )
                } else {
                    video_filter.duplicate()
                }
            },
            _ => video_filter.duplicate(),
        }
    }

    /// Vulkan's encoder for the format, if it has one.
    pub fn codec_for_format(&self, format: &VideoFormat) -> (res: Option<VideoCodec>)
        ensures
            opt_codec_view(res) == vulkan_codec(*format),
    {
        match format {
            VideoFormat::H264 => {
                let options: Vec<String> = Vec::new();
                assert(arg_texts(options@) =~= Seq::<Seq<char>>::empty());
                Some(VideoCodec::hardware("h264_vulkan", options))
            },
            VideoFormat::Hevc => Some(VideoCodec::hardware("hevc_vulkan", args2("-tag:v", "hvc1"))),
            _ => None,
        }
    }

    /// The arguments that select hardware decoding.
    pub fn decoder_arg(&self) -> (res: Vec<String>)
        ensures
            arg_texts(res@) == seq!["-hwaccel"@, "vulkan"@, "-hwaccel_output_format"@, "vulkan"@],
    {
        args4("-hwaccel", "vulkan", "-hwaccel_output_format", "vulkan")
    }

    /// The surface decoded frames are on.
    pub fn decoder_frame_surface(&self) -> (res: FrameSurface)
        ensures
            res == FrameSurface::Vulkan,
    {
        FrameSurface::Vulkan
    }

    /// The surface the encoder reads frames from.
    pub fn encoder_frame_surface(&self) -> (res: FrameSurface)
        ensures
            res == FrameSurface::Vulkan,
    {
        FrameSurface::Vulkan
    }

    /// The filter that converts frames on the device to a pixel format.
    pub fn format_filter(&self, pixel_format: &PixelFormat) -> (res: Option<VideoFilter>)
        ensures
            res == Some(VideoFilter::Hardware(HwVideoFilter::FormatVulkan(FormatVulkan { format: *pixel_format }))),
    {
        Some(VideoFilter::Hardware(HwVideoFilter::FormatVulkan(FormatVulkan { format: *pixel_format })))
    }

    /// This accelerator, unchanged by the input.
    pub fn initialize(&self, _ffmpeg_info: &FfmpegInfo, _is_hdr: bool) -> (res: Vulkan)
    {
        Vulkan
    }

    /// The arguments that set up the device.
    pub fn init_hw_device(&self) -> (res: Vec<String>)
        ensures
            arg_texts(res@) == seq!["-init_hw_device"@, "vulkan"@],
    {
        args2("-init_hw_device", "vulkan")
    }

    /// The acceleration method.
    pub fn known_accel(&self) -> (res: KnownHardwareAccel)
        ensures
            res == KnownHardwareAccel::Vulkan,
    {
        KnownHardwareAccel::Vulkan
    }
}

/// Pixel format conversion on the Vulkan device.
#[derive(Clone, Copy, Debug)]
pub struct FormatVulkan {
    pub format: PixelFormat,
}

impl FormatVulkan {
    /// The filter text.
    pub open spec fn text(self) -> Option<Seq<char>> {
        Some("scale_vulkan=format="@ + pixel_format_name(self.format))
    }

    /// The state after conversion.
    pub open spec fn applied(self, old: FrameState, new: FrameState) -> bool {
        reformatted(old, new, self.format)
    }

    /// Nothing replaces this filter once chosen.
    pub fn evaluate(&self, _state: &FrameState) -> (res: Option<VideoFilter>)
        ensures
            res is None,
    {
        None
    }

    /// Updates the state for the converted output.
    pub fn apply_to(&self, state: &mut FrameState)
        ensures
            self.applied(*old(state), *final(state)),
    {
        state.pixel_format = self.format;
    }

    /// The surface the filter works on.
    pub fn required_surface(&self) -> (res: FrameSurface)
        ensures
            res == FrameSurface::Vulkan,
    {
        FrameSurface::Vulkan
    }

    /// The filter text.
    pub fn as_arg(&self) -> (res: Option<String>)
        ensures
            match res {
                Some(s) => self.text() == Some(s@),
                None => self.text() is None,
            },
    {
        let mut s = String::from_str("scale_vulkan=format=");
        s.append(self.format.as_arg());
        Some(s)
    }
}

/// Tone mapping with libplacebo on the Vulkan device.
#[derive(Clone, Debug)]
pub struct Libplacebo {
    pub algorithm: Option<String>,
    pub format: PixelFormat,
}

impl Libplacebo {
    /// The filter text.
    pub open spec fn text(self) -> Option<Seq<char>> {
        Some(
            "libplacebo=tonemapping="@ + text_or(self.algorithm, "linear"@)
                + ":colorspace=bt709:color_primaries=bt709:color_trc=bt709:format="@ + pixel_format_name(self.format),
        )
    }

    /// The state after tone mapping: SDR in the filter's format.
    pub open spec fn applied(self, old: FrameState, new: FrameState) -> bool {
        new == (FrameState { pixel_format: self.format, is_hdr: false, ..old })
    }

    /// A copy of this filter.
    pub fn duplicate(&self) -> (res: Libplacebo)
        ensures
            res == *self,
    {
        Libplacebo { algorithm: crate::text::copy_opt_string(&self.algorithm), format: self.format }
    }

    /// Nothing replaces this filter once chosen.
    pub fn evaluate(&self, _state: &FrameState) -> (res: Option<VideoFilter>)
        ensures
            res is None,
    {
        None
    }

    /// Updates the state for the tone-mapped output.
    pub fn apply_to(&self, state: &mut FrameState)
        ensures
            self.applied(*old(state), *final(state)),
    {
        state.pixel_format = self.format;
        state.is_hdr = false;
    }

    /// The surface the filter works on.
    pub fn required_surface(&self) -> (res: FrameSurface)
        ensures
            res == FrameSurface::Vulkan,
    {
        FrameSurface::Vulkan
    }

    /// The filter text.
    pub fn as_arg(&self) -> (res: Option<String>)
        ensures
            match res {
                Some(s) => self.text() == Some(s@),
                None => self.text() is None,
            },
    {
        let mut s = String::from_str("libplacebo=tonemapping=");
        s.append(str_or(&self.algorithm, "linear"));
        s.append(":colorspace=bt709:color_primaries=bt709:color_trc=bt709:format=");
        s.append(self.format.as_arg());
        Some(s)
    }
}

/// Scaling on the Vulkan device.
#[derive(Clone, Copy, Debug)]
pub struct ScaleVulkan {
    pub size: Option<FrameSize>,
    pub input_is_anamorphic: bool,
}

impl ScaleVulkan {
    /// The filter text.
    pub open spec fn text(self) -> Option<Seq<char>> {
        match self.size {
            Some(s) => Some(
                if self.input_is_anamorphic {
                    "scale_vulkan=iw*sar:ih,setsar=1,scale_vulkan="@ + dims_text(s.width, s.height)
                } else {
                    "scale_vulkan="@ + dims_text(s.width, s.height) + ",setsar=1"@
                },
            ),
            None => None,
        }
    }

    /// The state after scaling.
    pub open spec fn applied(self, old: FrameState, new: FrameState) -> bool {
        match self.size {
            Some(s) => scaled_to_square(old, new, s, FrameSurface::Vulkan),
            None => new == old,
        }
    }

    /// Nothing replaces this filter once chosen.
    pub fn evaluate(&self, _state: &FrameState) -> (res: Option<VideoFilter>)
        ensures
            res is None,
    {
        None
    }

    /// Updates the state for the scaled output.
    pub fn apply_to(&self, state: &mut FrameState)
        ensures
            self.applied(*old(state), *final(state)),
    {
        if let Some(size) = &self.size {
            state.size = *size;
            state.surface = FrameSurface::Vulkan;
            state.is_anamorphic = false;
            state.sample_aspect_ratio = Some(String::from_str("1:1"));
            state.display_aspect_ratio = None;
        }
    }

    /// The surface the filter works on.
    pub fn required_surface(&self) -> (res: FrameSurface)
        ensures
            res == FrameSurface::Vulkan,
    {
        FrameSurface::Vulkan
    }

    /// The filter text.
    pub fn as_arg(&self) -> (res: Option<String>)
        ensures
            match res {
                Some(s) => self.text() == Some(s@),
                None => self.text() is None,
            },
    {
        if let Some(size) = &self.size {
            let d = dims(size.width, size.height);
            if self.input_is_anamorphic {
                let mut s = String::from_str("scale_vulkan=iw*sar:ih,setsar=1,scale_vulkan=");
                s.append(d.as_str());
                Some(s)
            } else {
                let mut s = String::from_str("scale_vulkan=");
                s.append(d.as_str());
                s.append(",setsar=1");
                Some(s)
            }
        } else {
            None
        }
    }
}

} // verus!
