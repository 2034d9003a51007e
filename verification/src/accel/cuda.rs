//! NVIDIA CUDA acceleration, with Vulkan/libplacebo tone mapping for HDR.
use vstd::prelude::*;

use crate::capabilities::{FormatDepth, NvidiaCapabilities};
use crate::ffmpeg_info::{lists_accel, lists_filter, FfmpegInfo, KnownHardwareAccel, KnownVideoFilter};
use crate::filter_chain::PipelineFilter;
use crate::frame_size::FrameSize;
use crate::pipeline::{bit_depth_of, pixel_format_name, FrameState, FrameSurface, PixelFormat, VideoFormat};
use crate::text::{
    arg_texts, args2, args4, dims, dims_text, str_or, text_eq, text_or,
};
use crate::video_codec::{hardware_codec_view, opt_codec_view, VideoCodec, VideoCodecView};
use crate::video_filter::{
    opt_aspect_arg, opt_aspect_text, reformatted, resized, scaled_to_square, tone_mapped, ForceOriginalAspectRatio,
    HwVideoFilter, VideoFilter,
};

verus! {

/// CUDA acceleration on an NVIDIA device. `is_vulkan_hdr` is set when HDR
/// input is decoded through Vulkan so that libplacebo can tone map it.
#[derive(Clone, Debug)]
pub struct Cuda {
    pub capabilities: NvidiaCapabilities,
    pub is_vulkan_hdr: bool,
}

/// The video format of a codec name that NVIDIA decoders handle.
pub open spec fn cuda_decode_format(codec: Seq<char>) -> Option<VideoFormat> {
    if codec == "av1"@ {
        Some(VideoFormat::Av1)
    } else if codec == "h264"@ {
        Some(VideoFormat::H264)
    } else if codec == "hevc"@ {
        Some(VideoFormat::Hevc)
    } else if codec == "mpeg2video"@ {
        Some(VideoFormat::Mpeg2Video)
    } else if codec == "vc1"@ {
        Some(VideoFormat::Vc1)
    } else if codec == "vp8"@ {
        Some(VideoFormat::Vp8)
    } else if codec == "vp9"@ {
        Some(VideoFormat::Vp9)
    } else {
        None
    }
}

/// The libplacebo output format for a tone-map target format.
pub open spec fn libplacebo_format(format: PixelFormat) -> PixelFormat {
    if format == PixelFormat::Yuv420p10le {
        PixelFormat::P010le
    } else {
        PixelFormat::Nv12
    }
}

fn libplacebo_format_of(format: PixelFormat) -> (res: PixelFormat)
    ensures
        res == libplacebo_format(format),
{
    match format {
        PixelFormat::Yuv420p10le => PixelFormat::P010le,
        _ => PixelFormat::Nv12,
    }
}

/// The filter that CUDA uses in place of `vf`.
pub open spec fn cuda_best_filter(c: Cuda, vf: VideoFilter, info: FfmpegInfo) -> VideoFilter {
    match vf {
        VideoFilter::Scale { size, input_is_anamorphic, force_original_aspect_ratio } => if lists_filter(
            info,
            KnownVideoFilter::ScaleCuda,
        ) {
            VideoFilter::Hardware(
                HwVideoFilter::ScaleCuda(ScaleCuda { size, input_is_anamorphic, force_original_aspect_ratio }),
            )
        } else {
            vf
        },
        VideoFilter::Pad { size } => if lists_filter(info, KnownVideoFilter::PadCuda) {
            VideoFilter::Hardware(HwVideoFilter::PadCuda(PadCuda { size }))
        } else {
            vf
        },
        VideoFilter::ToneMap { algorithm, format } => if c.is_vulkan_hdr {
            VideoFilter::Hardware(
                HwVideoFilter::CudaLibplacebo(Libplacebo { algorithm, format: libplacebo_format(format) }),
            )
        } else {
            vf
        },
        _ => vf,
    }
}

/// The encoder options of NVIDIA's HEVC encoder.
pub open spec fn nvenc_hevc_options(b_ref_mode: bool) -> Seq<Seq<char>> {
    if b_ref_mode {
        seq!["-tag:v"@, "hvc1"@, "-b_ref_mode"@, "1"@]
    } else {
        seq!["-tag:v"@, "hvc1"@, "-b_ref_mode"@, "0"@]
    }
}

/// NVIDIA's encoder for a format.
pub open spec fn cuda_codec(c: Cuda, format: VideoFormat) -> Option<VideoCodecView> {
    match format {
        VideoFormat::H264 => Some(hardware_codec_view("h264_nvenc"@, seq![])),
        VideoFormat::Hevc => Some(
            hardware_codec_view(
                "hevc_nvenc"@,
                nvenc_hevc_options(c.capabilities.b_frame_ref_mode@.contains(VideoFormat::Hevc)),
            ),
        ),
        _ => None,
    }
}

/// The decoder arguments of CUDA (Vulkan for HDR input).
pub open spec fn cuda_decoder_args(c: Cuda) -> Seq<Seq<char>> {
    if c.is_vulkan_hdr {
        seq!["-hwaccel"@, "vulkan"@, "-hwaccel_output_format"@, "vulkan"@]
    } else {
        seq!["-hwaccel"@, "cuda"@, "-hwaccel_output_format"@, "cuda"@]
    }
}

/// The device arguments of CUDA.
pub open spec fn cuda_init_args(c: Cuda) -> Seq<Seq<char>> {
    if c.is_vulkan_hdr {
        seq!["-init_hw_device"@, "cuda=nv"@, "-init_hw_device"@, "vulkan=vk@nv"@]
    } else {
        seq!["-init_hw_device"@, "cuda"@]
    }
}

/// Whether two NVIDIA capability descriptions agree.
pub open spec fn same_nvidia(a: NvidiaCapabilities, b: NvidiaCapabilities) -> bool {
    &&& a.decode@ == b.decode@
    &&& a.encode@ == b.encode@
    &&& a.b_frame_ref_mode@ == b.b_frame_ref_mode@
}

impl Cuda {
    /// CUDA acceleration with the probed capabilities.
    pub fn new(capabilities: NvidiaCapabilities) -> (res: Cuda)
        ensures
            res.capabilities == capabilities,
            !res.is_vulkan_hdr,
    {
        Cuda { capabilities, is_vulkan_hdr: false }
    }

    /// A copy of this accelerator.
    pub fn duplicate(&self) -> (res: Cuda)
        ensures
            same_nvidia(res.capabilities, self.capabilities),
            res.is_vulkan_hdr == self.is_vulkan_hdr,
    {
        Cuda { capabilities: self.capabilities.duplicate(), is_vulkan_hdr: self.is_vulkan_hdr }
    }

    /// The filter to use in place of `video_filter`.
    pub fn best_filter(&self, video_filter: &VideoFilter, ffmpeg_info: &FfmpegInfo, _current_state: &FrameState) -> (res: VideoFilter)
        ensures
            res == cuda_best_filter(*self, *video_filter, *ffmpeg_info),
    {
        match video_filter {
            VideoFilter::Scale { size, input_is_anamorphic, force_original_aspect_ratio } => {
                if ffmpeg_info.has_video_filter(&KnownVideoFilter::ScaleCuda) {
                    VideoFilter::Hardware(
                        HwVideoFilter::ScaleCuda(
                            ScaleCuda {
                                size: *size,
                                input_is_anamorphic: *input_is_anamorphic,
                                force_original_aspect_ratio: *force_original_aspect_ratio,
                            },
                        ),
                    )
                } else {
                    video_filter.duplicate()
                }
            },
            VideoFilter::Pad { size } => {
                if ffmpeg_info.has_video_filter(&KnownVideoFilter::PadCuda) {
                    VideoFilter::Hardware(HwVideoFilter::PadCuda(PadCuda { size: *size }))
                } else {
                    video_filter.duplicate()
                }
            },
            VideoFilter::ToneMap { algorithm, format } => {
                if self.is_vulkan_hdr {
                    VideoFilter::Hardware(
                        HwVideoFilter::CudaLibplacebo(
                            Libplacebo {
                                algorithm: crate::text::copy_opt_string(algorithm),
                                format: libplacebo_format_of(*format),
                            },
                        ),
                    )
                } else {
                    video_filter.duplicate()
                }
            },
            _ => video_filter.duplicate(),
        }
    }

    /// Whether the device decodes the codec in the pixel format.
    pub fn can_decode(&self, codec: &str, _profile: &str, pixel_format: &PixelFormat) -> (res: bool)
        ensures
            res == match cuda_decode_format(codec@) {
                Some(f) => self.capabilities.decode@.contains(FormatDepth { format: f, bit_depth: bit_depth_of(*pixel_format) }),
                None => false,
            },
    {
        let format = if text_eq(codec, "av1") {
            Some(VideoFormat::Av1)
        } else if text_eq(codec, "h264") {
            Some(VideoFormat::H264)
        } else if text_eq(codec, "hevc") {
            Some(VideoFormat::Hevc)
        } else if text_eq(codec, "mpeg2video") {
            Some(VideoFormat::Mpeg2Video)
        } else if text_eq(codec, "vc1") {
            Some(VideoFormat::Vc1)
        } else if text_eq(codec, "vp8") {
            Some(VideoFormat::Vp8)
        } else if text_eq(codec, "vp9") {
            Some(VideoFormat::Vp9)
        } else {
            None
        };
        match format {
            Some(f) => self.capabilities.can_decode(&f, pixel_format.bit_depth()),
            None => false,
        }
    }

    /// Whether the device encodes the format at the bit depth.
    pub fn can_encode(&self, format: &VideoFormat, bit_depth: u8) -> (res: bool)
        ensures
            res == self.capabilities.encode@.contains(FormatDepth { format: *format, bit_depth }),
    {
        self.capabilities.can_encode(format, bit_depth)
    }

    /// NVIDIA's encoder for the format, if it has one.
    pub fn codec_for_format(&self, format: &VideoFormat) -> (res: Option<VideoCodec>)
        ensures
            opt_codec_view(res) == cuda_codec(*self, *format),
    {
        match format {
            VideoFormat::H264 => {
                let options: Vec<String> = Vec::new();
                assert(arg_texts(options@) =~= Seq::<Seq<char>>::empty());
                Some(VideoCodec::hardware("h264_nvenc", options))
            },
            VideoFormat::Hevc => {
                let options = if self.capabilities.b_frame_ref_mode(format) {
                    args4("-tag:v", "hvc1", "-b_ref_mode", "1")
                } else {
                    args4("-tag:v", "hvc1", "-b_ref_mode", "0")
                };
                Some(VideoCodec::hardware("hevc_nvenc", options))
            },
            _ => None,
        }
    }

    /// The arguments that select hardware decoding.
    pub fn decoder_arg(&self) -> (res: Vec<String>)
        ensures
            arg_texts(res@) == cuda_decoder_args(*self),
    {
        if self.is_vulkan_hdr {
            args4("-hwaccel", "vulkan", "-hwaccel_output_format", "vulkan")
        } else {
            args4("-hwaccel", "cuda", "-hwaccel_output_format", "cuda")
        }
    }

    /// The filters that follow the decoder: an upload that keeps frames on
    /// the device, except for HDR input decoded through Vulkan.
    pub fn decoder_filters(&self) -> (res: Vec<PipelineFilter>)
        ensures
            res@ == if self.is_vulkan_hdr {
                Seq::<PipelineFilter>::empty()
            } else {
                seq![PipelineFilter::Video(VideoFilter::Hardware(HwVideoFilter::HwUploadCudaWorkaround(HwUploadCudaWorkaround)))]
            },
    {
        let mut v: Vec<PipelineFilter> = Vec::new();
        if !self.is_vulkan_hdr {
            v.push(PipelineFilter::Video(VideoFilter::Hardware(HwVideoFilter::HwUploadCudaWorkaround(HwUploadCudaWorkaround))));
        }
        v
    }

    /// The surface decoded frames are on.
    pub fn decoder_frame_surface(&self) -> (res: FrameSurface)
        ensures
            res == if self.is_vulkan_hdr { FrameSurface::Vulkan } else { FrameSurface::Cuda },
    {
        if self.is_vulkan_hdr {
            FrameSurface::Vulkan
        } else {
            FrameSurface::Cuda
        }
    }

    /// The surface the encoder reads frames from.
    pub fn encoder_frame_surface(&self) -> (res: FrameSurface)
        ensures
            res == FrameSurface::Cuda,
    {
        FrameSurface::Cuda
    }

    /// The filter that converts frames on the device to a pixel format.
    pub fn format_filter(&self, pixel_format: &PixelFormat) -> (res: Option<VideoFilter>)
        ensures
            res == Some(VideoFilter::Hardware(HwVideoFilter::FormatCuda(FormatCuda { format: *pixel_format }))),
    {
        Some(VideoFilter::Hardware(HwVideoFilter::FormatCuda(FormatCuda { format: *pixel_format })))
    }

    /// This accelerator set up for the input: HDR input goes through Vulkan
    /// when ffmpeg has both Vulkan and libplacebo.
    pub fn initialize(&self, ffmpeg_info: &FfmpegInfo, is_hdr: bool) -> (res: Cuda)
        ensures
            same_nvidia(res.capabilities, self.capabilities),
            res.is_vulkan_hdr == (is_hdr && lists_accel(*ffmpeg_info, KnownHardwareAccel::Vulkan) && lists_filter(
                *ffmpeg_info,
                KnownVideoFilter::LibPlacebo,
            )),
    {
        Cuda {
            capabilities: self.capabilities.duplicate(),
            is_vulkan_hdr: is_hdr && ffmpeg_info.has_hw_accel(&KnownHardwareAccel::Vulkan)
                && ffmpeg_info.has_video_filter(&KnownVideoFilter::LibPlacebo),
        }
    }

    /// The arguments that set up the device.
    pub fn init_hw_device(&self) -> (res: Vec<String>)
        ensures
            arg_texts(res@) == cuda_init_args(*self),
    {
        if self.is_vulkan_hdr {
            args4("-init_hw_device", "cuda=nv", "-init_hw_device", "vulkan=vk@nv")
        } else {
            args2("-init_hw_device", "cuda")
        }
    }

    /// The acceleration method.
    pub fn known_accel(&self) -> (res: KnownHardwareAccel)
        ensures
            res == KnownHardwareAccel::Cuda,
    {
        KnownHardwareAccel::Cuda
    }
}

/// Scaling on the device.
#[derive(Clone, Copy, Debug)]
pub struct ScaleCuda {
    pub size: Option<FrameSize>,
    pub input_is_anamorphic: bool,
    pub force_original_aspect_ratio: Option<ForceOriginalAspectRatio>,
}

impl ScaleCuda {
    /// The filter text.
    pub open spec fn text(self) -> Option<Seq<char>> {
        match self.size {
            Some(s) => Some(
                if self.input_is_anamorphic {
                    "scale_cuda=iw*sar:ih,setsar=1,scale_cuda="@ + dims_text(s.width, s.height) + opt_aspect_text(
                        self.force_original_aspect_ratio,
                    )
                } else {
                    "scale_cuda="@ + dims_text(s.width, s.height) + opt_aspect_text(self.force_original_aspect_ratio)
                        + ",setsar=1"@
                },
            ),
            None => None,
        }
    }

    /// The state after scaling.
    pub open spec fn applied(self, old: FrameState, new: FrameState) -> bool {
        match self.size {
            Some(s) => scaled_to_square(old, new, s, FrameSurface::Cuda),
            None => new == old,
        }
    }

    /// Nothing replaces this filter once chosen.
    pub fn evaluate(&self, _state: &FrameState) -> (res: Option<VideoFilter>)
        ensures
            res is None,
    {
        None
    }

    /// Updates the state for the scaled output.
    pub fn apply_to(&self, state: &mut FrameState)
        ensures
            self.applied(*old(state), *final(state)),
    {
        if let Some(size) = &self.size {
            state.size = *size;
            state.surface = FrameSurface::Cuda;
            state.is_anamorphic = false;
            state.sample_aspect_ratio = Some(String::from_str("1:1"));
            state.display_aspect_ratio = None;
        }
    }

    /// The surface the filter works on.
    pub fn required_surface(&self) -> (res: FrameSurface)
        ensures
            res == FrameSurface::Cuda,
    {
        FrameSurface::Cuda
    }

    /// The filter text.
    pub fn as_arg(&self) -> (res: Option<String>)
        ensures
            match res {
                Some(s) => self.text() == Some(s@),
                None => self.text() is None,
            },
    {
        if let Some(size) = &self.size {
            let aspect_ratio = opt_aspect_arg(&self.force_original_aspect_ratio);
            let d = dims(size.width, size.height);
            if self.input_is_anamorphic {
                let mut s = String::from_str("scale_cuda=iw*sar:ih,setsar=1,scale_cuda=");
                s.append(d.as_str());
                s.append(aspect_ratio.as_str());
                Some(s)
            } else {
                let mut s = String::from_str("scale_cuda=");
                s.append(d.as_str());
                s.append(aspect_ratio.as_str());
                s.append(",setsar=1");
                Some(s)
            }
        } else {
            None
        }
    }
}

/// Padding on the device.
#[derive(Clone, Copy, Debug)]
pub struct PadCuda {
    pub size: Option<FrameSize>,
}

impl PadCuda {
    /// The filter text.
    pub open spec fn text(self) -> Option<Seq<char>> {
        match self.size {
            Some(s) => Some("pad_cuda="@ + dims_text(s.width, s.height) + ":-1:-1:color=black,setsar=1"@),
            None => None,
        }
    }

    /// The state after padding.
    pub open spec fn applied(self, old: FrameState, new: FrameState) -> bool {
        match self.size {
            Some(s) => resized(old, new, s, FrameSurface::Cuda),
            None => new == old,
        }
    }

    /// Nothing replaces this filter once chosen.
    pub fn evaluate(&self, _state: &FrameState) -> (res: Option<VideoFilter>)
        ensures
            res is None,
    {
        None
    }

    /// Updates the state for the padded output.
    pub fn apply_to(&self, state: &mut FrameState)
        ensures
            self.applied(*old(state), *final(state)),
    {
        if let Some(size) = &self.size {
            state.size = *size;
            state.surface = FrameSurface::Cuda;
        }
    }

    /// The surface the filter works on.
    pub fn required_surface(&self) -> (res: FrameSurface)
        ensures
            res == FrameSurface::Cuda,
    {
        FrameSurface::Cuda
    }

    /// The filter text.
    pub fn as_arg(&self) -> (res: Option<String>)
        ensures
            match res {
                Some(s) => self.text() == Some(s@),
                None => self.text() is None,
            },
    {
        match &self.size {
            Some(size) => {
                let mut s = String::from_str("pad_cuda=");
                let d = dims(size.width, size.height);
                s.append(d.as_str());
                s.append(":-1:-1:color=black,setsar=1");
                Some(s)
            },
            None => None,
        }
    }
}

/// Pixel format conversion on the device.
#[derive(Clone, Copy, Debug)]
pub struct FormatCuda {
    pub format: PixelFormat,
}

impl FormatCuda {
    /// The filter text.
    pub open spec fn text(self) -> Option<Seq<char>> {
        Some("scale_cuda=format="@ + pixel_format_name(self.format))
    }

    /// The state after conversion.
    pub open spec fn applied(self, old: FrameState, new: FrameState) -> bool {
        reformatted(old, new, self.format)
    }

    /// Nothing replaces this filter once chosen.
    pub fn evaluate(&self, _state: &FrameState) -> (res: Option<VideoFilter>)
        ensures
            res is None,
    {
        None
    }

    /// Updates the state for the converted output.
    pub fn apply_to(&self, state: &mut FrameState)
        ensures
            self.applied(*old(state), *final(state)),
    {
        state.pixel_format = self.format;
    }

    /// The surface the filter works on.
    pub fn required_surface(&self) -> (res: FrameSurface)
        ensures
            res == FrameSurface::Cuda,
    {
        FrameSurface::Cuda
    }

    /// The filter text.
    pub fn as_arg(&self) -> (res: Option<String>)
        ensures
            match res {
                Some(s) => self.text() == Some(s@),
                None => self.text() is None,
            },
    {
        let mut s = String::from_str("scale_cuda=format=");
        s.append(self.format.as_arg());
        Some(s)
    }
}

/// An upload after CUDA decoding, which keeps frames on the device when
/// the decoder falls back to software.
#[derive(Clone, Copy, Debug)]
pub struct HwUploadCudaWorkaround;

impl HwUploadCudaWorkaround {
    /// The filter text.
    pub open spec fn text(self) -> Option<Seq<char>> {
        Some("hwupload"@)
    }

    /// This filter always stays in the chain.
    pub fn evaluate(&self, _state: &FrameState) -> (res: Option<VideoFilter>)
        ensures
            res == Some(VideoFilter::Hardware(HwVideoFilter::HwUploadCudaWorkaround(*self))),
    {
        Some(VideoFilter::Hardware(HwVideoFilter::HwUploadCudaWorkaround(*self)))
    }

    /// The state is unchanged.
    pub fn apply_to(&self, state: &mut FrameState)
        ensures
            *final(state) == *old(state),
    {
    }

    /// Frames are taken to be on the CUDA device already, so that nothing
    /// downloads them before the upload.
    pub fn required_surface(&self) -> (res: FrameSurface)
        ensures
            res == FrameSurface::Cuda,
    {
        FrameSurface::Cuda
    }

    /// The filter text.
    pub fn as_arg(&self) -> (res: Option<String>)
        ensures
            match res {
                Some(s) => self.text() == Some(s@),
                None => self.text() is None,
            },
    {
        Some(String::from_str("hwupload"))
    }
}

/// The libplacebo format for an output format, and the CUDA conversion
/// that follows the upload.
pub open spec fn vulkan_output_format(format: PixelFormat) -> PixelFormat {
    if format == PixelFormat::P010le {
        PixelFormat::P016
    } else {
        PixelFormat::Nv12
    }
}

/// Tone mapping with libplacebo on Vulkan, uploaded back to CUDA.
#[derive(Clone, Debug)]
pub struct Libplacebo {
    pub algorithm: Option<String>,
    pub format: PixelFormat,
}

impl Libplacebo {
    /// The filter text.
    pub open spec fn text(self) -> Option<Seq<char>> {
        let vulkan_format = vulkan_output_format(self.format);
        Some(
            "libplacebo=tonemapping="@ + text_or(self.algorithm, "linear"@)
                + ":colorspace=bt709:color_primaries=bt709:color_trc=bt709:format="@ + pixel_format_name(
                vulkan_format,
            ) + ",hwupload_cuda"@ + if vulkan_format == PixelFormat::P016 {
                ",scale_cuda=format=p010"@
            } else {
                Seq::<char>::empty()
            },
        )
    }

    /// The state after tone mapping.
    pub open spec fn applied(self, old: FrameState, new: FrameState) -> bool {
        tone_mapped(old, new, self.format, FrameSurface::Cuda)
    }

    /// A copy of this filter.
    pub fn duplicate(&self) -> (res: Libplacebo)
        ensures
            res == *self,
    {
        Libplacebo { algorithm: crate::text::copy_opt_string(&self.algorithm), format: self.format }
    }

    /// Nothing replaces this filter once chosen.
    pub fn evaluate(&self, _state: &FrameState) -> (res: Option<VideoFilter>)
        ensures
            res is None,
    {
        None
    }

    /// Updates the state for the tone-mapped output.
    pub fn apply_to(&self, state: &mut FrameState)
        ensures
            self.applied(*old(state), *final(state)),
    {
        state.pixel_format = self.format;
        state.is_hdr = false;
        state.surface = FrameSurface::Cuda;
    }

    /// The surface the filter works on.
    pub fn required_surface(&self) -> (res: FrameSurface)
        ensures
            res == FrameSurface::Vulkan,
    {
        FrameSurface::Vulkan
    }

    /// The filter text.
    pub fn as_arg(&self) -> (res: Option<String>)
        ensures
            match res {
                Some(s) => self.text() == Some(s@),
                None => self.text() is None,
            },
    {
        let vulkan_format = match self.format {
            PixelFormat::P010le => PixelFormat::P016,
            _ => PixelFormat::Nv12,
        };
        let cuda_format = match vulkan_format {
            PixelFormat::P016 => ",scale_cuda=format=p010",
            _ => "",
        };
        let mut s = String::from_str("libplacebo=tonemapping=");
        s.append(str_or(&self.algorithm, "linear"));
        s.append(":colorspace=bt709:color_primaries=bt709:color_trc=bt709:format=");
        s.append(vulkan_format.as_arg());
        s.append(",hwupload_cuda");
        s.append(cuda_format);
        proof {
            if vulkan_format != PixelFormat::P016 {
                reveal_strlit("");
                assert(""@ =~= Seq::<char>::empty());
            }
        }
        Some(s)
    }
}

} // verus!
