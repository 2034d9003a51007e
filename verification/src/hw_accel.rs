//! The hardware acceleration method of a pipeline.
use vstd::prelude::*;

use crate::accel::cuda::{cuda_best_filter, cuda_codec, cuda_decode_format, cuda_decoder_args, cuda_init_args, same_nvidia, Cuda};
use crate::accel::qsv::{qsv_best_filter, qsv_codec, qsv_decode_format, same_qsv, Qsv};
use crate::accel::vaapi::{same_vaapi, vaapi_best_filter, vaapi_codec, vaapi_driver_name, Vaapi};
use crate::accel::video_toolbox::{same_video_toolbox, video_toolbox_codec, video_toolbox_decode_format, VideoToolbox};
use crate::accel::vulkan::{vulkan_best_filter, vulkan_codec, Vulkan};
use crate::capabilities::{vaapi_decodes, FormatDepth};
use crate::ffmpeg_info::{lists_accel, lists_filter, FfmpegInfo, KnownHardwareAccel, KnownVideoFilter};
use crate::filter_chain::PipelineFilter;
use crate::pipeline::{bit_depth_of, FrameState, FrameSurface, PixelFormat, VideoFormat};
use crate::text::{arg_texts, env_texts};
use crate::video_codec::{opt_codec_view, VideoCodec, VideoCodecView};
use crate::video_filter::{HwVideoFilter, VideoFilter};
use crate::accel::cuda::HwUploadCudaWorkaround;
use crate::accel::cuda::FormatCuda;
use crate::accel::vaapi::FormatVaapi;
use crate::accel::vulkan::FormatVulkan;

verus! {

/// A hardware acceleration method with what its device can do.
#[derive(Clone, Debug)]
pub enum HardwareAccel {
    Cuda(Cuda),
    Qsv(Qsv),
    Vaapi(Vaapi),
    VideoToolbox(VideoToolbox),
    Vulkan(Vulkan),
}

/// Whether two accelerators agree in method and capabilities.
pub open spec fn same_accel(a: HardwareAccel, b: HardwareAccel) -> bool {
    match (a, b) {
        (HardwareAccel::Cuda(x), HardwareAccel::Cuda(y)) => same_nvidia(x.capabilities, y.capabilities)
            && x.is_vulkan_hdr == y.is_vulkan_hdr,
        (HardwareAccel::Qsv(x), HardwareAccel::Qsv(y)) => same_qsv(x.capabilities, y.capabilities),
        (HardwareAccel::Vaapi(x), HardwareAccel::Vaapi(y)) => same_vaapi(x, y),
        (HardwareAccel::VideoToolbox(x), HardwareAccel::VideoToolbox(y)) => same_video_toolbox(x.capabilities, y.capabilities),
        (HardwareAccel::Vulkan(_), HardwareAccel::Vulkan(_)) => true,
        _ => false,
    }
}

/// Whether two optional accelerators agree.
pub open spec fn same_opt_accel(a: Option<HardwareAccel>, b: Option<HardwareAccel>) -> bool {
    match (a, b) {
        (Some(x), Some(y)) => same_accel(x, y),
        (None, None) => true,
        _ => false,
    }
}

/// The acceleration method of an accelerator.
pub open spec fn accel_known(a: HardwareAccel) -> KnownHardwareAccel {
    match a {
        HardwareAccel::Cuda(_) => KnownHardwareAccel::Cuda,
        HardwareAccel::Qsv(_) => KnownHardwareAccel::Qsv,
        HardwareAccel::Vaapi(_) => KnownHardwareAccel::Vaapi,
        HardwareAccel::VideoToolbox(_) => KnownHardwareAccel::VideoToolbox,
        HardwareAccel::Vulkan(_) => KnownHardwareAccel::Vulkan,
    }
}

/// The filter an accelerator uses in place of `vf`.
pub open spec fn accel_best_filter(a: HardwareAccel, vf: VideoFilter, info: FfmpegInfo, state: FrameState) -> VideoFilter {
    match a {
        HardwareAccel::Cuda(c) => cuda_best_filter(c, vf, info),
        HardwareAccel::Qsv(_) => qsv_best_filter(vf, info),
        HardwareAccel::Vaapi(_) => vaapi_best_filter(vf, info),
        HardwareAccel::VideoToolbox(_) => vf,
        HardwareAccel::Vulkan(_) => vulkan_best_filter(vf, info, state),
    }
}

/// Whether an accelerator decodes the codec and profile in the pixel
/// format; Vulkan places no limit of its own.
pub open spec fn accel_can_decode(a: HardwareAccel, codec: Seq<char>, profile: Seq<char>, pf: PixelFormat) -> bool {
    match a {
        HardwareAccel::Cuda(c) => match cuda_decode_format(codec) {
            Some(f) => c.capabilities.decode@.contains(FormatDepth { format: f, bit_depth: bit_depth_of(pf) }),
            None => false,
        },
        HardwareAccel::Qsv(q) => match qsv_decode_format(codec) {
            Some(f) => q.capabilities.decode@.contains(FormatDepth { format: f, bit_depth: bit_depth_of(pf) }),
            None => false,
        },
        HardwareAccel::Vaapi(v) => vaapi_decodes(v.capabilities.decode@, codec, profile, bit_depth_of(pf)),
        HardwareAccel::VideoToolbox(t) => match video_toolbox_decode_format(codec) {
            Some(f) => t.capabilities.decode@.contains(FormatDepth { format: f, bit_depth: bit_depth_of(pf) }),
            None => false,
        },
        HardwareAccel::Vulkan(_) => true,
    }
}

/// Whether an accelerator encodes the format at the bit depth; Vulkan
/// places no limit of its own.
pub open spec fn accel_can_encode(a: HardwareAccel, format: VideoFormat, bit_depth: u8) -> bool {
    let fd = FormatDepth { format, bit_depth };
    match a {
        HardwareAccel::Cuda(c) => c.capabilities.encode@.contains(fd),
        HardwareAccel::Qsv(q) => q.capabilities.encode@.contains(fd),
        HardwareAccel::Vaapi(v) => v.capabilities.encode@.contains(fd) || v.capabilities.encode_low_power@.contains(fd),
        HardwareAccel::VideoToolbox(t) => t.capabilities.encode@.contains(fd),
        HardwareAccel::Vulkan(_) => true,
    }
}

/// An accelerator's encoder for a format.
pub open spec fn accel_codec(a: HardwareAccel, format: VideoFormat) -> Option<VideoCodecView> {
    match a {
        HardwareAccel::Cuda(c) => cuda_codec(c, format),
        HardwareAccel::Qsv(_) => qsv_codec(format),
        HardwareAccel::Vaapi(_) => vaapi_codec(format),
        HardwareAccel::VideoToolbox(_) => video_toolbox_codec(format),
        HardwareAccel::Vulkan(_) => vulkan_codec(format),
    }
}

/// The decoder arguments of an accelerator.
pub open spec fn accel_decoder_args(a: HardwareAccel) -> Seq<Seq<char>> {
    match a {
        HardwareAccel::Cuda(c) => cuda_decoder_args(c),
        HardwareAccel::Qsv(_) => seq!["-hwaccel"@, "qsv"@, "-hwaccel_output_format"@, "qsv"@],
        HardwareAccel::Vaapi(_) => seq!["-hwaccel"@, "vaapi"@, "-hwaccel_output_format"@, "vaapi"@],
        HardwareAccel::VideoToolbox(_) => seq!["-hwaccel"@, "videotoolbox"@, "-hwaccel_output_format"@, "videotoolbox_vld"@],
        HardwareAccel::Vulkan(_) => seq!["-hwaccel"@, "vulkan"@, "-hwaccel_output_format"@, "vulkan"@],
    }
}

/// The filters that follow an accelerator's decoder.
pub open spec fn accel_decoder_filters(a: HardwareAccel) -> Seq<PipelineFilter> {
    match a {
        HardwareAccel::Cuda(c) => if c.is_vulkan_hdr {
            Seq::empty()
        } else {
            seq![PipelineFilter::Video(VideoFilter::Hardware(HwVideoFilter::HwUploadCudaWorkaround(HwUploadCudaWorkaround)))]
        },
        _ => Seq::empty(),
    }
}

/// The surface an accelerator's decoder outputs.
pub open spec fn accel_decoder_surface(a: HardwareAccel) -> FrameSurface {
    match a {
        HardwareAccel::Cuda(c) => if c.is_vulkan_hdr { FrameSurface::Vulkan } else { FrameSurface::Cuda },
        HardwareAccel::Qsv(_) => FrameSurface::Qsv,
        HardwareAccel::Vaapi(_) => FrameSurface::Vaapi,
        HardwareAccel::VideoToolbox(_) => FrameSurface::VideoToolbox,
        HardwareAccel::Vulkan(_) => FrameSurface::Vulkan,
    }
}

/// The surface an accelerator's encoder reads.
pub open spec fn accel_encoder_surface(a: HardwareAccel) -> FrameSurface {
    match a {
        HardwareAccel::Cuda(_) => FrameSurface::Cuda,
        HardwareAccel::Qsv(_) => FrameSurface::Qsv,
        HardwareAccel::Vaapi(_) => FrameSurface::Vaapi,
        HardwareAccel::VideoToolbox(_) => FrameSurface::VideoToolbox,
        HardwareAccel::Vulkan(_) => FrameSurface::Vulkan,
    }
}

/// The environment an accelerator needs.
pub open spec fn accel_envs(a: HardwareAccel) -> Seq<(Seq<char>, Seq<char>)> {
    match a {
        HardwareAccel::Vaapi(v) => seq![("LIBVA_DRIVER_NAME"@, vaapi_driver_name(v.driver))],
        _ => Seq::empty(),
    }
}

/// The device arguments of an accelerator.
pub open spec fn accel_init_args(a: HardwareAccel) -> Seq<Seq<char>> {
    match a {
        HardwareAccel::Cuda(c) => cuda_init_args(c),
        HardwareAccel::Qsv(_) => seq!["-init_hw_device"@, "qsv=hw"@, "-filter_hw_device"@, "hw"@],
        HardwareAccel::Vaapi(v) => seq!["-vaapi_device"@, v.device@],
        HardwareAccel::VideoToolbox(_) => seq!["-init_hw_device"@, "videotoolbox"@],
        HardwareAccel::Vulkan(_) => seq!["-init_hw_device"@, "vulkan"@],
    }
}

/// The filter that converts frames on an accelerator's device.
pub open spec fn accel_format_filter(a: HardwareAccel, pf: PixelFormat) -> Option<VideoFilter> {
    match a {
        HardwareAccel::Cuda(_) => Some(VideoFilter::Hardware(HwVideoFilter::FormatCuda(FormatCuda { format: pf }))),
        HardwareAccel::Qsv(_) => None,
        HardwareAccel::Vaapi(_) => Some(VideoFilter::Hardware(HwVideoFilter::FormatVaapi(FormatVaapi { format: pf }))),
        HardwareAccel::VideoToolbox(_) => None,
        HardwareAccel::Vulkan(_) => Some(VideoFilter::Hardware(HwVideoFilter::FormatVulkan(FormatVulkan { format: pf }))),
    }
}

/// Whether an accelerator's device converts to the pixel format; CUDA and
/// Vulkan place no limit of their own.
pub open spec fn accel_supports_format(a: HardwareAccel, pf: PixelFormat) -> bool {
    match a {
        HardwareAccel::Qsv(q) => q.capabilities.vpp_formats@.contains(pf),
        HardwareAccel::Vaapi(v) => v.capabilities.vpp_formats@.contains(pf),
        _ => true,
    }
}

/// An accelerator set up for the input.
pub open spec fn accel_initialized(a: HardwareAccel, res: HardwareAccel, info: FfmpegInfo, is_hdr: bool) -> bool {
    match (a, res) {
        (HardwareAccel::Cuda(c), HardwareAccel::Cuda(r)) => same_nvidia(r.capabilities, c.capabilities)
            && r.is_vulkan_hdr == (is_hdr && lists_accel(info, KnownHardwareAccel::Vulkan) && lists_filter(
            info,
            KnownVideoFilter::LibPlacebo,
        )),
        (HardwareAccel::Qsv(q), HardwareAccel::Qsv(r)) => same_qsv(r.capabilities, q.capabilities),
        (HardwareAccel::Vaapi(v), HardwareAccel::Vaapi(r)) => same_vaapi(r, v),
        (HardwareAccel::VideoToolbox(t), HardwareAccel::VideoToolbox(r)) => same_video_toolbox(r.capabilities, t.capabilities),
        (HardwareAccel::Vulkan(_), HardwareAccel::Vulkan(_)) => true,
        _ => false,
    }
}

impl HardwareAccel {
    /// A copy of this accelerator.
    pub fn duplicate(&self) -> (res: HardwareAccel)
        ensures
            same_accel(res, *self),
    {
        match self {
            HardwareAccel::Cuda(c) => HardwareAccel::Cuda(c.duplicate()),
            HardwareAccel::Qsv(q) => HardwareAccel::Qsv(q.duplicate()),
            HardwareAccel::Vaapi(v) => HardwareAccel::Vaapi(v.duplicate()),
            HardwareAccel::VideoToolbox(t) => HardwareAccel::VideoToolbox(t.duplicate()),
            HardwareAccel::Vulkan(_) => HardwareAccel::Vulkan(Vulkan),
        }
    }

    /// The filter to use in place of `video_filter`.
    pub fn best_filter(&self, video_filter: &VideoFilter, ffmpeg_info: &FfmpegInfo, current_state: &FrameState) -> (res: VideoFilter)
        ensures
            res == accel_best_filter(*self, *video_filter, *ffmpeg_info, *current_state),
    {
        match self {
            HardwareAccel::Cuda(c) => c.best_filter(video_filter, ffmpeg_info, current_state),
            HardwareAccel::Qsv(q) => q.best_filter(video_filter, ffmpeg_info, current_state),
            HardwareAccel::Vaapi(v) => v.best_filter(video_filter, ffmpeg_info, current_state),
            HardwareAccel::VideoToolbox(t) => t.best_filter(video_filter, ffmpeg_info, current_state),
            HardwareAccel::Vulkan(v) => v.best_filter(video_filter, ffmpeg_info, current_state),
        }
    }

    /// Whether the device decodes the codec and profile in the pixel format.
    pub fn can_decode(&self, codec: &str, profile: &str, pixel_format: &PixelFormat) -> (res: bool)
        ensures
            res == accel_can_decode(*self, codec@, profile@, *pixel_format),
    {
        match self {
            HardwareAccel::Cuda(c) => c.can_decode(codec, profile, pixel_format),
            HardwareAccel::Qsv(q) => q.can_decode(codec, profile, pixel_format),
            HardwareAccel::Vaapi(v) => v.can_decode(codec, profile, pixel_format),
            HardwareAccel::VideoToolbox(t) => t.can_decode(codec, profile, pixel_format),
            HardwareAccel::Vulkan(_) => true,
        }
    }

    /// Whether the device encodes the format at the bit depth.
    pub fn can_encode(&self, format: &VideoFormat, bit_depth: u8) -> (res: bool)
        ensures
            res == accel_can_encode(*self, *format, bit_depth),
    {
        match self {
            HardwareAccel::Cuda(c) => c.can_encode(format, bit_depth),
            HardwareAccel::Qsv(q) => q.can_encode(format, bit_depth),
            HardwareAccel::Vaapi(v) => v.can_encode(format, bit_depth),
            HardwareAccel::VideoToolbox(t) => t.can_encode(format, bit_depth),
            HardwareAccel::Vulkan(_) => true,
        }
    }

    /// The device's encoder for the format, if it has one.
    pub fn codec_for_format(&self, format: &VideoFormat) -> (res: Option<VideoCodec>)
        ensures
            opt_codec_view(res) == accel_codec(*self, *format),
    {
        match self {
            HardwareAccel::Cuda(c) => c.codec_for_format(format),
            HardwareAccel::Qsv(q) => q.codec_for_format(format),
            HardwareAccel::Vaapi(v) => v.codec_for_format(format),
            HardwareAccel::VideoToolbox(t) => t.codec_for_format(format),
            HardwareAccel::Vulkan(v) => v.codec_for_format(format),
        }
    }

    /// The arguments that select hardware decoding.
    pub fn decoder_arg(&self) -> (res: Vec<String>)
        ensures
            arg_texts(res@) == accel_decoder_args(*self),
    {
        match self {
            HardwareAccel::Cuda(c) => c.decoder_arg(),
            HardwareAccel::Qsv(q) => q.decoder_arg(),
            HardwareAccel::Vaapi(v) => v.decoder_arg(),
            HardwareAccel::VideoToolbox(t) => t.decoder_arg(),
            HardwareAccel::Vulkan(v) => v.decoder_arg(),
        }
    }

    /// The filters that follow the decoder.
    pub fn decoder_filters(&self) -> (res: Vec<PipelineFilter>)
        ensures
            res@ == accel_decoder_filters(*self),
    {
        match self {
            HardwareAccel::Cuda(c) => c.decoder_filters(),
            _ => Vec::new(),
        }
    }

    /// The surface decoded frames are on.
    pub fn decoder_frame_surface(&self) -> (res: FrameSurface)
        ensures
            res == accel_decoder_surface(*self),
    {
        match self {
            HardwareAccel::Cuda(c) => c.decoder_frame_surface(),
            HardwareAccel::Qsv(q) => q.decoder_frame_surface(),
            HardwareAccel::Vaapi(v) => v.decoder_frame_surface(),
            HardwareAccel::VideoToolbox(t) => t.decoder_frame_surface(),
            HardwareAccel::Vulkan(v) => v.decoder_frame_surface(),
        }
    }

    /// The surface the encoder reads frames from.
    pub fn encoder_frame_surface(&self) -> (res: FrameSurface)
        ensures
            res == accel_encoder_surface(*self),
    {
        match self {
            HardwareAccel::Cuda(c) => c.encoder_frame_surface(),
            HardwareAccel::Qsv(q) => q.encoder_frame_surface(),
            HardwareAccel::Vaapi(v) => v.encoder_frame_surface(),
            HardwareAccel::VideoToolbox(t) => t.encoder_frame_surface(),
            HardwareAccel::Vulkan(v) => v.encoder_frame_surface(),
        }
    }

    /// The environment variables the device needs.
    pub fn envs(&self) -> (res: Vec<(String, String)>)
        ensures
            env_texts(res@) == accel_envs(*self),
    {
        match self {
            HardwareAccel::Vaapi(v) => v.envs(),
            _ => {
                let v: Vec<(String, String)> = Vec::new();
                assert(env_texts(v@) =~= Seq::<(Seq<char>, Seq<char>)>::empty());
                v
            },
        }
    }

    /// The filter that converts frames on the device to a pixel format.
    pub fn format_filter(&self, pixel_format: &PixelFormat) -> (res: Option<VideoFilter>)
        ensures
            res == accel_format_filter(*self, *pixel_format),
    {
        match self {
            HardwareAccel::Cuda(c) => c.format_filter(pixel_format),
            HardwareAccel::Qsv(_) => None,
            HardwareAccel::Vaapi(v) => v.format_filter(pixel_format),
            HardwareAccel::VideoToolbox(_) => None,
            HardwareAccel::Vulkan(v) => v.format_filter(pixel_format),
        }
    }

    /// This accelerator set up for the input.
    pub fn initialize(&self, ffmpeg_info: &FfmpegInfo, is_hdr: bool) -> (res: HardwareAccel)
        ensures
            accel_initialized(*self, res, *ffmpeg_info, is_hdr),
    {
        match self {
            HardwareAccel::Cuda(c) => HardwareAccel::Cuda(c.initialize(ffmpeg_info, is_hdr)),
            HardwareAccel::Qsv(q) => HardwareAccel::Qsv(q.initialize(ffmpeg_info, is_hdr)),
            HardwareAccel::Vaapi(v) => HardwareAccel::Vaapi(v.initialize(ffmpeg_info, is_hdr)),
            HardwareAccel::VideoToolbox(t) => HardwareAccel::VideoToolbox(t.initialize(ffmpeg_info, is_hdr)),
            HardwareAccel::Vulkan(v) => HardwareAccel::Vulkan(v.initialize(ffmpeg_info, is_hdr)),
        }
    }

    /// The arguments that set up the device.
    pub fn init_hw_device(&self) -> (res: Vec<String>)
        ensures
            arg_texts(res@) == accel_init_args(*self),
    {
        match self {
            HardwareAccel::Cuda(c) => c.init_hw_device(),
            HardwareAccel::Qsv(q) => q.init_hw_device(),
            HardwareAccel::Vaapi(v) => v.init_hw_device(),
            HardwareAccel::VideoToolbox(t) => t.init_hw_device(),
            HardwareAccel::Vulkan(v) => v.init_hw_device(),
        }
    }

    /// The acceleration method.
    pub fn known_accel(&self) -> (res: KnownHardwareAccel)
        ensures
            res == accel_known(*self),
    {
        match self {
            HardwareAccel::Cuda(c) => c.known_accel(),
            HardwareAccel::Qsv(q) => q.known_accel(),
            HardwareAccel::Vaapi(v) => v.known_accel(),
            HardwareAccel::VideoToolbox(t) => t.known_accel(),
            HardwareAccel::Vulkan(v) => v.known_accel(),
        }
    }

    /// Whether the device converts to the pixel format.
    pub fn supports_pixel_format(&self, pixel_format: &PixelFormat) -> (res: bool)
        ensures
            res == accel_supports_format(*self, *pixel_format),
    {
        match self {
            HardwareAccel::Qsv(q) => q.supports_pixel_format(pixel_format),
            HardwareAccel::Vaapi(v) => v.supports_pixel_format(pixel_format),
            _ => true,
        }
    }

    /// The pixel format of decoded frames: the source's format.
    pub fn output_format(&self, source_pixel_format: &PixelFormat) -> (res: PixelFormat)
        ensures
            res == *source_pixel_format,
    {
        *source_pixel_format
    }
}

/// Accelerators that agree in method and capabilities decode, encode and
/// set up their devices alike.
pub proof fn lemma_same_accel_agrees(x: HardwareAccel, y: HardwareAccel)
    requires
        same_accel(x, y),
    ensures
        accel_decoder_args(x) == accel_decoder_args(y),
        accel_init_args(x) == accel_init_args(y),
        accel_envs(x) == accel_envs(y),
        accel_known(x) == accel_known(y),
        accel_encoder_surface(x) == accel_encoder_surface(y),
        forall|f: VideoFormat| #[trigger] accel_codec(x, f) == accel_codec(y, f),
        forall|f: VideoFormat, b: u8| #[trigger] accel_can_encode(x, f, b) == accel_can_encode(y, f, b),
        forall|c: Seq<char>, p: Seq<char>, f: PixelFormat| #[trigger] accel_can_decode(x, c, p, f) == accel_can_decode(
            y,
            c,
            p,
            f,
        ),
{
}

/// Two accelerators set up from the same one for the same input agree.
pub proof fn lemma_initialized_agree(a: HardwareAccel, r1: HardwareAccel, r2: HardwareAccel, info: FfmpegInfo, is_hdr: bool)
    requires
        accel_initialized(a, r1, info, is_hdr),
        accel_initialized(a, r2, info, is_hdr),
    ensures
        same_accel(r1, r2),
{
}

} // verus!
