//! Video filters of the filter chain.
use vstd::prelude::*;

use crate::accel::cuda::{FormatCuda, HwUploadCudaWorkaround, Libplacebo as CudaLibplacebo, PadCuda, ScaleCuda};
use crate::accel::opencl::TonemapOpencl;
use crate::accel::qsv::ScaleQsv;
use crate::accel::vaapi::{FormatVaapi, PadVaapi, ScaleVaapi};
use crate::accel::vulkan::{FormatVulkan, Libplacebo as VulkanLibplacebo, ScaleVulkan};
use crate::frame_size::FrameSize;
use crate::pipeline::{FrameState, FrameSurface, PixelFormat};
use crate::text::copy_opt_string;

verus! {

/// How a scaler keeps the source's aspect ratio.
#[derive(Clone, Copy, Debug, PartialEq, Eq, Structural)]
pub enum ForceOriginalAspectRatio {
    Disable,
    Decrease,
    Increase,
}

/// The scaler option text of a mode, with its leading separator.
pub open spec fn force_original_aspect_ratio_text(f: ForceOriginalAspectRatio) -> Seq<char> {
    match f {
        ForceOriginalAspectRatio::Disable => ":force_original_aspect_ratio=disable"@,
        ForceOriginalAspectRatio::Decrease => ":force_original_aspect_ratio=decrease"@,
        ForceOriginalAspectRatio::Increase => ":force_original_aspect_ratio=increase"@,
    }
}

/// The scaler option text of an optional mode (empty when there is none).
pub open spec fn opt_aspect_text(f: Option<ForceOriginalAspectRatio>) -> Seq<char> {
    match f {
        Some(m) => force_original_aspect_ratio_text(m),
        None => Seq::empty(),
    }
}

impl ForceOriginalAspectRatio {
    /// The scaler option text, with its leading separator.
    pub fn as_arg(&self) -> (res: String)
        ensures
            res@ == force_original_aspect_ratio_text(*self),
    {
        match self {
            ForceOriginalAspectRatio::Disable => String::from_str(":force_original_aspect_ratio=disable"),
            ForceOriginalAspectRatio::Decrease => String::from_str(":force_original_aspect_ratio=decrease"),
            ForceOriginalAspectRatio::Increase => String::from_str(":force_original_aspect_ratio=increase"),
        }
    }
}

/// The scaler option text of an optional mode (empty when there is none).
pub fn opt_aspect_arg(f: &Option<ForceOriginalAspectRatio>) -> (res: String)
    ensures
        res@ == opt_aspect_text(*f),
{
    match f {
        Some(m) => m.as_arg(),
        None => String::new(),
    }
}

/// A filter that runs on a hardware device.
#[derive(Clone, Debug)]
pub enum HwVideoFilter {
    ScaleCuda(ScaleCuda),
    PadCuda(PadCuda),
    FormatCuda(FormatCuda),
    HwUploadCudaWorkaround(HwUploadCudaWorkaround),
    CudaLibplacebo(CudaLibplacebo),
    TonemapOpencl(TonemapOpencl),
    ScaleQsv(ScaleQsv),
    ScaleVaapi(ScaleVaapi),
    PadVaapi(PadVaapi),
    FormatVaapi(FormatVaapi),
    FormatVulkan(FormatVulkan),
    VulkanLibplacebo(VulkanLibplacebo),
    ScaleVulkan(ScaleVulkan),
}

/// A video filter of the filter chain.
#[derive(Clone, Debug)]
pub enum VideoFilter {
    Scale {
        size: Option<FrameSize>,
        input_is_anamorphic: bool,
        force_original_aspect_ratio: Option<ForceOriginalAspectRatio>,
    },
    Pad { size: Option<FrameSize> },
    ToneMap { algorithm: Option<String>, format: PixelFormat },
    Loop { codec: String },
    Hardware(HwVideoFilter),
}

/// The surface a hardware filter needs its frames on.
pub open spec fn hw_required_surface(f: HwVideoFilter) -> FrameSurface {
    match f {
        HwVideoFilter::ScaleCuda(_) => FrameSurface::Cuda,
        HwVideoFilter::PadCuda(_) => FrameSurface::Cuda,
        HwVideoFilter::FormatCuda(_) => FrameSurface::Cuda,
        HwVideoFilter::HwUploadCudaWorkaround(_) => FrameSurface::Cuda,
        HwVideoFilter::CudaLibplacebo(_) => FrameSurface::Vulkan,
        HwVideoFilter::TonemapOpencl(_) => FrameSurface::OpenCL,
        HwVideoFilter::ScaleQsv(_) => FrameSurface::Qsv,
        HwVideoFilter::ScaleVaapi(_) => FrameSurface::Vaapi,
        HwVideoFilter::PadVaapi(_) => FrameSurface::Vaapi,
        HwVideoFilter::FormatVaapi(_) => FrameSurface::Vaapi,
        HwVideoFilter::FormatVulkan(_) => FrameSurface::Vulkan,
        HwVideoFilter::VulkanLibplacebo(_) => FrameSurface::Vulkan,
        HwVideoFilter::ScaleVulkan(_) => FrameSurface::Vulkan,
    }
}

/// The filter text of a hardware filter, if it has one.
pub open spec fn hw_filter_text(f: HwVideoFilter) -> Option<Seq<char>> {
    match f {
        HwVideoFilter::ScaleCuda(x) => x.text(),
        HwVideoFilter::PadCuda(x) => x.text(),
        HwVideoFilter::FormatCuda(x) => x.text(),
        HwVideoFilter::HwUploadCudaWorkaround(x) => x.text(),
        HwVideoFilter::CudaLibplacebo(x) => x.text(),
        HwVideoFilter::TonemapOpencl(x) => x.text(),
        HwVideoFilter::ScaleQsv(x) => x.text(),
        HwVideoFilter::ScaleVaapi(x) => x.text(),
        HwVideoFilter::PadVaapi(x) => x.text(),
        HwVideoFilter::FormatVaapi(x) => x.text(),
        HwVideoFilter::FormatVulkan(x) => x.text(),
        HwVideoFilter::VulkanLibplacebo(x) => x.text(),
        HwVideoFilter::ScaleVulkan(x) => x.text(),
    }
}

/// What a hardware filter makes of the frame state `old`.
pub open spec fn hw_applied(f: HwVideoFilter, old: FrameState, new: FrameState) -> bool {
    match f {
        HwVideoFilter::ScaleCuda(x) => x.applied(old, new),
        HwVideoFilter::PadCuda(x) => x.applied(old, new),
        HwVideoFilter::FormatCuda(x) => x.applied(old, new),
        HwVideoFilter::HwUploadCudaWorkaround(_) => new == old,
        HwVideoFilter::CudaLibplacebo(x) => x.applied(old, new),
        HwVideoFilter::TonemapOpencl(x) => x.applied(old, new),
        HwVideoFilter::ScaleQsv(x) => x.applied(old, new),
        HwVideoFilter::ScaleVaapi(x) => x.applied(old, new),
        HwVideoFilter::PadVaapi(x) => x.applied(old, new),
        HwVideoFilter::FormatVaapi(x) => x.applied(old, new),
        HwVideoFilter::FormatVulkan(x) => x.applied(old, new),
        HwVideoFilter::VulkanLibplacebo(x) => x.applied(old, new),
        HwVideoFilter::ScaleVulkan(x) => x.applied(old, new),
    }
}

/// The state after a scaler that outputs square pixels of `size` on
/// `surface`; nothing else changes.
pub open spec fn scaled_to_square(old: FrameState, new: FrameState, size: FrameSize, surface: FrameSurface) -> bool {
    &&& new.size == size
    &&& new.surface == surface
    &&& !new.is_anamorphic
    &&& new.sample_aspect_ratio matches Some(sar) && sar@ == "1:1"@
    &&& new.display_aspect_ratio is None
    &&& new.pixel_format == old.pixel_format
    &&& new.is_hdr == old.is_hdr
}

/// The state after a filter that resizes to `size` on `surface`.
pub open spec fn resized(old: FrameState, new: FrameState, size: FrameSize, surface: FrameSurface) -> bool {
    new == (FrameState { size, surface, ..old })
}

/// The state after a filter that converts to `format`.
pub open spec fn reformatted(old: FrameState, new: FrameState, format: PixelFormat) -> bool {
    new == (FrameState { pixel_format: format, ..old })
}

/// The state after tone mapping to SDR in `format` on `surface`.
pub open spec fn tone_mapped(old: FrameState, new: FrameState, format: PixelFormat, surface: FrameSurface) -> bool {
    new == (FrameState { pixel_format: format, is_hdr: false, surface, ..old })
}

impl HwVideoFilter {
    /// A copy of this filter.
    pub fn duplicate(&self) -> (res: HwVideoFilter)
        ensures
            res == *self,
    {
        match self {
            HwVideoFilter::ScaleCuda(x) => HwVideoFilter::ScaleCuda(*x),
            HwVideoFilter::PadCuda(x) => HwVideoFilter::PadCuda(*x),
            HwVideoFilter::FormatCuda(x) => HwVideoFilter::FormatCuda(*x),
            HwVideoFilter::HwUploadCudaWorkaround(x) => HwVideoFilter::HwUploadCudaWorkaround(*x),
            HwVideoFilter::CudaLibplacebo(x) => HwVideoFilter::CudaLibplacebo(x.duplicate()),
            HwVideoFilter::TonemapOpencl(x) => HwVideoFilter::TonemapOpencl(x.duplicate()),
            HwVideoFilter::ScaleQsv(x) => HwVideoFilter::ScaleQsv(*x),
            HwVideoFilter::ScaleVaapi(x) => HwVideoFilter::ScaleVaapi(*x),
            HwVideoFilter::PadVaapi(x) => HwVideoFilter::PadVaapi(*x),
            HwVideoFilter::FormatVaapi(x) => HwVideoFilter::FormatVaapi(*x),
            HwVideoFilter::FormatVulkan(x) => HwVideoFilter::FormatVulkan(*x),
            HwVideoFilter::VulkanLibplacebo(x) => HwVideoFilter::VulkanLibplacebo(x.duplicate()),
            HwVideoFilter::ScaleVulkan(x) => HwVideoFilter::ScaleVulkan(*x),
        }
    }

    /// The filter that stays in the chain for the state `state`; only the
    /// CUDA upload workaround is kept.
    pub fn evaluate(&self, state: &FrameState) -> (res: Option<VideoFilter>)
        ensures
            res == (match *self {
                HwVideoFilter::HwUploadCudaWorkaround(x) => Some(VideoFilter::Hardware(HwVideoFilter::HwUploadCudaWorkaround(x))),
                _ => None::<VideoFilter>,
            }),
    {
        match self {
            HwVideoFilter::HwUploadCudaWorkaround(x) => x.evaluate(state),
            HwVideoFilter::ScaleCuda(x) => x.evaluate(state),
            HwVideoFilter::PadCuda(x) => x.evaluate(state),
            HwVideoFilter::FormatCuda(x) => x.evaluate(state),
            HwVideoFilter::CudaLibplacebo(x) => x.evaluate(state),
            HwVideoFilter::TonemapOpencl(x) => x.evaluate(state),
            HwVideoFilter::ScaleQsv(x) => x.evaluate(state),
            HwVideoFilter::ScaleVaapi(x) => x.evaluate(state),
            HwVideoFilter::PadVaapi(x) => x.evaluate(state),
            HwVideoFilter::FormatVaapi(x) => x.evaluate(state),
            HwVideoFilter::FormatVulkan(x) => x.evaluate(state),
            HwVideoFilter::VulkanLibplacebo(x) => x.evaluate(state),
            HwVideoFilter::ScaleVulkan(x) => x.evaluate(state),
        }
    }

    /// Updates the frame state for this filter's output.
    pub fn apply_to(&self, state: &mut FrameState)
        ensures
            hw_applied(*self, *old(state), *final(state)),
    {
        match self {
            HwVideoFilter::ScaleCuda(x) => x.apply_to(state),
            HwVideoFilter::PadCuda(x) => x.apply_to(state),
            HwVideoFilter::FormatCuda(x) => x.apply_to(state),
            HwVideoFilter::HwUploadCudaWorkaround(x) => x.apply_to(state),
            HwVideoFilter::CudaLibplacebo(x) => x.apply_to(state),
            HwVideoFilter::TonemapOpencl(x) => x.apply_to(state),
            HwVideoFilter::ScaleQsv(x) => x.apply_to(state),
            HwVideoFilter::ScaleVaapi(x) => x.apply_to(state),
            HwVideoFilter::PadVaapi(x) => x.apply_to(state),
            HwVideoFilter::FormatVaapi(x) => x.apply_to(state),
            HwVideoFilter::FormatVulkan(x) => x.apply_to(state),
            HwVideoFilter::VulkanLibplacebo(x) => x.apply_to(state),
            HwVideoFilter::ScaleVulkan(x) => x.apply_to(state),
        }
    }

    /// The surface this filter needs its frames on.
    pub fn required_surface(&self) -> (res: FrameSurface)
        ensures
            res == hw_required_surface(*self),
    {
        match self {
            HwVideoFilter::ScaleCuda(x) => x.required_surface(),
            HwVideoFilter::PadCuda(x) => x.required_surface(),
            HwVideoFilter::FormatCuda(x) => x.required_surface(),
            HwVideoFilter::HwUploadCudaWorkaround(x) => x.required_surface(),
            HwVideoFilter::CudaLibplacebo(x) => x.required_surface(),
            HwVideoFilter::TonemapOpencl(x) => x.required_surface(),
            HwVideoFilter::ScaleQsv(x) => x.required_surface(),
            HwVideoFilter::ScaleVaapi(x) => x.required_surface(),
            HwVideoFilter::PadVaapi(x) => x.required_surface(),
            HwVideoFilter::FormatVaapi(x) => x.required_surface(),
            HwVideoFilter::FormatVulkan(x) => x.required_surface(),
            HwVideoFilter::VulkanLibplacebo(x) => x.required_surface(),
            HwVideoFilter::ScaleVulkan(x) => x.required_surface(),
        }
    }

    /// The filter text, if the filter has one.
    pub fn as_arg(&self) -> (res: Option<String>)
        ensures
            match res {
                Some(s) => hw_filter_text(*self) == Some(s@),
                None => hw_filter_text(*self) is None,
            },
    {
        match self {
            HwVideoFilter::ScaleCuda(x) => x.as_arg(),
            HwVideoFilter::PadCuda(x) => x.as_arg(),
            HwVideoFilter::FormatCuda(x) => x.as_arg(),
            HwVideoFilter::HwUploadCudaWorkaround(x) => x.as_arg(),
            HwVideoFilter::CudaLibplacebo(x) => x.as_arg(),
            HwVideoFilter::TonemapOpencl(x) => x.as_arg(),
            HwVideoFilter::ScaleQsv(x) => x.as_arg(),
            HwVideoFilter::ScaleVaapi(x) => x.as_arg(),
            HwVideoFilter::PadVaapi(x) => x.as_arg(),
            HwVideoFilter::FormatVaapi(x) => x.as_arg(),
            HwVideoFilter::FormatVulkan(x) => x.as_arg(),
            HwVideoFilter::VulkanLibplacebo(x) => x.as_arg(),
            HwVideoFilter::ScaleVulkan(x) => x.as_arg(),
        }
    }
}

/// The surface a video filter needs its frames on: hardware filters name
/// their device's surface, other filters need none in particular.
pub open spec fn video_filter_surface(f: VideoFilter) -> Option<FrameSurface> {
    match f {
        VideoFilter::Hardware(h) => Some(hw_required_surface(h)),
        _ => None,
    }
}

impl VideoFilter {
    /// A copy of this filter.
    pub fn duplicate(&self) -> (res: VideoFilter)
        ensures
            res == *self,
    {
        match self {
            VideoFilter::Scale { size, input_is_anamorphic, force_original_aspect_ratio } => VideoFilter::Scale {
                size: *size,
                input_is_anamorphic: *input_is_anamorphic,
                force_original_aspect_ratio: *force_original_aspect_ratio,
            },
            VideoFilter::Pad { size } => VideoFilter::Pad { size: *size },
            VideoFilter::ToneMap { algorithm, format } => VideoFilter::ToneMap {
                algorithm: copy_opt_string(algorithm),
                format: *format,
            },
            VideoFilter::Loop { codec } => VideoFilter::Loop { codec: codec.clone() },
            VideoFilter::Hardware(h) => VideoFilter::Hardware(h.duplicate()),
        }
    }

    /// The surface this filter needs its frames on, if any.
    pub fn required_surface(&self) -> (res: Option<FrameSurface>)
        ensures
            res == video_filter_surface(*self),
    {
        match self {
            VideoFilter::Hardware(h) => Some(h.required_surface()),
            _ => None,
        }
    }
}

} // verus!
