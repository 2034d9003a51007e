//! VAAPI acceleration.
use vstd::prelude::*;

use crate::capabilities::{vaapi_decodes, FormatDepth, VaapiCapabilities};
use crate::ffmpeg_info::{lists_filter, FfmpegInfo, KnownHardwareAccel, KnownVideoFilter};
use crate::frame_size::FrameSize;
use crate::pipeline::{bit_depth_of, pixel_format_name, FrameState, FrameSurface, PixelFormat, VideoFormat};
use crate::text::{arg_texts, args2, args4, dims, dims_text, env_texts};
use crate::video_codec::{hardware_codec_view, opt_codec_view, VideoCodec, VideoCodecView};
use crate::video_filter::{
    opt_aspect_arg, opt_aspect_text, reformatted, resized, scaled_to_square, ForceOriginalAspectRatio, HwVideoFilter,
    VideoFilter,
};

verus! {

/// The VAAPI driver to load.
#[derive(Clone, Copy, Debug, PartialEq, Eq, Structural)]
pub enum VaapiDriver {
    Ihd,
    I965,
    RadeonSI,
}

/// The name under which libva loads a driver.
pub open spec fn vaapi_driver_name(d: VaapiDriver) -> Seq<char> {
    match d {
        VaapiDriver::Ihd => "ihd"@,
        VaapiDriver::I965 => "i965"@,
        VaapiDriver::RadeonSI => "radeonsi"@,
    }
}

impl VaapiDriver {
    /// The name under which libva loads this driver.
    pub fn as_str(&self) -> (res: &'static str)
        ensures
            res@ == vaapi_driver_name(*self),
    {
        match self {
            VaapiDriver::Ihd => "ihd",
            VaapiDriver::I965 => "i965",
            VaapiDriver::RadeonSI => "radeonsi",
        }
    }

    /// The name under which libva loads this driver.
    pub fn to_text(&self) -> (res: String)
        ensures
            res@ == vaapi_driver_name(*self),
    {
        String::from_str(self.as_str())
    }
}

/// VAAPI acceleration on a render device.
#[derive(Clone, Debug)]
pub struct Vaapi {
    pub device: String,
    pub driver: VaapiDriver,
    pub capabilities: VaapiCapabilities,
}

/// The filter that VAAPI uses in place of `vf`.
pub open spec fn vaapi_best_filter(vf: VideoFilter, info: FfmpegInfo) -> VideoFilter {
    match vf {
        VideoFilter::Scale { size, input_is_anamorphic, force_original_aspect_ratio } => if lists_filter(
            info,
            KnownVideoFilter::ScaleVaapi,
        ) {
            VideoFilter::Hardware(
                HwVideoFilter::ScaleVaapi(ScaleVaapi { size, input_is_anamorphic, force_original_aspect_ratio }),
            )
        } else {
            vf
        },
        VideoFilter::Pad { size } => if lists_filter(info, KnownVideoFilter::PadVaapi) {
            VideoFilter::Hardware(HwVideoFilter::PadVaapi(PadVaapi { size }))
        } else {
            vf
        },
        _ => vf,
    }
}

/// VAAPI's encoder for a format.
pub open spec fn vaapi_codec(format: VideoFormat) -> Option<VideoCodecView> {
    match format {
        VideoFormat::H264 => Some(hardware_codec_view("h264_vaapi"@, seq![])),
        VideoFormat::Hevc => Some(hardware_codec_view("hevc_vaapi"@, seq![])),
        _ => None,
    }
}

/// Whether two VAAPI accelerators agree.
pub open spec fn same_vaapi(a: Vaapi, b: Vaapi) -> bool {
    &&& a.device@ == b.device@
    &&& a.driver == b.driver
    &&& a.capabilities.decode@ == b.capabilities.decode@
    &&& a.capabilities.encode@ == b.capabilities.encode@
    &&& a.capabilities.encode_low_power@ == b.capabilities.encode_low_power@
    &&& a.capabilities.vpp_formats@ == b.capabilities.vpp_formats@
}

impl Vaapi {
    /// A copy of this accelerator.
    pub fn duplicate(&self) -> (res: Vaapi)
        ensures
            same_vaapi(res, *self),
    {
        Vaapi {
            device: self.device.clone(),
            driver: self.driver,
            capabilities: VaapiCapabilities {
                decode: crate::capabilities::copy_decode_profiles(&self.capabilities.decode),
                encode: self.capabilities.encode.clone(),
                encode_low_power: self.capabilities.encode_low_power.clone(),
                vpp_formats: self.capabilities.vpp_formats.clone(),
            },
        }
    }

    /// The filter to use in place of `video_filter`.
    pub fn best_filter(&self, video_filter: &VideoFilter, ffmpeg_info: &FfmpegInfo, _current_state: &FrameState) -> (res: VideoFilter)
        ensures
            res == vaapi_best_filter(*video_filter, *ffmpeg_info),
    {
        match video_filter {
            VideoFilter::Scale { size, input_is_anamorphic, force_original_aspect_ratio } => {
                if ffmpeg_info.has_video_filter(&KnownVideoFilter::ScaleVaapi) {
                    VideoFilter::Hardware(
                        HwVideoFilter::ScaleVaapi(
                            ScaleVaapi {
                                size: *size,
                                input_is_anamorphic: *input_is_anamorphic,
                                force_original_aspect_ratio: *force_original_aspect_ratio,
                            },
                        ),
                    )
                } else {
                    video_filter.duplicate()
                }
            },
            VideoFilter::Pad { size } => {
                if ffmpeg_info.has_video_filter(&KnownVideoFilter::PadVaapi) {
                    VideoFilter::Hardware(HwVideoFilter::PadVaapi(PadVaapi { size: *size }))
                } else {
                    video_filter.duplicate()
                }
            },
            _ => video_filter.duplicate(),
        }
    }

    /// Whether the device decodes the codec and profile in the pixel format.
    pub fn can_decode(&self, codec: &str, profile: &str, pixel_format: &PixelFormat) -> (res: bool)
        ensures
            res == vaapi_decodes(self.capabilities.decode@, codec@, profile@, bit_depth_of(*pixel_format)),
    {
        self.capabilities.can_decode(codec, profile, pixel_format.bit_depth())
    }

    /// Whether the device encodes the format at the bit depth, in normal or
    /// in low-power mode.
    pub fn can_encode(&self, format: &VideoFormat, bit_depth: u8) -> (res: bool)
        ensures
            res == (self.capabilities.encode@.contains(FormatDepth { format: *format, bit_depth })
                || self.capabilities.encode_low_power@.contains(FormatDepth { format: *format, bit_depth })),
    {
        self.capabilities.can_encode(format, bit_depth) || self.capabilities.can_encode_low_power(format, bit_depth)
    }

    /// VAAPI's encoder for the format, if it has one.
    pub fn codec_for_format(&self, format: &VideoFormat) -> (res: Option<VideoCodec>)
        ensures
            opt_codec_view(res) == vaapi_codec(*format),
    {
        match format {
            VideoFormat::H264 => {
                let options: Vec<String> = Vec::new();
                assert(arg_texts(options@) =~= Seq::<Seq<char>>::empty());
                Some(VideoCodec::hardware("h264_vaapi", options))
            },
            VideoFormat::Hevc => {
                let options: Vec<String> = Vec::new();
                assert(arg_texts(options@) =~= Seq::<Seq<char>>::empty());
                Some(VideoCodec::hardware("hevc_vaapi", options))
            },
            _ => None,
        }
    }

    /// The arguments that select hardware decoding.
    pub fn decoder_arg(&self) -> (res: Vec<String>)
        ensures
            arg_texts(res@) == seq!["-hwaccel"@, "vaapi"@, "-hwaccel_output_format"@, "vaapi"@],
    {
        args4("-hwaccel", "vaapi", "-hwaccel_output_format", "vaapi")
    }

    /// The surface decoded frames are on.
    pub fn decoder_frame_surface(&self) -> (res: FrameSurface)
        ensures
            res == FrameSurface::Vaapi,
    {
        FrameSurface::Vaapi
    }

    /// The surface the encoder reads frames from.
    pub fn encoder_frame_surface(&self) -> (res: FrameSurface)
        ensures
            res == FrameSurface::Vaapi,
    {
        FrameSurface::Vaapi
    }

    /// The environment that selects the driver.
    pub fn envs(&self) -> (res: Vec<(String, String)>)
        ensures
            env_texts(res@) == seq![("LIBVA_DRIVER_NAME"@, vaapi_driver_name(self.driver))],
    {
        let mut v: Vec<(String, String)> = Vec::new();
        v.push((String::from_str("LIBVA_DRIVER_NAME"), self.driver.to_text()));
        assert(env_texts(v@) =~= seq![("LIBVA_DRIVER_NAME"@, vaapi_driver_name(self.driver))]);
        v
    }

    /// The filter that converts frames on the device to a pixel format.
    pub fn format_filter(&self, pixel_format: &PixelFormat) -> (res: Option<VideoFilter>)
        ensures
            res == Some(VideoFilter::Hardware(HwVideoFilter::FormatVaapi(FormatVaapi { format: *pixel_format }))),
    {
        Some(VideoFilter::Hardware(HwVideoFilter::FormatVaapi(FormatVaapi { format: *pixel_format })))
    }

    /// This accelerator, unchanged by the input.
    pub fn initialize(&self, _ffmpeg_info: &FfmpegInfo, _is_hdr: bool) -> (res: Vaapi)
        ensures
            same_vaapi(res, *self),
    {
        self.duplicate()
    }

    /// The arguments that set up the device.
    pub fn init_hw_device(&self) -> (res: Vec<String>)
        ensures
            arg_texts(res@) == seq!["-vaapi_device"@, self.device@],
    {
        let mut v: Vec<String> = Vec::new();
        crate::text::push_arg(&mut v, "-vaapi_device");
        crate::text::push_owned(&mut v, self.device.clone());
        assert(arg_texts(v@) =~= seq!["-vaapi_device"@, self.device@]);
        v
    }

    /// The acceleration method.
    pub fn known_accel(&self) -> (res: KnownHardwareAccel)
        ensures
            res == KnownHardwareAccel::Vaapi,
    {
        KnownHardwareAccel::Vaapi
    }

    /// Whether the video post-processor accepts the pixel format.
    pub fn supports_pixel_format(&self, pixel_format: &PixelFormat) -> (res: bool)
        ensures
            res == self.capabilities.vpp_formats@.contains(*pixel_format),
    {
        self.capabilities.vpp_supports_format(pixel_format)
    }
}

/// Scaling on the VAAPI device.
#[derive(Clone, Copy, Debug)]
pub struct ScaleVaapi {
    pub size: Option<FrameSize>,
    pub input_is_anamorphic: bool,
    pub force_original_aspect_ratio: Option<ForceOriginalAspectRatio>,
}

impl ScaleVaapi {
    /// The filter text.
    pub open spec fn text(self) -> Option<Seq<char>> {
        match self.size {
            Some(s) => Some(
                if self.input_is_anamorphic {
                    "scale_vaapi=iw*sar:ih,setsar=1,scale_vaapi="@ + dims_text(s.width, s.height) + opt_aspect_text(
                        self.force_original_aspect_ratio,
                    ) + ":force_divisible_by=2"@
                } else {
                    "scale_vaapi="@ + dims_text(s.width, s.height) + opt_aspect_text(self.force_original_aspect_ratio)
                        + ":force_divisible_by=2,setsar=1"@
                },
            ),
            None => None,
        }
    }

    /// The state after scaling.
    pub open spec fn applied(self, old: FrameState, new: FrameState) -> bool {
        match self.size {
            Some(s) => scaled_to_square(old, new, s, FrameSurface::Vaapi),
            None => new == old,
        }
    }

    /// Nothing replaces this filter once chosen.
    pub fn evaluate(&self, _state: &FrameState) -> (res: Option<VideoFilter>)
        ensures
            res is None,
    {
        None
    }

    /// Updates the state for the scaled output.
    pub fn apply_to(&self, state: &mut FrameState)
        ensures
            self.applied(*old(state), *final(state)),
    {
        if let Some(size) = &self.size {
            state.size = *size;
            state.surface = FrameSurface::Vaapi;
            state.is_anamorphic = false;
            state.sample_aspect_ratio = Some(String::from_str("1:1"));
            state.display_aspect_ratio = None;
        }
    }

    /// The surface the filter works on.
    pub fn required_surface(&self) -> (res: FrameSurface)
        ensures
            res == FrameSurface::Vaapi,
    {
        FrameSurface::Vaapi
    }

    /// The filter text.
    pub fn as_arg(&self) -> (res: Option<String>)
        ensures
            match res {
                Some(s) => self.text() == Some(s@),
                None => self.text() is None,
            },
    {
        if let Some(size) = &self.size {
            let aspect_ratio = opt_aspect_arg(&self.force_original_aspect_ratio);
            let d = dims(size.width, size.height);
            if self.input_is_anamorphic {
                let mut s = String::from_str("scale_vaapi=iw*sar:ih,setsar=1,scale_vaapi=");
                s.append(d.as_str());
                s.append(aspect_ratio.as_str());
                s.append(":force_divisible_by=2");
                Some(s)
            } else {
                let mut s = String::from_str("scale_vaapi=");
                s.append(d.as_str());
                s.append(aspect_ratio.as_str());
                s.append(":force_divisible_by=2,setsar=1");
                Some(s)
            }
        } else {
            None
        }
    }
}

/// Padding on the VAAPI device.
#[derive(Clone, Copy, Debug)]
pub struct PadVaapi {
    pub size: Option<FrameSize>,
}

impl PadVaapi {
    /// The filter text.
    pub open spec fn text(self) -> Option<Seq<char>> {
        match self.size {
            Some(s) => Some("pad_vaapi="@ + dims_text(s.width, s.height) + ":-1:-1:color=black"@),
            None => None,
        }
    }

    /// The state after padding.
    pub open spec fn applied(self, old: FrameState, new: FrameState) -> bool {
        match self.size {
            Some(s) => resized(old, new, s, FrameSurface::Vaapi),
            None => new == old,
        }
    }

    /// Nothing replaces this filter once chosen.
    pub fn evaluate(&self, _state: &FrameState) -> (res: Option<VideoFilter>)
        ensures
            res is None,
    {
        None
    }

    /// Updates the state for the padded output.
    pub fn apply_to(&self, state: &mut FrameState)
        ensures
            self.applied(*old(state), *final(state)),
    {
        if let Some(size) = &self.size {
            state.size = *size;
            state.surface = FrameSurface::Vaapi;
        }
    }

    /// The surface the filter works on.
    pub fn required_surface(&self) -> (res: FrameSurface)
        ensures
            res == FrameSurface::Vaapi,
    {
        FrameSurface::Vaapi
    }

    /// The filter text.
    pub fn as_arg(&self) -> (res: Option<String>)
        ensures
            match res {
                Some(s) => self.text() == Some(s@),
                None => self.text() is None,
            },
    {
        match &self.size {
            Some(size) => {
                let mut s = String::from_str("pad_vaapi=");
                let d = dims(size.width, size.height);
                s.append(d.as_str());
                s.append(":-1:-1:color=black");
                Some(s)
            },
            None => None,
        }
    }
}

/// Pixel format conversion on the VAAPI device.
#[derive(Clone, Copy, Debug)]
pub struct FormatVaapi {
    pub format: PixelFormat,
}

impl FormatVaapi {
    /// The filter text.
    pub open spec fn text(self) -> Option<Seq<char>> {
        Some("scale_vaapi=format="@ + pixel_format_name(self.format))
    }

    /// The state after conversion.
    pub open spec fn applied(self, old: FrameState, new: FrameState) -> bool {
        reformatted(old, new, self.format)
    }

    /// Nothing replaces this filter once chosen.
    pub fn evaluate(&self, _state: &FrameState) -> (res: Option<VideoFilter>)
        ensures
            res is None,
    {
        None
    }

    /// Updates the state for the converted output.
    pub fn apply_to(&self, state: &mut FrameState)
        ensures
            self.applied(*old(state), *final(state)),
    {
        state.pixel_format = self.format;
    }

    /// The surface the filter works on.
    pub fn required_surface(&self) -> (res: FrameSurface)
        ensures
            res == FrameSurface::Vaapi,
    {
        FrameSurface::Vaapi
    }

    /// The filter text.
    pub fn as_arg(&self) -> (res: Option<String>)
        ensures
            match res {
                Some(s) => self.text() == Some(s@),
                None => self.text() is None,
            },
    {
        let mut s = String::from_str("scale_vaapi=format=");
        s.append(self.format.as_arg());
        Some(s)
    }
}

} // verus!
