use ffpipeline::accel::cuda::{self, Cuda, FormatCuda, HwUploadCudaWorkaround, PadCuda, ScaleCuda};
use ffpipeline::accel::opencl::TonemapOpencl;
use ffpipeline::accel::qsv::{Qsv, ScaleQsv};
use ffpipeline::accel::vaapi::{FormatVaapi, PadVaapi, ScaleVaapi, Vaapi, VaapiDriver};
use ffpipeline::accel::video_toolbox::VideoToolbox;
use ffpipeline::accel::vulkan::{self, FormatVulkan, ScaleVulkan, Vulkan};
use ffpipeline::capabilities::{
    FormatDepth, NvidiaCapabilities, QsvCapabilities, VaapiCapabilities, VaapiDecodeProfile, VideoToolboxCapabilities,
};
use ffpipeline::ffmpeg_info::FfmpegInfo;
use ffpipeline::frame_size::FrameSize;
use ffpipeline::global_option::GlobalOption;
use ffpipeline::hw_accel::HardwareAccel;
use ffpipeline::pipeline::{FrameState, FrameSurface, PixelFormat, VideoFormat};
use ffpipeline::video_filter::{ForceOriginalAspectRatio, HwVideoFilter, VideoFilter};

fn size(width: u32, height: u32) -> Option<FrameSize> {
    Some(FrameSize { width, height })
}

fn nvidia() -> NvidiaCapabilities {
    NvidiaCapabilities {
        decode: vec![
            FormatDepth { format: VideoFormat::H264, bit_depth: 8 },
            FormatDepth { format: VideoFormat::Hevc, bit_depth: 10 },
        ],
        encode: vec![FormatDepth { format: VideoFormat::H264, bit_depth: 8 }],
        b_frame_ref_mode: vec![VideoFormat::Hevc],
    }
}

fn vaapi() -> Vaapi {
    Vaapi {
        device: String::from("/dev/dri/renderD128"),
        driver: VaapiDriver::Ihd,
        capabilities: VaapiCapabilities {
            decode: vec![VaapiDecodeProfile { codec: String::from("h264"), profile: String::from("high"), bit_depth: 8 }],
            encode: vec![],
            encode_low_power: vec![FormatDepth { format: VideoFormat::Hevc, bit_depth: 10 }],
            vpp_formats: vec![PixelFormat::Nv12],
        },
    }
}

fn info(filters: &[&str], accels: &[&str]) -> FfmpegInfo {
    FfmpegInfo {
        hwaccels: accels.iter().map(|s| String::from(*s)).collect(),
        video_filters: filters.iter().map(|s| String::from(*s)).collect(),
        preferred_filters: vec![],
    }
}

fn state(pixel_format: PixelFormat) -> FrameState {
    FrameState {
        size: FrameSize { width: 1920, height: 1080 },
        is_anamorphic: false,
        sample_aspect_ratio: None,
        display_aspect_ratio: None,
        surface: FrameSurface::System,
        pixel_format,
        is_hdr: false,
    }
}

fn text(f: HwVideoFilter) -> Option<String> {
    f.as_arg()
}

#[test]
fn cuda_filter_texts() {
    let scale = ScaleCuda { size: size(1280, 720), input_is_anamorphic: false, force_original_aspect_ratio: None };
    assert_eq!(text(HwVideoFilter::ScaleCuda(scale)), Some(String::from("scale_cuda=1280:720,setsar=1")));
    let anamorphic = ScaleCuda {
        size: size(1280, 720),
        input_is_anamorphic: true,
        force_original_aspect_ratio: Some(ForceOriginalAspectRatio::Decrease),
    };
    assert_eq!(
        text(HwVideoFilter::ScaleCuda(anamorphic)),
        Some(String::from("scale_cuda=iw*sar:ih,setsar=1,scale_cuda=1280:720:force_original_aspect_ratio=decrease"))
    );
    let no_size = ScaleCuda { size: None, input_is_anamorphic: false, force_original_aspect_ratio: None };
    assert_eq!(text(HwVideoFilter::ScaleCuda(no_size)), None);
    assert_eq!(
        text(HwVideoFilter::PadCuda(PadCuda { size: size(1920, 1080) })),
        Some(String::from("pad_cuda=1920:1080:-1:-1:color=black,setsar=1"))
    );
    assert_eq!(text(HwVideoFilter::PadCuda(PadCuda { size: None })), None);
    assert_eq!(
        text(HwVideoFilter::FormatCuda(FormatCuda { format: PixelFormat::Nv12 })),
        Some(String::from("scale_cuda=format=nv12"))
    );
    assert_eq!(text(HwVideoFilter::HwUploadCudaWorkaround(HwUploadCudaWorkaround)), Some(String::from("hwupload")));
}

#[test]
fn cuda_libplacebo_texts() {
    let ten = cuda::Libplacebo { algorithm: None, format: PixelFormat::P010le };
    assert_eq!(
        text(HwVideoFilter::CudaLibplacebo(ten)),
        Some(String::from(
            "libplacebo=tonemapping=linear:colorspace=bt709:color_primaries=bt709:color_trc=bt709:format=p016,hwupload_cuda,scale_cuda=format=p010"
        ))
    );
    let eight = cuda::Libplacebo { algorithm: Some(String::from("bt2390")), format: PixelFormat::Nv12 };
    assert_eq!(
        text(HwVideoFilter::CudaLibplacebo(eight)),
        Some(String::from(
            "libplacebo=tonemapping=bt2390:colorspace=bt709:color_primaries=bt709:color_trc=bt709:format=nv12,hwupload_cuda"
        ))
    );
}

#[test]
fn opencl_tonemap_text() {
    let t = TonemapOpencl { algorithm: None, output_format: PixelFormat::Nv12 };
    assert_eq!(
        text(HwVideoFilter::TonemapOpencl(t)),
        Some(String::from("tonemap_opencl=tonemap=hable:desat=0:t=bt709:m=bt709:p=bt709=format=nv12"))
    );
}

#[test]
fn qsv_vaapi_vulkan_filter_texts() {
    assert_eq!(text(HwVideoFilter::ScaleQsv(ScaleQsv { size: size(1280, 720) })), Some(String::from("vpp_qsv=w=1280:h=720")));
    let scale = ScaleVaapi { size: size(1280, 720), input_is_anamorphic: false, force_original_aspect_ratio: None };
    assert_eq!(
        text(HwVideoFilter::ScaleVaapi(scale)),
        Some(String::from("scale_vaapi=1280:720:force_divisible_by=2,setsar=1"))
    );
    let anamorphic = ScaleVaapi { size: size(1280, 720), input_is_anamorphic: true, force_original_aspect_ratio: None };
    assert_eq!(
        text(HwVideoFilter::ScaleVaapi(anamorphic)),
        Some(String::from("scale_vaapi=iw*sar:ih,setsar=1,scale_vaapi=1280:720:force_divisible_by=2"))
    );
    assert_eq!(
        text(HwVideoFilter::PadVaapi(PadVaapi { size: size(1920, 1080) })),
        Some(String::from("pad_vaapi=1920:1080:-1:-1:color=black"))
    );
    assert_eq!(
        text(HwVideoFilter::FormatVaapi(FormatVaapi { format: PixelFormat::P010le })),
        Some(String::from("scale_vaapi=format=p010le"))
    );
    assert_eq!(
        text(HwVideoFilter::FormatVulkan(FormatVulkan { format: PixelFormat::Nv12 })),
        Some(String::from("scale_vulkan=format=nv12"))
    );
    assert_eq!(
        text(HwVideoFilter::ScaleVulkan(ScaleVulkan { size: size(640, 360), input_is_anamorphic: false })),
        Some(String::from("scale_vulkan=640:360,setsar=1"))
    );
    assert_eq!(
        text(HwVideoFilter::ScaleVulkan(ScaleVulkan { size: size(640, 360), input_is_anamorphic: true })),
        Some(String::from("scale_vulkan=iw*sar:ih,setsar=1,scale_vulkan=640:360"))
    );
    let placebo = vulkan::Libplacebo { algorithm: None, format: PixelFormat::P010le };
    assert_eq!(
        text(HwVideoFilter::VulkanLibplacebo(placebo)),
        Some(String::from("libplacebo=tonemapping=linear:colorspace=bt709:color_primaries=bt709:color_trc=bt709:format=p010le"))
    );
}

#[test]
fn scale_filters_update_frame_state() {
    let mut s = state(PixelFormat::Yuv420p);
    s.is_anamorphic = true;
    ScaleCuda { size: size(1280, 720), input_is_anamorphic: true, force_original_aspect_ratio: None }.apply_to(&mut s);
    assert_eq!(s.size, FrameSize { width: 1280, height: 720 });
    assert_eq!(s.surface, FrameSurface::Cuda);
    assert!(!s.is_anamorphic);
    assert_eq!(s.sample_aspect_ratio, Some(String::from("1:1")));
    assert_eq!(s.display_aspect_ratio, None);
    let mut t = state(PixelFormat::Yuv420p);
    ScaleCuda { size: None, input_is_anamorphic: false, force_original_aspect_ratio: None }.apply_to(&mut t);
    assert_eq!(t.size, FrameSize { width: 1920, height: 1080 });
    assert_eq!(t.surface, FrameSurface::System);
}

#[test]
fn cuda_best_filters() {
    let c = Cuda::new(nvidia());
    let with_scale = info(&["scale_cuda", "pad_cuda"], &["cuda"]);
    let scale = VideoFilter::Scale { size: size(1280, 720), input_is_anamorphic: false, force_original_aspect_ratio: None };
    assert!(matches!(
        c.best_filter(&scale, &with_scale, &state(PixelFormat::Nv12)),
        VideoFilter::Hardware(HwVideoFilter::ScaleCuda(_))
    ));
    assert!(matches!(c.best_filter(&scale, &info(&[], &["cuda"]), &state(PixelFormat::Nv12)), VideoFilter::Scale { .. }));
    let pad = VideoFilter::Pad { size: size(1920, 1080) };
    assert!(matches!(
        c.best_filter(&pad, &with_scale, &state(PixelFormat::Nv12)),
        VideoFilter::Hardware(HwVideoFilter::PadCuda(_))
    ));
    let tone = VideoFilter::ToneMap { algorithm: None, format: PixelFormat::Yuv420p10le };
    assert!(matches!(c.best_filter(&tone, &with_scale, &state(PixelFormat::Nv12)), VideoFilter::ToneMap { .. }));
}

#[test]
fn cuda_hdr_through_vulkan() {
    let hdr_info = info(&["libplacebo"], &["cuda", "vulkan"]);
    let c = Cuda::new(nvidia()).initialize(&hdr_info, true);
    assert!(c.is_vulkan_hdr);
    assert_eq!(c.decoder_arg(), vec!["-hwaccel", "vulkan", "-hwaccel_output_format", "vulkan"]);
    assert_eq!(c.init_hw_device(), vec!["-init_hw_device", "cuda=nv", "-init_hw_device", "vulkan=vk@nv"]);
    assert_eq!(c.decoder_frame_surface(), FrameSurface::Vulkan);
    assert!(c.decoder_filters().is_empty());
    let tone = VideoFilter::ToneMap { algorithm: None, format: PixelFormat::Yuv420p10le };
    match c.best_filter(&tone, &hdr_info, &state(PixelFormat::P010le)) {
        VideoFilter::Hardware(HwVideoFilter::CudaLibplacebo(p)) => assert_eq!(p.format, PixelFormat::P010le),
        other => panic!("unexpected {:?}", other),
    }
    let sdr = Cuda::new(nvidia()).initialize(&hdr_info, false);
    assert!(!sdr.is_vulkan_hdr);
    let no_placebo = Cuda::new(nvidia()).initialize(&info(&[], &["cuda", "vulkan"]), true);
    assert!(!no_placebo.is_vulkan_hdr);
}

#[test]
fn cuda_sdr_device() {
    let c = Cuda::new(nvidia());
    assert!(!c.is_vulkan_hdr);
    assert_eq!(c.decoder_arg(), vec!["-hwaccel", "cuda", "-hwaccel_output_format", "cuda"]);
    assert_eq!(c.init_hw_device(), vec!["-init_hw_device", "cuda"]);
    assert_eq!(c.decoder_frame_surface(), FrameSurface::Cuda);
    assert_eq!(c.encoder_frame_surface(), FrameSurface::Cuda);
    assert_eq!(c.decoder_filters().len(), 1);
}

#[test]
fn cuda_codecs_and_decoding() {
    let c = Cuda::new(nvidia());
    let h264 = c.codec_for_format(&VideoFormat::H264).unwrap();
    assert_eq!(h264.as_arg(), vec!["-vcodec", "h264_nvenc"]);
    assert!(h264.is_hardware);
    assert_eq!(h264.preferred_pixel_format_10bit, Some(PixelFormat::P010le));
    let hevc = c.codec_for_format(&VideoFormat::Hevc).unwrap();
    assert_eq!(hevc.as_arg(), vec!["-vcodec", "hevc_nvenc", "-tag:v", "hvc1", "-b_ref_mode", "1"]);
    let mut no_bref = nvidia();
    no_bref.b_frame_ref_mode = vec![];
    let hevc0 = Cuda::new(no_bref).codec_for_format(&VideoFormat::Hevc).unwrap();
    assert_eq!(hevc0.as_arg(), vec!["-vcodec", "hevc_nvenc", "-tag:v", "hvc1", "-b_ref_mode", "0"]);
    assert!(c.codec_for_format(&VideoFormat::Vp9).is_none());
    assert!(c.can_decode("h264", "high", &PixelFormat::Yuv420p));
    assert!(!c.can_decode("h264", "high10", &PixelFormat::Yuv420p10le));
    assert!(c.can_decode("hevc", "main10", &PixelFormat::P010le));
    assert!(!c.can_decode("prores", "", &PixelFormat::Yuv420p));
    assert!(c.can_encode(&VideoFormat::H264, 8));
    assert!(!c.can_encode(&VideoFormat::Hevc, 8));
}

#[test]
fn qsv_device() {
    let q = Qsv {
        capabilities: QsvCapabilities {
            decode: vec![FormatDepth { format: VideoFormat::Hevc, bit_depth: 10 }],
            encode: vec![FormatDepth { format: VideoFormat::H264, bit_depth: 8 }],
            vpp_formats: vec![PixelFormat::Nv12, PixelFormat::P010le],
        },
    };
    assert_eq!(
        q.codec_for_format(&VideoFormat::H264).unwrap().as_arg(),
        vec!["-vcodec", "h264_qsv", "-low_power", "0", "-look_ahead", "0"]
    );
    assert!(q.can_decode("hevc", "main10", &PixelFormat::Yuv420p10le));
    assert!(!q.can_decode("av1", "main", &PixelFormat::Yuv420p));
    assert!(q.supports_pixel_format(&PixelFormat::P010le));
    assert!(!q.supports_pixel_format(&PixelFormat::Yuv420p));
    assert_eq!(q.decoder_arg(), vec!["-hwaccel", "qsv", "-hwaccel_output_format", "qsv"]);
    assert_eq!(q.init_hw_device(), vec!["-init_hw_device", "qsv=hw", "-filter_hw_device", "hw"]);
    let scale = VideoFilter::Scale { size: size(1280, 720), input_is_anamorphic: true, force_original_aspect_ratio: None };
    assert!(matches!(
        q.best_filter(&scale, &info(&["vpp_qsv"], &["qsv"]), &state(PixelFormat::Nv12)),
        VideoFilter::Hardware(HwVideoFilter::ScaleQsv(_))
    ));
}

#[test]
fn vaapi_device() {
    let v = vaapi();
    assert!(v.can_decode("h264", "high", &PixelFormat::Yuv420p));
    assert!(!v.can_decode("h264", "main", &PixelFormat::Yuv420p));
    assert!(v.can_encode(&VideoFormat::Hevc, 10));
    assert!(!v.can_encode(&VideoFormat::H264, 8));
    assert_eq!(v.codec_for_format(&VideoFormat::Hevc).unwrap().as_arg(), vec!["-vcodec", "hevc_vaapi"]);
    assert_eq!(v.envs(), vec![(String::from("LIBVA_DRIVER_NAME"), String::from("ihd"))]);
    assert_eq!(v.init_hw_device(), vec!["-vaapi_device", "/dev/dri/renderD128"]);
    assert_eq!(v.decoder_arg(), vec!["-hwaccel", "vaapi", "-hwaccel_output_format", "vaapi"]);
    assert_eq!(VaapiDriver::RadeonSI.as_str(), "radeonsi");
    assert_eq!(VaapiDriver::I965.to_text(), "i965");
}

#[test]
fn vulkan_device() {
    let v = Vulkan;
    assert_eq!(v.codec_for_format(&VideoFormat::Hevc).unwrap().as_arg(), vec!["-vcodec", "hevc_vulkan", "-tag:v", "hvc1"]);
    assert_eq!(v.init_hw_device(), vec!["-init_hw_device", "vulkan"]);
    let scale = VideoFilter::Scale { size: size(1280, 720), input_is_anamorphic: false, force_original_aspect_ratio: None };
    let filters = info(&["scale_vulkan", "libplacebo"], &["vulkan"]);
    assert!(matches!(
        v.best_filter(&scale, &filters, &state(PixelFormat::Nv12)),
        VideoFilter::Hardware(HwVideoFilter::ScaleVulkan(_))
    ));
    assert!(matches!(v.best_filter(&scale, &filters, &state(PixelFormat::P010le)), VideoFilter::Scale { .. }));
    let tone = VideoFilter::ToneMap { algorithm: None, format: PixelFormat::Yuv420p };
    match v.best_filter(&tone, &filters, &state(PixelFormat::P010le)) {
        VideoFilter::Hardware(HwVideoFilter::VulkanLibplacebo(p)) => assert_eq!(p.format, PixelFormat::Nv12),
        other => panic!("unexpected {:?}", other),
    }
}

#[test]
fn accelerator_dispatch() {
    let a = HardwareAccel::Vaapi(vaapi());
    assert_eq!(a.envs(), vec![(String::from("LIBVA_DRIVER_NAME"), String::from("ihd"))]);
    assert!(HardwareAccel::Vulkan(Vulkan).envs().is_empty());
    assert_eq!(GlobalOption::InitHwDevice(HardwareAccel::Vulkan(Vulkan)).as_arg(), vec!["-init_hw_device", "vulkan"]);
    assert_eq!(
        GlobalOption::InitHwDevice(HardwareAccel::Vaapi(vaapi())).as_arg(),
        vec!["-vaapi_device", "/dev/dri/renderD128"]
    );
}

#[test]
fn video_toolbox_device() {
    let t = VideoToolbox::new(VideoToolboxCapabilities {
        decode: vec![FormatDepth { format: VideoFormat::H264, bit_depth: 8 }],
        encode: vec![FormatDepth { format: VideoFormat::Hevc, bit_depth: 10 }],
    });
    assert!(t.can_decode("h264", "high", &PixelFormat::Yuv420p));
    assert!(!t.can_decode("h264", "high10", &PixelFormat::Yuv420p10le));
    assert!(t.can_encode(&VideoFormat::Hevc, 10));
    assert!(!t.can_encode(&VideoFormat::H264, 8));
    assert_eq!(t.codec_for_format(&VideoFormat::Hevc).unwrap().as_arg(), vec!["-vcodec", "hevc_videotoolbox", "-tag:v", "hvc1"]);
    assert_eq!(t.codec_for_format(&VideoFormat::H264).unwrap().as_arg(), vec!["-vcodec", "h264_videotoolbox"]);
    assert!(t.codec_for_format(&VideoFormat::Vp9).is_none());
    assert_eq!(t.decoder_arg(), vec!["-hwaccel", "videotoolbox", "-hwaccel_output_format", "videotoolbox_vld"]);
    assert_eq!(t.init_hw_device(), vec!["-init_hw_device", "videotoolbox"]);
    let a = HardwareAccel::VideoToolbox(t);
    assert_eq!(a.decoder_frame_surface(), FrameSurface::VideoToolbox);
    assert!(a.envs().is_empty());
    assert!(a.format_filter(&PixelFormat::Nv12).is_none());
}
