use ffpipeline::capabilities::{FormatDepth, NvidiaCapabilities, QsvCapabilities, VaapiCapabilities, VideoToolboxCapabilities};
use ffpipeline::config::{
    check_bit_depth, check_video_normalization, expand_output_folder, expand_playout_folder, non_empty_path,
    AudioFormat, AudioNormalizationConfig, ChannelConfig, ChannelError, FfmpegConfig, HardwareAccel,
    NormalizationConfig, PlayoutConfig, ProbedCapabilities, VaapiDriver, VideoFormat, VideoNormalizationConfig,
};
use ffpipeline::hw_accel;
use ffpipeline::pipeline;

fn video(format: Option<VideoFormat>, bit_depth: Option<u8>) -> VideoNormalizationConfig {
    VideoNormalizationConfig {
        format,
        bit_depth,
        width: Some(1920),
        height: Some(1080),
        bitrate_kbps: None,
        buffer_kbps: None,
        accel: None,
        vaapi_device: None,
        vaapi_driver: None,
        tonemap_algorithm: None,
        deinterlace: false,
    }
}

fn channel(folder: &str, video: VideoNormalizationConfig) -> ChannelConfig {
    ChannelConfig::new(
        PlayoutConfig { folder: String::from(folder), virtual_start: None },
        FfmpegConfig { ffmpeg_path: None, ffprobe_path: None, disabled_filters: vec![], preferred_filters: vec![] },
        NormalizationConfig {
            audio: AudioNormalizationConfig {
                format: Some(AudioFormat::Aac),
                bitrate_kbps: Some(192),
                buffer_kbps: None,
                channels: Some(2),
                sample_rate_hz: Some(48000),
                normalize_loudness: false,
                loudness: None,
            },
            video,
        },
    )
}

fn nvidia() -> NvidiaCapabilities {
    NvidiaCapabilities {
        decode: vec![],
        encode: vec![FormatDepth { format: pipeline::VideoFormat::H264, bit_depth: 8 }],
        b_frame_ref_mode: vec![],
    }
}

fn vaapi_caps() -> VaapiCapabilities {
    VaapiCapabilities { decode: vec![], encode: vec![], encode_low_power: vec![], vpp_formats: vec![] }
}

#[test]
fn bit_depth_must_be_8_or_10() {
    assert_eq!(check_bit_depth(Some(8)), Ok(Some(8)));
    assert_eq!(check_bit_depth(Some(10)), Ok(Some(10)));
    assert_eq!(check_bit_depth(None), Ok(None));
    assert_eq!(check_bit_depth(Some(12)), Err(String::from("bit_depth must be 8 or 10")));
}

#[test]
fn empty_paths_count_as_absent() {
    assert_eq!(non_empty_path(Some(String::new())), None);
    assert_eq!(non_empty_path(Some(String::from("/usr/bin/ffmpeg"))), Some(String::from("/usr/bin/ffmpeg")));
    assert_eq!(non_empty_path(None), None);
}

#[test]
fn video_normalization_needs_bit_depth() {
    assert_eq!(
        check_video_normalization(&video(Some(VideoFormat::H264), None)),
        Err(ChannelError::ChannelConfigFailure(String::from("bit_depth is required when normalizing video")))
    );
    assert_eq!(check_video_normalization(&video(Some(VideoFormat::Hevc), Some(10))), Ok(()));
    assert_eq!(check_video_normalization(&video(None, None)), Ok(()));
}

#[test]
fn folders_without_tilde_are_kept() {
    assert_eq!(expand_playout_folder("/srv/playout"), Ok(String::from("/srv/playout")));
    assert_eq!(expand_output_folder("relative/out"), Ok(String::from("relative/out")));
    assert_eq!(expand_output_folder("~channel"), Ok(String::from("~channel")));
}

#[test]
fn finalize_records_folders_and_number() {
    let mut c = channel("/srv/playout", video(Some(VideoFormat::H264), Some(8)));
    assert_eq!(c.expanded_playout_folder(), "");
    assert_eq!(c.number(), "");
    let playout = c.playout_folder_to_resolve().unwrap();
    assert_eq!(playout, "/srv/playout");
    let output = expand_output_folder("/srv/hls").unwrap();
    assert_eq!(c.finalize(playout, output, "42"), Ok(()));
    assert_eq!(c.expanded_playout_folder(), "/srv/playout");
    assert_eq!(c.expanded_output_folder(), "/srv/hls");
    assert_eq!(c.number(), "42");
}

#[test]
fn finalize_refuses_video_without_bit_depth() {
    let c = channel("/srv/playout", video(Some(VideoFormat::H264), None));
    assert_eq!(
        c.playout_folder_to_resolve(),
        Err(ChannelError::ChannelConfigFailure(String::from("bit_depth is required when normalizing video")))
    );
}

#[test]
fn channel_formats_convert_to_pipeline_formats() {
    assert_eq!(pipeline::AudioFormat::from(AudioFormat::Ac3), pipeline::AudioFormat::Ac3);
    assert_eq!(pipeline::VideoFormat::from(VideoFormat::Hevc), pipeline::VideoFormat::Hevc);
    assert_eq!(ffpipeline::accel::vaapi::VaapiDriver::from(VaapiDriver::RadeonSI), ffpipeline::accel::vaapi::VaapiDriver::RadeonSI);
}

#[test]
fn accel_from_probed_capabilities() {
    let c = channel("/srv/playout", video(None, None));
    match HardwareAccel::Cuda.to_pipeline(&c, false, ProbedCapabilities::Nvidia(nvidia())) {
        Some(hw_accel::HardwareAccel::Cuda(x)) => assert!(!x.is_vulkan_hdr),
        other => panic!("unexpected {:?}", other),
    }
    assert!(HardwareAccel::Cuda.to_pipeline(&c, false, ProbedCapabilities::Failed).is_none());
    let qsv = QsvCapabilities { decode: vec![], encode: vec![], vpp_formats: vec![] };
    assert!(matches!(
        HardwareAccel::Qsv.to_pipeline(&c, false, ProbedCapabilities::Qsv(qsv)),
        Some(hw_accel::HardwareAccel::Qsv(_))
    ));
    assert!(HardwareAccel::VideoToolbox.to_pipeline(&c, true, ProbedCapabilities::Failed).is_none());
    let vt = VideoToolboxCapabilities {
        decode: vec![FormatDepth { format: pipeline::VideoFormat::Hevc, bit_depth: 10 }],
        encode: vec![FormatDepth { format: pipeline::VideoFormat::H264, bit_depth: 8 }],
    };
    match HardwareAccel::VideoToolbox.to_pipeline(&c, false, ProbedCapabilities::VideoToolbox(vt)) {
        Some(hw_accel::HardwareAccel::VideoToolbox(x)) => assert_eq!(x.capabilities.encode.len(), 1),
        other => panic!("unexpected {:?}", other),
    }
    assert!(matches!(
        HardwareAccel::Vulkan.to_pipeline(&c, false, ProbedCapabilities::Failed),
        Some(hw_accel::HardwareAccel::Vulkan(_))
    ));
}

#[test]
fn vaapi_needs_device_and_driver() {
    let c = channel("/srv/playout", video(None, None));
    assert!(HardwareAccel::vaapi_target(&c.normalization.video).is_none());
    assert!(HardwareAccel::Vaapi.to_pipeline(&c, true, ProbedCapabilities::Vaapi(vaapi_caps())).is_none());
    let mut v = video(None, None);
    v.vaapi_device = Some(String::from("/dev/dri/renderD128"));
    v.vaapi_driver = Some(VaapiDriver::I965);
    let c = channel("/srv/playout", v);
    match HardwareAccel::Vaapi.to_pipeline(&c, true, ProbedCapabilities::Vaapi(vaapi_caps())) {
        Some(hw_accel::HardwareAccel::Vaapi(x)) => {
            assert_eq!(x.device, "/dev/dri/renderD128");
            assert_eq!(x.driver, ffpipeline::accel::vaapi::VaapiDriver::I965);
        },
        other => panic!("unexpected {:?}", other),
    }
    assert!(HardwareAccel::Vaapi.to_pipeline(&c, false, ProbedCapabilities::Vaapi(vaapi_caps())).is_none());
    assert!(HardwareAccel::Vaapi.to_pipeline(&c, true, ProbedCapabilities::Failed).is_none());
}

#[test]
fn tilde_folders_are_expanded_to_the_home_folder() {
    let expanded = expand_output_folder("~/hls").unwrap();
    assert_ne!(expanded, "~/hls");
    assert!(expanded.ends_with("/hls"));
    let playout = expand_playout_folder("~").unwrap();
    assert_ne!(playout, "~");
    assert!(!playout.is_empty());
}

#[test]
fn finalize_refuses_video_without_bit_depth_and_changes_nothing() {
    let mut c = channel("/srv/playout", video(Some(VideoFormat::Hevc), None));
    assert_eq!(
        c.finalize(String::from("/srv/playout"), String::from("/srv/hls"), "7"),
        Err(ChannelError::ChannelConfigFailure(String::from("bit_depth is required when normalizing video")))
    );
    assert_eq!(c.expanded_playout_folder(), "");
    assert_eq!(c.expanded_output_folder(), "");
    assert_eq!(c.number(), "");
}

#[test]
fn finalize_records_an_expanded_output_folder() {
    let mut c = channel("/srv/playout", video(None, None));
    let output = expand_output_folder("~/hls").unwrap();
    assert_eq!(c.finalize(String::from("/srv/playout"), output.clone(), "3"), Ok(()));
    assert_eq!(c.expanded_output_folder(), output);
    assert_ne!(c.expanded_output_folder(), "~/hls");
}
