use ffpipeline::accel::cuda::Cuda;
use ffpipeline::accel::vulkan::Vulkan;
use ffpipeline::audio_codec::AudioCodec;
use ffpipeline::capabilities::{FormatDepth, NvidiaCapabilities};
use ffpipeline::error::FFPipelineError;
use ffpipeline::ffmpeg_info::FfmpegInfo;
use ffpipeline::filter_chain::{FilterGraph, PipelineFilter};
use ffpipeline::frame_rate::FrameRate;
use ffpipeline::frame_size::FrameSize;
use ffpipeline::global_option::{GlobalOption, LogLevel};
use ffpipeline::hw_accel::HardwareAccel;
use ffpipeline::input::{AudioInputSettings, InputSettings, InputSource, VideoInputSettings};
use ffpipeline::output_format::OutputFormat;
use ffpipeline::output_option::OutputOption;
use ffpipeline::output_settings::{AudioOutputSettings, OutputSettings};
use ffpipeline::pipeline::{generate_pipeline, AudioFormat, FrameSurface, Hz, Kbps, Pipeline, PipelineInput, PixelFormat, VideoFormat};
use ffpipeline::probe::{ProbeResult, ProbeResultAudioStream, ProbeResultColorParams, ProbeResultStream, ProbeResultVideoStream};
use ffpipeline::timespan::TimeSpan;
use ffpipeline::video_decoder::VideoDecoder;
use ffpipeline::video_filter::VideoFilter;

const SECOND: u128 = 1_000_000_000;

fn video_stream(index: u32, transfer: Option<&str>) -> ProbeResultStream {
    ProbeResultStream::Video(Box::new(ProbeResultVideoStream {
        stream_index: index,
        codec: String::from("h264"),
        profile: String::from("high"),
        height: 1080,
        width: 1920,
        frame_rate: FrameRate { r_frame_rate: String::from("24000/1001"), rounded_frame_rate: 24 },
        sample_aspect_ratio: Some(String::from("1:1")),
        display_aspect_ratio: Some(String::from("16:9")),
        pix_fmt: String::from("yuv420p"),
        color_params: ProbeResultColorParams {
            color_range: None,
            color_space: None,
            color_transfer: transfer.map(String::from),
            color_primaries: None,
        },
    }))
}

fn audio_stream(index: u32, channels: u32) -> ProbeResultStream {
    ProbeResultStream::Audio(ProbeResultAudioStream { stream_index: index, codec: String::from("aac"), channels })
}

fn inputs(video_streams: Vec<ProbeResultStream>, audio_streams: Vec<ProbeResultStream>, audio_path: &str) -> InputSettings {
    InputSettings {
        audio_input: AudioInputSettings {
            input_source: InputSource { input_args: vec![] },
            probe_result: ProbeResult { path: String::from(audio_path), streams: audio_streams, duration: Some(TimeSpan { nanos: 60 * SECOND }) },
            in_point: TimeSpan { nanos: 0 },
            out_point: TimeSpan { nanos: 30 * SECOND },
            audio_index: None,
        },
        video_input: VideoInputSettings {
            input_source: InputSource { input_args: vec![] },
            probe_result: ProbeResult { path: String::from("/media/movie.mkv"), streams: video_streams, duration: Some(TimeSpan { nanos: 60 * SECOND }) },
            in_point: TimeSpan { nanos: 0 },
            out_point: TimeSpan { nanos: 20 * SECOND },
            video_index: None,
        },
    }
}

fn outputs(accel: Option<HardwareAccel>, video_format: Option<VideoFormat>, audio_format: Option<AudioFormat>) -> OutputSettings {
    OutputSettings {
        accel,
        audio: AudioOutputSettings {
            format: audio_format,
            bitrate: Some(Kbps(192)),
            buffer: Some(Kbps(384)),
            channels: Some(2),
            sample_rate: Some(Hz(48000)),
            loudness: None,
        },
        video_format,
        bit_depth: Some(8),
        video_size: Some(FrameSize { width: 1280, height: 720 }),
        video_bitrate: Some(Kbps(3000)),
        video_buffer: Some(Kbps(6000)),
        frame_rate: None,
        tonemap_algorithm: None,
        pts_offset: None,
        realtime: false,
        format: OutputFormat::Hls { playlist: String::from("/out/live.m3u8"), segment_template: String::from("/out/live%06d.ts") },
    }
}

fn graph() -> FilterGraph {
    FilterGraph {
        args: vec![String::from("-filter_complex"), String::from("[0:0]scale=1280:720[v];[0:1]anull[a]")],
        video_label: String::from("[v]"),
        audio_label: String::from("[a]"),
    }
}

fn nvidia() -> NvidiaCapabilities {
    NvidiaCapabilities {
        decode: vec![FormatDepth { format: VideoFormat::H264, bit_depth: 8 }],
        encode: vec![FormatDepth { format: VideoFormat::H264, bit_depth: 8 }],
        b_frame_ref_mode: vec![],
    }
}

fn cuda_info() -> FfmpegInfo {
    FfmpegInfo { hwaccels: vec![String::from("cuda")], video_filters: vec![], preferred_filters: vec![] }
}

#[test]
fn missing_video_stream_is_refused() {
    let r = generate_pipeline(
        &FfmpegInfo::empty(),
        inputs(vec![audio_stream(1, 2)], vec![audio_stream(1, 2)], "/media/movie.mkv"),
        outputs(None, Some(VideoFormat::H264), Some(AudioFormat::Aac)),
    );
    assert!(matches!(r, Err(FFPipelineError::VideoInputIsRequired)));
}

#[test]
fn missing_audio_stream_is_refused() {
    let r = generate_pipeline(
        &FfmpegInfo::empty(),
        inputs(vec![video_stream(0, None)], vec![video_stream(0, None)], "/media/movie.mkv"),
        outputs(None, Some(VideoFormat::H264), Some(AudioFormat::Aac)),
    );
    assert!(matches!(r, Err(FFPipelineError::AudioInputIsRequired)));
}

#[test]
fn software_pipeline_is_built_from_the_settings() {
    let all = vec![video_stream(0, None), audio_stream(1, 2), audio_stream(2, 6)];
    let p = generate_pipeline(
        &FfmpegInfo::empty(),
        inputs(all.clone(), all, "/media/movie.mkv"),
        outputs(None, Some(VideoFormat::H264), Some(AudioFormat::Aac)),
    )
    .unwrap();
    assert!(p.accel.is_none());
    assert_eq!(p.output.path, "/out/live.m3u8");
    assert_eq!(p.output_context.audio_codec, AudioCodec::Aac);
    assert_eq!(p.output_context.video_codec.codec_name, "libx264");
    assert_eq!(p.output_context.preferred_surface, FrameSurface::System);
    assert_eq!(p.output_context.preferred_pixel_format, Some(PixelFormat::Yuv420p));
    assert_eq!(p.initial_state.size, FrameSize { width: 1920, height: 1080 });
    assert!(!p.initial_state.is_anamorphic);
    assert_eq!(p.global_options.len(), 5);
    assert!(matches!(p.global_options[0], GlobalOption::Threads(0)));
    assert!(matches!(p.global_options[3], GlobalOption::LogLevel(LogLevel::Error)));
    assert_eq!(p.output_options.len(), 16);
    assert!(matches!(p.output_options[13], OutputOption::Duration(TimeSpan { nanos }) if nanos == 20 * SECOND));
    match &p.inputs[0] {
        PipelineInput::Audio { index, channels, .. } => {
            assert_eq!(*index, 2);
            assert_eq!(*channels, 6);
        },
        _ => panic!("first input is not audio"),
    }
    match &p.inputs[1] {
        PipelineInput::Video { index, decoder, .. } => {
            assert_eq!(*index, 0);
            assert!(matches!(decoder, VideoDecoder::Software));
        },
        _ => panic!("second input is not video"),
    }
    assert_eq!(p.filter_chain.filters.len(), 7);
    match &p.filter_chain.filters[5] {
        PipelineFilter::Video(VideoFilter::Scale { size, .. }) => assert_eq!(*size, Some(FrameSize { width: 1280, height: 720 })),
        _ => panic!("sixth filter is not the scaler"),
    }
}

#[test]
fn optimized_software_pipeline_arguments() {
    let all = vec![video_stream(0, None), audio_stream(1, 2)];
    let mut p = generate_pipeline(
        &FfmpegInfo::empty(),
        inputs(all.clone(), all, "/media/movie.mkv"),
        outputs(None, Some(VideoFormat::H264), Some(AudioFormat::Aac)),
    )
    .unwrap();
    p.optimize();
    assert_eq!(p.output_options.len(), 15);
    assert!(p.envs().is_empty());
    let (audio_label, video_label) = p.input_labels();
    assert_eq!(audio_label, "0:1");
    assert_eq!(video_label, "0:0");
    let expected = vec![
        "-threads", "0", "-nostdin", "-hide_banner", "-loglevel", "error", "-fflags", "+genpts+discardcorrupt+igndts",
        "-i", "/media/movie.mkv",
        "-filter_complex", "[0:0]scale=1280:720[v];[0:1]anull[a]",
        "-map", "[v]", "-map", "[a]",
        "-muxdelay", "0", "-muxpreload", "0",
        "-movflags", "+faststart",
        "-noautoscale",
        "-acodec", "aac",
        "-b:a", "192k", "-maxrate:a", "192k",
        "-bufsize:a", "384k",
        "-ar", "48000",
        "-vcodec", "libx264",
        "-b:v", "3000k", "-maxrate:v", "3000k",
        "-bufsize:v", "6000k",
        "-map_metadata", "-1",
        "-g", "48", "-keyint_min", "48", "-force_key_frames", "expr:gte(t,n_forced*2)",
        "-f", "hls", "-hls_time", "4", "-hls_list_size", "0", "-segment_list_flags", "+live",
        "-hls_segment_filename", "/out/live%06d.ts", "-hls_segment_type", "mpegts",
        "-hls_flags", "program_date_time+omit_endlist+append_list+independent_segments",
        "-hls_segment_options", "mpegts_flags=+initial_discontinuity",
        "-t", "20000ms",
        "/out/live.m3u8",
    ];
    assert_eq!(p.args(&graph()), expected);
}

#[test]
fn separate_audio_file_gets_its_own_input() {
    let v = vec![video_stream(0, None)];
    let a = vec![audio_stream(0, 2)];
    let mut settings = inputs(v, a, "/media/music.flac");
    settings.video_input.in_point = TimeSpan { nanos: 1_500 * 1_000_000 };
    let mut out = outputs(None, Some(VideoFormat::H264), Some(AudioFormat::Aac));
    out.realtime = true;
    let p = generate_pipeline(&FfmpegInfo::empty(), settings, out).unwrap();
    let (audio_label, video_label) = p.input_labels();
    assert_eq!(audio_label, "0:0");
    assert_eq!(video_label, "1:0");
    let args = p.args(&graph());
    let start = args.iter().position(|a| a == "-i").unwrap();
    assert_eq!(
        args[start..start + 8].to_vec(),
        vec!["-i", "/media/music.flac", "-ss", "1500ms", "-readrate", "1.0", "-i", "/media/movie.mkv"]
    );
}

#[test]
fn copied_streams_drop_tuning_options() {
    let all = vec![video_stream(0, None), audio_stream(1, 6)];
    let mut p = generate_pipeline(&FfmpegInfo::empty(), inputs(all.clone(), all, "/media/movie.mkv"), outputs(None, None, None)).unwrap();
    assert_eq!(p.output_context.audio_codec, AudioCodec::Copy);
    assert!(p.output_context.video_codec.is_copy());
    p.optimize();
    assert!(!p.filter_chain.audio_enabled);
    assert!(!p.filter_chain.video_enabled);
    for o in &p.output_options {
        assert!(!matches!(
            o,
            OutputOption::AudioBitrate(_)
                | OutputOption::AudioBuffer(_)
                | OutputOption::AudioChannels(_)
                | OutputOption::AudioSampleRate(_)
                | OutputOption::VideoBitrate(_)
                | OutputOption::VideoBuffer(_)
        ));
    }
    assert_eq!(p.output_options.len(), 10);
}

#[test]
fn unsupported_accel_is_dropped() {
    let all = vec![video_stream(0, None), audio_stream(1, 2)];
    let p = generate_pipeline(
        &FfmpegInfo::empty(),
        inputs(all.clone(), all, "/media/movie.mkv"),
        outputs(Some(HardwareAccel::Cuda(Cuda::new(nvidia()))), Some(VideoFormat::H264), Some(AudioFormat::Aac)),
    )
    .unwrap();
    assert!(p.accel.is_none());
    assert_eq!(p.output_context.video_codec.codec_name, "libx264");
}

#[test]
fn cuda_pipeline_encodes_and_decodes_on_the_device() {
    let all = vec![video_stream(0, None), audio_stream(1, 2)];
    let mut p = generate_pipeline(
        &cuda_info(),
        inputs(all.clone(), all, "/media/movie.mkv"),
        outputs(Some(HardwareAccel::Cuda(Cuda::new(nvidia()))), Some(VideoFormat::H264), Some(AudioFormat::Aac)),
    )
    .unwrap();
    assert!(matches!(p.accel, Some(HardwareAccel::Cuda(_))));
    assert!(matches!(p.global_options[0], GlobalOption::Threads(1)));
    assert_eq!(p.output_context.video_codec.codec_name, "h264_nvenc");
    assert_eq!(p.output_context.preferred_surface, FrameSurface::Cuda);
    assert_eq!(p.output_context.preferred_pixel_format, Some(PixelFormat::Nv12));
    assert_eq!(p.initial_state.surface, FrameSurface::Cuda);
    assert_eq!(p.filter_chain.filters.len(), 8);
    assert!(p.needs_hw_device().is_some());
    p.optimize();
    assert_eq!(p.global_options.len(), 6);
    assert!(matches!(p.global_options[5], GlobalOption::InitHwDevice(HardwareAccel::Cuda(_))));
    let args = p.args(&graph());
    assert_eq!(
        args[..14].to_vec(),
        vec![
            "-threads", "1", "-nostdin", "-hide_banner", "-loglevel", "error", "-fflags", "+genpts+discardcorrupt+igndts",
            "-init_hw_device", "cuda", "-hwaccel", "cuda", "-hwaccel_output_format", "cuda",
        ]
    );
}

#[test]
fn cuda_without_a_10_bit_encoder_falls_back_to_software() {
    let all = vec![video_stream(0, None), audio_stream(1, 2)];
    let mut out = outputs(Some(HardwareAccel::Cuda(Cuda::new(nvidia()))), Some(VideoFormat::Hevc), Some(AudioFormat::Aac));
    out.bit_depth = Some(10);
    let p = generate_pipeline(&cuda_info(), inputs(all.clone(), all, "/media/movie.mkv"), out).unwrap();
    assert_eq!(p.output_context.video_codec.codec_name, "libx265");
    assert_eq!(p.output_context.preferred_pixel_format, Some(PixelFormat::Yuv420p10le));
    assert_eq!(p.output_context.preferred_surface, FrameSurface::System);
}

#[test]
fn hdr_input_is_detected() {
    let all = vec![video_stream(0, Some("smpte2084")), audio_stream(1, 2)];
    let info = FfmpegInfo { hwaccels: vec![String::from("vulkan")], video_filters: vec![], preferred_filters: vec![] };
    let p = generate_pipeline(
        &info,
        inputs(all.clone(), all, "/media/movie.mkv"),
        outputs(Some(HardwareAccel::Vulkan(Vulkan)), Some(VideoFormat::Hevc), Some(AudioFormat::Ac3)),
    )
    .unwrap();
    assert!(p.initial_state.is_hdr);
    assert_eq!(p.output_context.audio_codec, AudioCodec::Ac3);
    assert_eq!(p.output_context.video_codec.codec_name, "hevc_vulkan");
    assert_eq!(p.output_context.preferred_surface, FrameSurface::Vulkan);
}

#[test]
fn requested_streams_are_used() {
    let all = vec![video_stream(0, None), video_stream(4, None), audio_stream(1, 6), audio_stream(2, 2)];
    let mut settings = inputs(all.clone(), all, "/media/movie.mkv");
    settings.video_input.video_index = Some(4);
    settings.audio_input.audio_index = Some(2);
    let p = generate_pipeline(&FfmpegInfo::empty(), settings, outputs(None, Some(VideoFormat::H264), None)).unwrap();
    assert!(matches!(&p.inputs[0], PipelineInput::Audio { index: 2, channels: 2, .. }));
    assert!(matches!(&p.inputs[1], PipelineInput::Video { index: 4, .. }));
}

#[test]
fn still_image_is_not_decoded() {
    let v = vec![video_stream(0, None)];
    let mut settings = inputs(v, vec![audio_stream(0, 2)], "/media/music.flac");
    settings.video_input.probe_result.duration = None;
    let p = generate_pipeline(&FfmpegInfo::empty(), settings, outputs(None, Some(VideoFormat::H264), Some(AudioFormat::Aac))).unwrap();
    assert!(matches!(&p.inputs[1], PipelineInput::Video { decoder: VideoDecoder::NoDecode, .. }));
}

#[test]
fn full_and_generate_agree() {
    let all = vec![video_stream(0, None), audio_stream(1, 2)];
    let a = Pipeline::full(&FfmpegInfo::empty(), inputs(all.clone(), all.clone(), "/m.mkv"), outputs(None, Some(VideoFormat::H264), None)).unwrap();
    let b = generate_pipeline(&FfmpegInfo::empty(), inputs(all.clone(), all, "/m.mkv"), outputs(None, Some(VideoFormat::H264), None)).unwrap();
    assert_eq!(a.args(&graph()), b.args(&graph()));
}

#[test]
fn optimizing_again_removes_nothing_more() {
    let all = vec![video_stream(0, None), audio_stream(1, 2)];
    let mut p = generate_pipeline(&FfmpegInfo::empty(), inputs(all.clone(), all, "/m.mkv"), outputs(None, None, None)).unwrap();
    p.optimize();
    let once = p.args(&graph());
    p.optimize();
    assert_eq!(p.args(&graph()), once);
}

#[test]
fn arguments_are_the_same_on_every_call() {
    let all = vec![video_stream(0, None), audio_stream(1, 2)];
    let p = generate_pipeline(&FfmpegInfo::empty(), inputs(all.clone(), all, "/m.mkv"), outputs(None, Some(VideoFormat::H264), None)).unwrap();
    assert_eq!(p.args(&graph()), p.args(&graph()));
    assert_eq!(p.envs(), p.envs());
}

#[test]
fn full_and_generate_fail_alike() {
    let v = vec![video_stream(0, None)];
    let a = Pipeline::full(&FfmpegInfo::empty(), inputs(v.clone(), v.clone(), "/m.mkv"), outputs(None, None, None));
    let b = generate_pipeline(&FfmpegInfo::empty(), inputs(v.clone(), v, "/m.mkv"), outputs(None, None, None));
    assert!(matches!((a, b), (Err(FFPipelineError::AudioInputIsRequired), Err(FFPipelineError::AudioInputIsRequired))));
}
