use ffpipeline::audio_codec::AudioCodec;
use ffpipeline::audio_decoder::AudioDecoder;
use ffpipeline::frame_rate::FrameRate;
use ffpipeline::global_option::{GlobalOption, LogLevel};
use ffpipeline::output_format::OutputFormat;
use ffpipeline::output_option::OutputOption;
use ffpipeline::pipeline::{FrameSurface, Hz, Kbps, OutputContext, PixelFormat, PtsOffset};
use ffpipeline::timespan::TimeSpan;
use ffpipeline::video_codec::VideoCodec;

fn context(video_codec: VideoCodec, pts_offset: Option<PtsOffset>) -> OutputContext {
    OutputContext {
        media_frame_rate: FrameRate { r_frame_rate: String::from("30000/1001"), rounded_frame_rate: 30 },
        audio_codec: AudioCodec::Aac,
        audio_channels: Some(2),
        video_codec,
        pts_offset,
        preferred_surface: FrameSurface::System,
        preferred_pixel_format: None,
    }
}

fn hls() -> OutputFormat {
    OutputFormat::Hls { playlist: String::from("/tmp/live.m3u8"), segment_template: String::from("/tmp/live%06d.ts") }
}

#[test]
fn audio_codec_args() {
    assert_eq!(AudioCodec::Copy.as_arg(), vec!["-acodec", "copy"]);
    assert_eq!(AudioCodec::Aac.as_arg(), vec!["-acodec", "aac"]);
    assert_eq!(AudioCodec::Ac3.as_arg(), vec!["-acodec", "ac3"]);
}

#[test]
fn audio_decoder_downmixes_surround_ac3_to_stereo() {
    let d = AudioDecoder { input_codec: String::from("ac3"), input_channels: 6, output_channels: Some(2) };
    assert_eq!(d.as_arg(), vec!["-acodec", "ac3", "-downmix", "stereo"]);
}

#[test]
fn audio_decoder_without_downmix() {
    let stereo = AudioDecoder { input_codec: String::from("ac3"), input_channels: 2, output_channels: Some(2) };
    assert!(stereo.as_arg().is_empty());
    let aac = AudioDecoder { input_codec: String::from("aac"), input_channels: 6, output_channels: Some(2) };
    assert!(aac.as_arg().is_empty());
    let keep = AudioDecoder { input_codec: String::from("ac3"), input_channels: 6, output_channels: None };
    assert!(keep.as_arg().is_empty());
}

#[test]
fn video_codec_args() {
    assert_eq!(VideoCodec::copy().as_arg(), vec!["-vcodec", "copy"]);
    assert_eq!(VideoCodec::libx264().as_arg(), vec!["-vcodec", "libx264"]);
    assert_eq!(
        VideoCodec::libx265().as_arg(),
        vec!["-vcodec", "libx265", "-tag:v", "hvc1", "-x265-params", "log-level=error"]
    );
    assert!(VideoCodec::copy().is_copy());
    assert!(!VideoCodec::libx264().is_copy());
}

#[test]
fn video_codec_preferred_formats() {
    let x264 = VideoCodec::libx264();
    assert_eq!(x264.preferred_pixel_format_8bit, Some(PixelFormat::Yuv420p));
    assert_eq!(x264.preferred_pixel_format_10bit, Some(PixelFormat::Yuv420p10le));
    assert!(!x264.is_hardware);
    let copy = VideoCodec::copy();
    assert_eq!(copy.preferred_pixel_format_8bit, None);
    assert_eq!(copy.preferred_pixel_format_10bit, None);
}

#[test]
fn pixel_format_names_and_depths() {
    assert_eq!(PixelFormat::parse("yuv420p"), PixelFormat::Yuv420p);
    assert_eq!(PixelFormat::parse("yuv420p10le"), PixelFormat::Yuv420p10le);
    assert_eq!(PixelFormat::parse("nv12"), PixelFormat::Nv12);
    assert_eq!(PixelFormat::parse("p010le"), PixelFormat::P010le);
    assert_eq!(PixelFormat::parse("rgb24"), PixelFormat::Yuv420p);
    assert_eq!(PixelFormat::P016.as_arg(), "p016");
    assert_eq!(PixelFormat::Nv12.as_arg(), "nv12");
    assert_eq!(PixelFormat::Yuv420p.bit_depth(), 8);
    assert_eq!(PixelFormat::P010le.bit_depth(), 10);
    assert_eq!(PixelFormat::P016.bit_depth(), 16);
}

#[test]
fn pixel_format_name_round_trip() {
    for p in [PixelFormat::Yuv420p, PixelFormat::Yuv420p10le, PixelFormat::Nv12, PixelFormat::P010le] {
        assert_eq!(PixelFormat::parse(p.as_arg()), p);
    }
}

#[test]
fn global_option_args() {
    assert_eq!(GlobalOption::Threads(1).as_arg(), vec!["-threads", "1"]);
    assert_eq!(GlobalOption::Threads(0).as_arg(), vec!["-threads", "0"]);
    assert_eq!(GlobalOption::NoStdIn.as_arg(), vec!["-nostdin"]);
    assert_eq!(GlobalOption::HideBanner.as_arg(), vec!["-hide_banner"]);
    assert_eq!(GlobalOption::LogLevel(LogLevel::Error).as_arg(), vec!["-loglevel", "error"]);
    assert_eq!(GlobalOption::StandardFormatFlags.as_arg(), vec!["-fflags", "+genpts+discardcorrupt+igndts"]);
}

#[test]
fn output_format_for_encoded_video() {
    let ctx = context(VideoCodec::libx264(), None);
    let expected = vec![
        "-g",
        "60",
        "-keyint_min",
        "60",
        "-force_key_frames",
        "expr:gte(t,n_forced*2)",
        "-f",
        "hls",
        "-hls_time",
        "4",
        "-hls_list_size",
        "0",
        "-segment_list_flags",
        "+live",
        "-hls_segment_filename",
        "/tmp/live%06d.ts",
        "-hls_segment_type",
        "mpegts",
        "-hls_flags",
        "program_date_time+omit_endlist+append_list+independent_segments",
        "-hls_segment_options",
        "mpegts_flags=+initial_discontinuity",
    ];
    assert_eq!(hls().as_arg(&ctx), expected);
    assert_eq!(hls().path(), "/tmp/live.m3u8");
}

#[test]
fn output_format_for_copied_video_with_offset() {
    let ctx = context(VideoCodec::copy(), Some(PtsOffset { duration: TimeSpan { nanos: 1_000_000 } }));
    let expected = vec![
        "-f",
        "hls",
        "-hls_time",
        "4",
        "-hls_list_size",
        "0",
        "-segment_list_flags",
        "+live",
        "-hls_segment_filename",
        "/tmp/live%06d.ts",
        "-hls_segment_type",
        "mpegts",
        "-hls_flags",
        "program_date_time+omit_endlist+append_list+independent_segments",
    ];
    assert_eq!(hls().as_arg(&ctx), expected);
}

#[test]
fn output_format_zero_offset_keeps_discontinuity() {
    let ctx = context(VideoCodec::copy(), Some(PtsOffset { duration: TimeSpan { nanos: 0 } }));
    let args = hls().as_arg(&ctx);
    assert_eq!(args[args.len() - 2..].to_vec(), vec!["-hls_segment_options", "mpegts_flags=+initial_discontinuity"]);
}

#[test]
fn output_option_args() {
    let ctx = context(VideoCodec::libx264(), None);
    assert_eq!(OutputOption::VideoBitrate(Some(Kbps(3000))).as_arg(&ctx), vec!["-b:v", "3000k", "-maxrate:v", "3000k"]);
    assert!(OutputOption::VideoBitrate(None).as_arg(&ctx).is_empty());
    assert_eq!(OutputOption::VideoBuffer(Some(Kbps(6000))).as_arg(&ctx), vec!["-bufsize:v", "6000k"]);
    assert!(OutputOption::VideoBuffer(None).as_arg(&ctx).is_empty());
    assert_eq!(OutputOption::AudioBitrate(Some(Kbps(192))).as_arg(&ctx), vec!["-b:a", "192k", "-maxrate:a", "192k"]);
    assert_eq!(OutputOption::AudioBuffer(Some(Kbps(384))).as_arg(&ctx), vec!["-bufsize:a", "384k"]);
    assert_eq!(OutputOption::AudioChannels(Some(2)).as_arg(&ctx), vec!["-ac", "2"]);
    assert!(OutputOption::AudioChannels(None).as_arg(&ctx).is_empty());
    assert_eq!(OutputOption::AudioSampleRate(Some(Hz(48000))).as_arg(&ctx), vec!["-ar", "48000"]);
    assert!(OutputOption::AudioSampleRate(None).as_arg(&ctx).is_empty());
    assert_eq!(OutputOption::AudioCodec(AudioCodec::Aac).as_arg(&ctx), vec!["-acodec", "aac"]);
    assert_eq!(OutputOption::VideoCodec(VideoCodec::libx264()).as_arg(&ctx), vec!["-vcodec", "libx264"]);
    assert_eq!(OutputOption::Duration(TimeSpan { nanos: 1_500_999_999 }).as_arg(&ctx), vec!["-t", "1500ms"]);
    assert_eq!(
        OutputOption::TsOffset(Some(PtsOffset { duration: TimeSpan { nanos: 2_000_000_000 } })).as_arg(&ctx),
        vec!["-output_ts_offset", "2000ms"]
    );
    assert!(OutputOption::TsOffset(Some(PtsOffset { duration: TimeSpan { nanos: 0 } })).as_arg(&ctx).is_empty());
    assert!(OutputOption::TsOffset(None).as_arg(&ctx).is_empty());
    assert_eq!(OutputOption::CudaNoAutoScale.as_arg(&ctx), vec!["-noautoscale"]);
    assert_eq!(OutputOption::NoDemuxDecodeDelay.as_arg(&ctx), vec!["-muxdelay", "0", "-muxpreload", "0"]);
    assert_eq!(OutputOption::MovFlagsFastStart.as_arg(&ctx), vec!["-movflags", "+faststart"]);
    assert_eq!(OutputOption::DoNotMapMetadata.as_arg(&ctx), vec!["-map_metadata", "-1"]);
    let rate = FrameRate { r_frame_rate: String::from("25/1"), rounded_frame_rate: 25 };
    assert_eq!(OutputOption::FrameRate(Some(rate)).as_arg(&ctx), vec!["-r", "25/1", "-vsync", "cfr"]);
    assert!(OutputOption::FrameRate(None).as_arg(&ctx).is_empty());
}

#[test]
fn output_option_format_delegates_to_container() {
    let ctx = context(VideoCodec::copy(), None);
    assert_eq!(OutputOption::Format(hls()).as_arg(&ctx), hls().as_arg(&ctx));
}

#[test]
fn only_the_container_reads_the_frame_rate() {
    let mut fast = context(VideoCodec::libx264(), None);
    fast.media_frame_rate = FrameRate { r_frame_rate: String::from("4294967295/1"), rounded_frame_rate: u32::MAX };
    let slow = context(VideoCodec::libx264(), None);
    for o in [
        OutputOption::VideoBitrate(None),
        OutputOption::AudioChannels(Some(2)),
        OutputOption::TsOffset(None),
        OutputOption::DoNotMapMetadata,
        OutputOption::VideoCodec(VideoCodec::libx265()),
    ] {
        assert_eq!(o.as_arg(&fast), o.as_arg(&slow));
    }
    assert!(OutputOption::FrameRate(None).as_arg(&fast).is_empty());
}
