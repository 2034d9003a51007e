use ffpipeline::frame_rate::FrameRate;
use ffpipeline::input::InputSource;
use ffpipeline::probe::{
    audio_stream_position, ffprobe_args, ffprobe_stdin_args, lavfi_sample_args, output_streams_to_results,
    output_to_result, probe_result, stream_of_kind, video_stream_position, ProbeOutputStream, ProbeResult, ProbeResultAudioStream,
    ProbeResultColorParams, ProbeResultStream, ProbeResultVideoStream,
};
use ffpipeline::timespan::TimeSpan;

fn output_stream(index: u32, codec_type: &str) -> ProbeOutputStream {
    ProbeOutputStream {
        index,
        codec_type: String::from(codec_type),
        codec_name: None,
        profile: None,
        height: None,
        width: None,
        channels: None,
        r_frame_rate: None,
        sample_aspect_ratio: None,
        display_aspect_ratio: None,
        pix_fmt: None,
        color_range: None,
        color_space: None,
        color_transfer: None,
        color_primaries: None,
    }
}

fn colors(transfer: Option<&str>) -> ProbeResultColorParams {
    ProbeResultColorParams {
        color_range: None,
        color_space: None,
        color_transfer: transfer.map(String::from),
        color_primaries: None,
    }
}

fn video(index: u32) -> ProbeResultStream {
    ProbeResultStream::Video(Box::new(ProbeResultVideoStream {
        stream_index: index,
        codec: String::from("h264"),
        profile: String::from("high"),
        height: 1080,
        width: 1920,
        frame_rate: FrameRate { r_frame_rate: String::from("24000/1001"), rounded_frame_rate: 24 },
        sample_aspect_ratio: None,
        display_aspect_ratio: None,
        pix_fmt: String::from("yuv420p"),
        color_params: colors(None),
    }))
}

fn audio(index: u32, channels: u32) -> ProbeResultStream {
    ProbeResultStream::Audio(ProbeResultAudioStream { stream_index: index, codec: String::from("aac"), channels })
}

#[test]
fn hdr_transfers() {
    assert!(colors(Some("smpte2084")).is_hdr());
    assert!(colors(Some("arib-std-b67")).is_hdr());
    assert!(!colors(Some("bt709")).is_hdr());
    assert!(!colors(None).is_hdr());
}

#[test]
fn still_image_has_one_stream_and_no_duration() {
    let still = ProbeResult { path: String::from("a.png"), streams: vec![video(0)], duration: None };
    assert!(still.is_still_image());
    let clip = ProbeResult { path: String::from("a.mkv"), streams: vec![video(0)], duration: Some(TimeSpan { nanos: 1 }) };
    assert!(!clip.is_still_image());
    let two = ProbeResult { path: String::from("a.mkv"), streams: vec![video(0), audio(1, 2)], duration: None };
    assert!(!two.is_still_image());
}

#[test]
fn audio_output_stream() {
    let mut o = output_stream(1, "audio");
    o.channels = Some(6);
    o.codec_name = Some(String::from("AC3"));
    let r = output_to_result(&o).unwrap();
    assert_eq!(r, ProbeResultStream::Audio(ProbeResultAudioStream { stream_index: 1, codec: String::from("AC3"), channels: 6 }));
}

#[test]
fn audio_output_stream_defaults_and_requirements() {
    let mut o = output_stream(2, "audio");
    assert!(output_to_result(&o).is_none());
    o.channels = Some(2);
    match output_to_result(&o) {
        Some(ProbeResultStream::Audio(a)) => assert_eq!(a.codec, "unknown"),
        other => panic!("unexpected {:?}", other),
    }
}

#[test]
fn video_output_stream_is_lowercased() {
    let mut o = output_stream(0, "VIDEO");
    o.codec_name = Some(String::from("H264"));
    o.profile = Some(String::from("High"));
    o.height = Some(720);
    o.width = Some(1280);
    o.pix_fmt = Some(String::from("yuv420p"));
    o.r_frame_rate = Some(FrameRate { r_frame_rate: String::from("30/1"), rounded_frame_rate: 30 });
    o.sample_aspect_ratio = Some(String::from("1:1"));
    o.color_transfer = Some(String::from("bt709"));
    match output_to_result(&o) {
        Some(ProbeResultStream::Video(v)) => {
            assert_eq!(v.stream_index, 0);
            assert_eq!(v.codec, "h264");
            assert_eq!(v.profile, "high");
            assert_eq!(v.width, 1280);
            assert_eq!(v.height, 720);
            assert_eq!(v.pix_fmt, "yuv420p");
            assert_eq!(v.frame_rate.r_frame_rate, "30/1");
            assert_eq!(v.sample_aspect_ratio, Some(String::from("1:1")));
            assert_eq!(v.color_params.color_transfer, Some(String::from("bt709")));
        },
        other => panic!("unexpected {:?}", other),
    }
}

#[test]
fn video_output_stream_needs_size_format_and_rate() {
    let mut o = output_stream(0, "video");
    o.height = Some(720);
    o.width = Some(1280);
    o.pix_fmt = Some(String::from("yuv420p"));
    assert!(output_to_result(&o).is_none());
    o.r_frame_rate = Some(FrameRate { r_frame_rate: String::from("30/1"), rounded_frame_rate: 30 });
    match output_to_result(&o) {
        Some(ProbeResultStream::Video(v)) => {
            assert_eq!(v.codec, "unknown");
            assert_eq!(v.profile, "");
        },
        other => panic!("unexpected {:?}", other),
    }
}

#[test]
fn other_stream_kinds_are_dropped() {
    let mut o = output_stream(3, "subtitle");
    o.channels = Some(2);
    assert!(output_to_result(&o).is_none());
    let mut a = output_stream(4, "audio");
    a.channels = Some(2);
    let streams = output_streams_to_results(&vec![o, output_stream(5, "data"), a]);
    assert_eq!(streams.len(), 1);
    assert_eq!(streams[0], ProbeResultStream::Audio(ProbeResultAudioStream { stream_index: 4, codec: String::from("unknown"), channels: 2 }));
}

#[test]
fn probe_result_keeps_path_and_duration() {
    let mut a = output_stream(1, "audio");
    a.channels = Some(2);
    let r = probe_result("/media/a.mkv", &vec![output_stream(0, "data"), a], Some(TimeSpan { nanos: 5 }));
    assert_eq!(r.path, "/media/a.mkv");
    assert_eq!(r.duration, Some(TimeSpan { nanos: 5 }));
    assert_eq!(r.streams.len(), 1);
}

#[test]
fn video_stream_selection() {
    let streams = vec![audio(0, 2), video(3), video(1), video(1)];
    assert_eq!(video_stream_position(&streams, None), Some(2));
    assert_eq!(video_stream_position(&streams, Some(3)), Some(1));
    assert_eq!(video_stream_position(&streams, Some(7)), Some(2));
    assert_eq!(video_stream_position(&vec![audio(0, 2)], None), None);
}

#[test]
fn audio_stream_selection() {
    let streams = vec![video(0), audio(1, 2), audio(2, 6), audio(3, 6)];
    assert_eq!(audio_stream_position(&streams, None), Some(2));
    assert_eq!(audio_stream_position(&streams, Some(1)), Some(1));
    assert_eq!(audio_stream_position(&streams, Some(9)), Some(2));
    assert_eq!(audio_stream_position(&vec![video(0)], Some(0)), None);
}

#[test]
fn ffprobe_arguments() {
    let source = InputSource { input_args: vec![String::from("-f"), String::from("lavfi")] };
    assert_eq!(
        ffprobe_args(&source, "/media/a.mkv"),
        vec!["-hide_banner", "-print_format", "json", "-show_format", "-show_streams", "-show_chapters", "-f", "lavfi", "-i", "/media/a.mkv"]
    );
    assert_eq!(
        ffprobe_stdin_args(),
        vec!["-hide_banner", "-print_format", "json", "-show_format", "-show_streams", "-show_chapters", "-i", "pipe:0"]
    );
    assert_eq!(
        lavfi_sample_args("testsrc"),
        vec!["-f", "lavfi", "-i", "testsrc", "-t", "1", "-f", "nut", "pipe:1"]
    );
}

#[test]
fn stream_descriptions() {
    assert_eq!(audio(1, 6).describe(), "1: audio (aac - 6 channels)");
    assert_eq!(video(0).describe(), "0: video (h264 - 1920x1080 - 24000/1001)");
}

#[test]
fn streams_of_a_given_kind() {
    let mut a = output_stream(1, "Audio");
    a.channels = Some(2);
    a.codec_name = Some(String::from("AAC"));
    assert!(stream_of_kind(&a, "Audio", String::new(), String::new()).is_none());
    assert_eq!(
        stream_of_kind(&a, "audio", String::new(), String::new()),
        Some(ProbeResultStream::Audio(ProbeResultAudioStream { stream_index: 1, codec: String::from("AAC"), channels: 2 }))
    );
    let mut v = output_stream(0, "Video");
    v.codec_name = Some(String::from("H264"));
    v.height = Some(720);
    v.width = Some(1280);
    v.pix_fmt = Some(String::from("nv12"));
    v.r_frame_rate = Some(FrameRate { r_frame_rate: String::from("25/1"), rounded_frame_rate: 25 });
    match stream_of_kind(&v, "video", String::from("h264"), String::from("main")) {
        Some(ProbeResultStream::Video(s)) => {
            assert_eq!(s.codec, "h264");
            assert_eq!(s.profile, "main");
            assert_eq!(s.pix_fmt, "nv12");
        },
        other => panic!("unexpected {:?}", other),
    }
    assert!(stream_of_kind(&v, "data", String::new(), String::new()).is_none());
}
