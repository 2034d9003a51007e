use ffpipeline::frame_rate::FrameRate;
use ffpipeline::frame_size::{parse_ratio, FrameSize};
use ffpipeline::pipeline::{FrameState, FrameSurface, Pipeline, PixelFormat};
use ffpipeline::probe::{ProbeResultColorParams, ProbeResultVideoStream};

fn state(width: u32, height: u32, is_anamorphic: bool, sar: Option<&str>) -> FrameState {
    FrameState {
        size: FrameSize { width, height },
        is_anamorphic,
        sample_aspect_ratio: sar.map(String::from),
        display_aspect_ratio: None,
        surface: FrameSurface::System,
        pixel_format: PixelFormat::Yuv420p,
        is_hdr: false,
    }
}

fn stream(width: u32, height: u32, sar: Option<&str>, dar: Option<&str>) -> ProbeResultVideoStream {
    ProbeResultVideoStream {
        stream_index: 0,
        codec: String::from("mpeg2video"),
        profile: String::new(),
        height,
        width,
        frame_rate: FrameRate { r_frame_rate: String::from("30000/1001"), rounded_frame_rate: 30 },
        sample_aspect_ratio: sar.map(String::from),
        display_aspect_ratio: dar.map(String::from),
        pix_fmt: String::from("yuv420p"),
        color_params: ProbeResultColorParams { color_range: None, color_space: None, color_transfer: None, color_primaries: None },
    }
}

#[test]
fn ratios() {
    assert_eq!(parse_ratio("16:9"), Some((16, 9)));
    assert_eq!(parse_ratio("0:1"), Some((0, 1)));
    assert_eq!(parse_ratio("4294967295:1"), Some((4294967295, 1)));
    assert_eq!(parse_ratio("4294967296:1"), None);
    assert_eq!(parse_ratio("16/9"), None);
    assert_eq!(parse_ratio(":9"), None);
    assert_eq!(parse_ratio("16:"), None);
    assert_eq!(parse_ratio("1a:9"), None);
}

#[test]
fn square_pixels_fill_matching_target() {
    let target = FrameSize { width: 1920, height: 1080 };
    assert_eq!(target.square_pixel_size(&state(1280, 720, false, None)), FrameSize { width: 1920, height: 1080 });
}

#[test]
fn narrower_source_is_pillarboxed() {
    let target = FrameSize { width: 1920, height: 1080 };
    assert_eq!(target.square_pixel_size(&state(1440, 1080, false, None)), FrameSize { width: 1440, height: 1080 });
}

#[test]
fn wider_source_is_letterboxed() {
    let target = FrameSize { width: 1280, height: 720 };
    assert_eq!(target.square_pixel_size(&state(1920, 800, false, None)), FrameSize { width: 1280, height: 532 });
}

#[test]
fn anamorphic_source_is_stretched_first() {
    let target = FrameSize { width: 1920, height: 1080 };
    assert_eq!(
        target.square_pixel_size(&state(720, 480, true, Some("32:27"))),
        FrameSize { width: 1918, height: 1080 }
    );
    assert_eq!(
        target.square_pixel_size(&state(720, 480, true, Some("8:9"))),
        FrameSize { width: 1440, height: 1080 }
    );
}

#[test]
fn fitted_sides_are_even() {
    let target = FrameSize { width: 1921, height: 1081 };
    let s = target.square_pixel_size(&state(1921, 1081, false, None));
    assert_eq!(s, FrameSize { width: 1920, height: 1080 });
}

#[test]
fn anamorphic_detection() {
    assert!(!Pipeline::is_anamorphic(&stream(1920, 1080, None, None)));
    assert!(!Pipeline::is_anamorphic(&stream(1920, 1080, Some("1:1"), Some("16:9"))));
    assert!(Pipeline::is_anamorphic(&stream(720, 480, Some("32:27"), Some("16:9"))));
    assert!(!Pipeline::is_anamorphic(&stream(720, 480, Some("0:1"), Some("0:1"))));
    assert!(!Pipeline::is_anamorphic(&stream(720, 480, Some("0:1"), Some("720:480"))));
    assert!(Pipeline::is_anamorphic(&stream(720, 480, Some("0:1"), Some("16:9"))));
    assert!(Pipeline::is_anamorphic(&stream(720, 480, Some("0:1"), None)));
}
