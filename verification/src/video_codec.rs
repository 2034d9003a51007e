//! Video encoders.
use vstd::prelude::*;

use crate::pipeline::PixelFormat;
use crate::text::{arg_texts, copy_args, extend_args_from, push_arg, push_owned, text_eq};

verus! {

/// A video encoder: its ffmpeg name, the options it is always given, the
/// pixel formats it prefers for 8-bit and 10-bit output, and whether it
/// runs on a hardware device.
#[derive(Clone, Debug, PartialEq)]
pub struct VideoCodec {
    pub codec_name: String,
    pub options: Vec<String>,
    pub preferred_pixel_format_8bit: Option<PixelFormat>,
    pub preferred_pixel_format_10bit: Option<PixelFormat>,
    pub is_hardware: bool,
}

/// The abstract value of a video encoder.
pub struct VideoCodecView {
    pub codec_name: Seq<char>,
    pub options: Seq<Seq<char>>,
    pub preferred_pixel_format_8bit: Option<PixelFormat>,
    pub preferred_pixel_format_10bit: Option<PixelFormat>,
    pub is_hardware: bool,
}

impl View for VideoCodec {
    type V = VideoCodecView;

    open spec fn view(&self) -> VideoCodecView {
        VideoCodecView {
            codec_name: self.codec_name@,
            options: arg_texts(self.options@),
            preferred_pixel_format_8bit: self.preferred_pixel_format_8bit,
            preferred_pixel_format_10bit: self.preferred_pixel_format_10bit,
            is_hardware: self.is_hardware,
        }
    }
}

/// The stream-copy "encoder".
pub open spec fn copy_codec_view() -> VideoCodecView {
    VideoCodecView {
        codec_name: "copy"@,
        options: seq![],
        preferred_pixel_format_8bit: None,
        preferred_pixel_format_10bit: None,
        is_hardware: false,
    }
}

/// The software H.264 encoder.
pub open spec fn libx264_view() -> VideoCodecView {
    VideoCodecView {
        codec_name: "libx264"@,
        options: seq![],
        preferred_pixel_format_8bit: Some(PixelFormat::Yuv420p),
        preferred_pixel_format_10bit: Some(PixelFormat::Yuv420p10le),
        is_hardware: false,
    }
}

/// The software HEVC encoder.
pub open spec fn libx265_view() -> VideoCodecView {
    VideoCodecView {
        codec_name: "libx265"@,
        options: seq!["-tag:v"@, "hvc1"@, "-x265-params"@, "log-level=error"@],
        preferred_pixel_format_8bit: Some(PixelFormat::Yuv420p),
        preferred_pixel_format_10bit: Some(PixelFormat::Yuv420p10le),
        is_hardware: false,
    }
}

/// A hardware encoder with the usual nv12 / p010le preferences.
pub open spec fn hardware_codec_view(name: Seq<char>, options: Seq<Seq<char>>) -> VideoCodecView {
    VideoCodecView {
        codec_name: name,
        options: options,
        preferred_pixel_format_8bit: Some(PixelFormat::Nv12),
        preferred_pixel_format_10bit: Some(PixelFormat::P010le),
        is_hardware: true,
    }
}

/// The abstract value of an optional encoder.
pub open spec fn opt_codec_view(c: Option<VideoCodec>) -> Option<VideoCodecView> {
    match c {
        Some(v) => Some(v@),
        None => None,
    }
}

/// Whether an encoder is the stream-copy "encoder".
pub open spec fn is_copy_view(c: VideoCodecView) -> bool {
    c == copy_codec_view()
}

/// The arguments that select an encoder: `-vcodec <name>` and its options.
pub open spec fn video_codec_args(c: VideoCodecView) -> Seq<Seq<char>> {
    seq!["-vcodec"@, c.codec_name] + c.options
}

impl VideoCodec {
    /// A hardware encoder preferring nv12 for 8-bit and p010le for 10-bit
    /// output.
    pub fn hardware(name: &str, options: Vec<String>) -> (res: VideoCodec)
        ensures
            res@ == hardware_codec_view(name@, arg_texts(options@)),
    {
        VideoCodec {
            codec_name: String::from_str(name),
            options,
            preferred_pixel_format_8bit: Some(PixelFormat::Nv12),
            preferred_pixel_format_10bit: Some(PixelFormat::P010le),
            is_hardware: true,
        }
    }

    /// Stream copy: the video is passed through without re-encoding.
    pub fn copy() -> (res: VideoCodec)
        ensures
            res@ == copy_codec_view(),
    {
        let res = VideoCodec {
            codec_name: String::from_str("copy"),
            options: Vec::new(),
            preferred_pixel_format_8bit: None,
            preferred_pixel_format_10bit: None,
            is_hardware: false,
        };
        assert(res@.options =~= Seq::<Seq<char>>::empty());
        res
    }

    /// The software H.264 encoder.
    pub fn libx264() -> (res: VideoCodec)
        ensures
            res@ == libx264_view(),
    {
        let res = VideoCodec {
            codec_name: String::from_str("libx264"),
            options: Vec::new(),
            preferred_pixel_format_8bit: Some(PixelFormat::Yuv420p),
            preferred_pixel_format_10bit: Some(PixelFormat::Yuv420p10le),
            is_hardware: false,
        };
        assert(res@.options =~= Seq::<Seq<char>>::empty());
        res
    }

    /// The software HEVC encoder.
    pub fn libx265() -> (res: VideoCodec)
        ensures
            res@ == libx265_view(),
    {
        let mut options: Vec<String> = Vec::new();
        push_arg(&mut options, "-tag:v");
        push_arg(&mut options, "hvc1");
        push_arg(&mut options, "-x265-params");
        push_arg(&mut options, "log-level=error");
        let res = VideoCodec {
            codec_name: String::from_str("libx265"),
            options,
            preferred_pixel_format_8bit: Some(PixelFormat::Yuv420p),
            preferred_pixel_format_10bit: Some(PixelFormat::Yuv420p10le),
            is_hardware: false,
        };
        assert(res@.options =~= seq!["-tag:v"@, "hvc1"@, "-x265-params"@, "log-level=error"@]);
        res
    }

    /// A copy of this encoder.
    pub fn duplicate(&self) -> (res: VideoCodec)
        ensures
            res@ == self@,
    {
        VideoCodec {
            codec_name: self.codec_name.clone(),
            options: copy_args(&self.options),
            preferred_pixel_format_8bit: self.preferred_pixel_format_8bit,
            preferred_pixel_format_10bit: self.preferred_pixel_format_10bit,
            is_hardware: self.is_hardware,
        }
    }

    /// Whether this is the stream-copy "encoder".
    pub fn is_copy(&self) -> (res: bool)
        ensures
            res == is_copy_view(self@),
    {
        let same = text_eq(self.codec_name.as_str(), "copy") && self.options.len() == 0
            && self.preferred_pixel_format_8bit.is_none()
            && self.preferred_pixel_format_10bit.is_none() && !self.is_hardware;
        assert(arg_texts(self.options@).len() == self.options@.len());
        if same {
            assert(self@.options =~= copy_codec_view().options);
        }
        assert(is_copy_view(self@) ==> self@.options.len() == 0);
        same
    }

    /// `-vcodec <name>` followed by the encoder's options.
    pub fn as_arg(&self) -> (res: Vec<String>)
        ensures
            arg_texts(res@) == video_codec_args(self@),
    {
        let mut args: Vec<String> = Vec::new();
        push_arg(&mut args, "-vcodec");
        push_owned(&mut args, self.codec_name.clone());
        extend_args_from(&mut args, &self.options);
        assert(arg_texts(args@) =~= video_codec_args(self@));
        args
    }
}

} // verus!
