//! Video decoding.
use vstd::prelude::*;

use crate::filter_chain::PipelineFilter;
use crate::hw_accel::{accel_can_decode, accel_decoder_args, accel_decoder_filters, accel_decoder_surface, same_accel, HardwareAccel};
use crate::output_settings::OutputSettings;
use crate::pipeline::{parsed_pixel_format, FrameSurface, PixelFormat};
use crate::probe::ProbeResultVideoStream;
use crate::text::arg_texts;

verus! {

/// How the video input is decoded: not at all (stream copy or a still
/// image), in software, or on a hardware device.
#[derive(Clone, Debug)]
pub enum VideoDecoder {
    NoDecode,
    Software,
    HardwareAccel { accel: HardwareAccel },
}

/// `d` is the decoder chosen for the stream: none when video is copied or
/// the input is a still image; the accelerator when it decodes the stream;
/// software otherwise.
pub open spec fn chosen_decoder(
    d: VideoDecoder,
    stream: ProbeResultVideoStream,
    is_still_image: bool,
    settings: OutputSettings,
) -> bool {
    if settings.video_format is None || is_still_image {
        d is NoDecode
    } else {
        match settings.accel {
            Some(a) => if accel_can_decode(a, stream.codec@, stream.profile@, parsed_pixel_format(stream.pix_fmt@)) {
                d matches VideoDecoder::HardwareAccel { accel } && same_accel(accel, a)
            } else {
                d is Software
            },
            None => d is Software,
        }
    }
}

/// The filters that follow a decoder.
pub open spec fn video_decoder_filters(d: VideoDecoder) -> Seq<PipelineFilter> {
    match d {
        VideoDecoder::HardwareAccel { accel } => accel_decoder_filters(accel),
        _ => Seq::empty(),
    }
}

/// The surface a decoder outputs.
pub open spec fn video_decoder_surface(d: VideoDecoder) -> FrameSurface {
    match d {
        VideoDecoder::HardwareAccel { accel } => accel_decoder_surface(accel),
        _ => FrameSurface::System,
    }
}

/// The arguments of a decoder.
pub open spec fn video_decoder_args(d: VideoDecoder) -> Seq<Seq<char>> {
    match d {
        VideoDecoder::HardwareAccel { accel } => accel_decoder_args(accel),
        _ => Seq::empty(),
    }
}

impl VideoDecoder {
    /// The decoder of a video stream for the output settings.
    pub fn new(video_stream: &ProbeResultVideoStream, is_still_image: bool, output_settings: &OutputSettings) -> (res: VideoDecoder)
        ensures
            chosen_decoder(res, *video_stream, is_still_image, *output_settings),
    {
        if output_settings.video_format.is_none() || is_still_image {
            return VideoDecoder::NoDecode;
        }
        match &output_settings.accel {
            Some(accel) => {
                if Self::can_hw_decode(accel, video_stream.codec.as_str(), video_stream.profile.as_str(), video_stream.pix_fmt.as_str()) {
                    VideoDecoder::HardwareAccel { accel: accel.duplicate() }
                } else {
                    VideoDecoder::Software
                }
            },
            None => VideoDecoder::Software,
        }
    }

    /// A copy of this decoder.
    pub fn duplicate(&self) -> (res: VideoDecoder)
        ensures
            match (*self, res) {
                (VideoDecoder::HardwareAccel { accel: a }, VideoDecoder::HardwareAccel { accel: b }) => same_accel(b, a),
                (VideoDecoder::NoDecode, VideoDecoder::NoDecode) => true,
                (VideoDecoder::Software, VideoDecoder::Software) => true,
                _ => false,
            },
    {
        match self {
            VideoDecoder::NoDecode => VideoDecoder::NoDecode,
            VideoDecoder::Software => VideoDecoder::Software,
            VideoDecoder::HardwareAccel { accel } => VideoDecoder::HardwareAccel { accel: accel.duplicate() },
        }
    }

    /// The filters that follow the decoder.
    pub fn filters(&self) -> (res: Vec<PipelineFilter>)
        ensures
            res@ == video_decoder_filters(*self),
    {
        match self {
            VideoDecoder::HardwareAccel { accel } => accel.decoder_filters(),
            _ => Vec::new(),
        }
    }

    /// The surface decoded frames are on.
    pub fn output_surface(&self) -> (res: FrameSurface)
        ensures
            res == video_decoder_surface(*self),
    {
        match self {
            VideoDecoder::NoDecode => FrameSurface::System,
            VideoDecoder::Software => FrameSurface::System,
            VideoDecoder::HardwareAccel { accel } => accel.decoder_frame_surface(),
        }
    }

    /// The pixel format of decoded frames.
    pub fn output_format(&self, source_pixel_format: &PixelFormat) -> (res: PixelFormat)
        ensures
            res == *source_pixel_format,
    {
        match self {
            VideoDecoder::NoDecode => *source_pixel_format,
            VideoDecoder::Software => *source_pixel_format,
            VideoDecoder::HardwareAccel { accel } => accel.output_format(source_pixel_format),
        }
    }

    /// The decoder arguments.
    pub fn as_arg(&self) -> (res: Vec<String>)
        ensures
            arg_texts(res@) == video_decoder_args(*self),
    {
        match self {
            VideoDecoder::HardwareAccel { accel } => accel.decoder_arg(),
            _ => {
                let v: Vec<String> = Vec::new();
                assert(arg_texts(v@) =~= Seq::<Seq<char>>::empty());
                v
            },
        }
    }

    fn can_hw_decode(accel: &HardwareAccel, codec: &str, profile: &str, pix_fmt: &str) -> (res: bool)
        ensures
            res == accel_can_decode(*accel, codec@, profile@, parsed_pixel_format(pix_fmt@)),
    {
        accel.can_decode(codec, profile, &PixelFormat::parse(pix_fmt))
    }
}

} // verus!
