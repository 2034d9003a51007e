//! Pipeline types and the construction of an ffmpeg command line.
use vstd::prelude::*;

use crate::audio_codec::AudioCodec;
use crate::audio_decoder::{audio_decoder_args, AudioDecoder};
use crate::ffmpeg_info::FfmpegInfo;
use crate::filter_chain::{FilterChain, FilterGraph, PipelineFilter};
use crate::frame_rate::FrameRate;
use crate::frame_size::FrameSize;
use crate::global_option::{global_option_args, GlobalOption, LogLevel};
use crate::hw_accel::{
    accel_can_encode, accel_codec, accel_encoder_surface, accel_envs, accel_initialized, accel_known, same_accel,
    same_opt_accel, HardwareAccel,
};
use crate::input::InputSource;
use crate::output_option::{millis_text, output_option_args, remove_group, without_group, OptionGroup, OutputOption};
use crate::audio_filter::AudioFilter;
use crate::error::FFPipelineError;
use crate::ffmpeg_info::lists_accel;
use crate::frame_size::{display_size, fitted_size};
use crate::input::InputSettings;
use crate::output_format::output_path;
use crate::output_settings::{copy_loudness, OutputSettings};
use crate::probe::{
    audio_at, audio_stream_position, has_audio, has_video, is_hdr_transfer, selects_audio, selects_video, video_at,
    video_stream_position, ProbeResult, ProbeResultAudioStream, ProbeResultStream, ProbeResultVideoStream,
};
use crate::video_filter::VideoFilter;
use crate::text::{
    arg_texts, args2, args_with, contains_text, copy_opt_string, decimal, decimal_string, decimal_with_suffix, dims,
    dims_text, env_texts, extend_args, push_arg, push_owned, str_or, text_eq, text_or,
};
use crate::timespan::TimeSpan;
use crate::video_codec::{copy_codec_view, is_copy_view, libx264_view, libx265_view, VideoCodec, VideoCodecView};
use crate::video_decoder::{chosen_decoder, video_decoder_args, video_decoder_filters, video_decoder_surface, VideoDecoder};
use crate::video_filter::video_filter_surface;

verus! {

/// Seconds between forced keyframes.
pub const KEYFRAME_INTERVAL_SECONDS: u32 = 2;

/// Length of an HLS segment, in seconds.
pub const SEGMENT_SECONDS: u32 = 4;

/// Audio formats that output can be normalized to.
#[derive(Clone, Copy, Debug, PartialEq, Eq, Structural)]
pub enum AudioFormat {
    Aac,
    Ac3,
}

/// A bit rate in kilobits per second.
#[derive(Clone, Copy, Debug, PartialEq, Eq, Structural)]
pub struct Kbps(pub u32);

/// A sample rate in hertz.
#[derive(Clone, Copy, Debug, PartialEq, Eq, Structural)]
pub struct Hz(pub u32);

/// Video formats known to the pipeline.
#[derive(Clone, Copy, Debug, PartialEq, Eq, Hash, Structural)]
pub enum VideoFormat {
    Av1,
    H264,
    Hevc,
    Mpeg2Video,
    Vc1,
    Vp8,
    Vp9,
}

/// How far output timestamps are shifted.
#[derive(Clone, Copy, Debug, PartialEq, Eq, Structural)]
pub struct PtsOffset {
    pub duration: TimeSpan,
}

/// Where decoded frames live.
#[derive(Clone, Copy, Debug, PartialEq, Eq, Structural)]
pub enum FrameSurface {
    System,
    Cuda,
    Qsv,
    Vaapi,
    VideoToolbox,
    Vulkan,
    OpenCL,
}

/// Pixel formats known to the pipeline.
#[derive(Clone, Copy, Debug, PartialEq, Eq, Structural)]
pub enum PixelFormat {
    Yuv420p,
    Yuv420p10le,
    Nv12,
    P010le,
    P016,
}

/// ffmpeg's name of a pixel format.
pub open spec fn pixel_format_name(p: PixelFormat) -> Seq<char> {
    match p {
        PixelFormat::Yuv420p => "yuv420p"@,
        PixelFormat::Yuv420p10le => "yuv420p10le"@,
        PixelFormat::Nv12 => "nv12"@,
        PixelFormat::P010le => "p010le"@,
        PixelFormat::P016 => "p016"@,
    }
}

/// The pixel format that ffprobe's `pix_fmt` text names; unknown names
/// are taken to be `yuv420p`.
pub open spec fn parsed_pixel_format(s: Seq<char>) -> PixelFormat {
    if s == "yuv420p"@ {
        PixelFormat::Yuv420p
    } else if s == "yuv420p10le"@ {
        PixelFormat::Yuv420p10le
    } else if s == "nv12"@ {
        PixelFormat::Nv12
    } else if s == "p010le"@ {
        PixelFormat::P010le
    } else {
        PixelFormat::Yuv420p
    }
}

/// Bits per sample of a pixel format.
pub open spec fn bit_depth_of(p: PixelFormat) -> u8 {
    match p {
        PixelFormat::Yuv420p | PixelFormat::Nv12 => 8,
        PixelFormat::Yuv420p10le | PixelFormat::P010le => 10,
        PixelFormat::P016 => 16,
    }
}

impl PixelFormat {
    /// Reads ffprobe's `pix_fmt` text.
    pub fn parse(pix_fmt: &str) -> (res: PixelFormat)
        ensures
            res == parsed_pixel_format(pix_fmt@),
    {
        if text_eq(pix_fmt, "yuv420p") {
            PixelFormat::Yuv420p
        } else if text_eq(pix_fmt, "yuv420p10le") {
            PixelFormat::Yuv420p10le
        } else if text_eq(pix_fmt, "nv12") {
            PixelFormat::Nv12
        } else if text_eq(pix_fmt, "p010le") {
            PixelFormat::P010le
        } else {
            PixelFormat::Yuv420p
        }
    }

    /// Bits per sample.
    pub fn bit_depth(&self) -> (res: u8)
        ensures
            res == bit_depth_of(*self),
    {
        match self {
            PixelFormat::Yuv420p | PixelFormat::Nv12 => 8,
            PixelFormat::Yuv420p10le | PixelFormat::P010le => 10,
            PixelFormat::P016 => 16,
        }
    }

    /// ffmpeg's name of this format.
    pub fn as_arg(&self) -> (res: &'static str)
        ensures
            res@ == pixel_format_name(*self),
    {
        match self {
            PixelFormat::Yuv420p => "yuv420p",
            PixelFormat::Yuv420p10le => "yuv420p10le",
            PixelFormat::Nv12 => "nv12",
            PixelFormat::P010le => "p010le",
            PixelFormat::P016 => "p016",
        }
    }
}

/// Reading back the name of a pixel format gives that format, for every
/// format that ffprobe reports by name (`p016` is read as `yuv420p`).
pub proof fn lemma_pixel_format_name_round_trip(p: PixelFormat)
    requires
        p != PixelFormat::P016,
    ensures
        parsed_pixel_format(pixel_format_name(p)) == p,
{
    reveal_strlit("yuv420p");
    reveal_strlit("yuv420p10le");
    reveal_strlit("nv12");
    reveal_strlit("p010le");
    assert("yuv420p10le"@.len() != "yuv420p"@.len());
    assert("nv12"@.len() != "yuv420p"@.len());
    assert("nv12"@.len() != "yuv420p10le"@.len());
    assert("p010le"@.len() != "yuv420p"@.len());
    assert("p010le"@.len() != "yuv420p10le"@.len());
    assert("p010le"@.len() != "nv12"@.len());
}

/// The state of frames at some point of the filter chain.
#[derive(Clone, Debug)]
pub struct FrameState {
    pub size: FrameSize,
    pub is_anamorphic: bool,
    pub sample_aspect_ratio: Option<String>,
    pub display_aspect_ratio: Option<String>,
    pub surface: FrameSurface,
    pub pixel_format: PixelFormat,
    pub is_hdr: bool,
}

impl FrameState {
    /// A copy of this state.
    pub fn duplicate(&self) -> (res: FrameState)
        ensures
            res == *self,
    {
        FrameState {
            size: self.size,
            is_anamorphic: self.is_anamorphic,
            sample_aspect_ratio: copy_opt_string(&self.sample_aspect_ratio),
            display_aspect_ratio: copy_opt_string(&self.display_aspect_ratio),
            surface: self.surface,
            pixel_format: self.pixel_format,
            is_hdr: self.is_hdr,
        }
    }
}

/// What the output options need to know about the encoded output.
pub struct OutputContext {
    pub media_frame_rate: FrameRate,
    pub audio_codec: AudioCodec,
    pub audio_channels: Option<u32>,
    pub video_codec: VideoCodec,
    pub pts_offset: Option<PtsOffset>,
    pub preferred_surface: FrameSurface,
    pub preferred_pixel_format: Option<PixelFormat>,
}

/// An input of the pipeline.
pub enum PipelineInput {
    Audio {
        input_source: InputSource,
        index: u32,
        path: String,
        seek: TimeSpan,
        channels: u32,
        decoder: AudioDecoder,
    },
    Video {
        input_source: InputSource,
        index: u32,
        path: String,
        seek: TimeSpan,
        realtime: bool,
        decoder: VideoDecoder,
    },
}

/// Where the pipeline writes.
pub struct PipelineOutput {
    pub path: String,
}

/// An ffmpeg invocation: what ffmpeg supports, the acceleration method, the
/// state of decoded frames, and the options, inputs, filters and output
/// that make up the command line.
pub struct Pipeline {
    pub ffmpeg_info: FfmpegInfo,
    pub accel: Option<HardwareAccel>,
    pub initial_state: FrameState,
    pub global_options: Vec<GlobalOption>,
    pub inputs: Vec<PipelineInput>,
    pub filter_chain: FilterChain,
    pub output_options: Vec<OutputOption>,
    pub output: PipelineOutput,
    pub output_context: OutputContext,
}

/// Whether a video stream has non-square pixels: its sample aspect ratio
/// is given and is neither `1:1` nor unspecified (`0:1`), or it is
/// unspecified while the display aspect ratio is given and differs from
/// the stream's `width:height`.
pub open spec fn anamorphic(v: ProbeResultVideoStream) -> bool {
    match v.sample_aspect_ratio {
        None => false,
        Some(sar) => if sar@ == "1:1"@ {
            false
        } else if sar@ != "0:1"@ {
            true
        } else {
            let dar = text_or(v.display_aspect_ratio, ""@);
            if dar == "0:1"@ {
                false
            } else {
                dar != dims_text(v.width, v.height)
            }
        },
    }
}

/// Whether a filter of the chain needs frames on a hardware device.
pub open spec fn filter_needs_device(f: PipelineFilter) -> bool {
    f matches PipelineFilter::Video(vf) && video_filter_surface(vf) matches Some(s) && s != FrameSurface::System
}

/// Whether the pipeline must set up its hardware device: it encodes on the
/// device, or a filter needs frames there.
pub open spec fn needs_device(p: Pipeline) -> bool {
    p.output_context.video_codec.is_hardware || exists|k: int|
        0 <= k < p.filter_chain.filters@.len() && #[trigger] filter_needs_device(p.filter_chain.filters@[k])
}

impl Pipeline {
    /// Whether the stream has non-square pixels.
    pub fn is_anamorphic(video_stream: &ProbeResultVideoStream) -> (res: bool)
        ensures
            res == anamorphic(*video_stream),
    {
        match &video_stream.sample_aspect_ratio {
            Some(sample_aspect_ratio) => {
                let display_aspect_ratio = str_or(&video_stream.display_aspect_ratio, "");
                if text_eq(sample_aspect_ratio.as_str(), "1:1") {
                    false
                } else if !text_eq(sample_aspect_ratio.as_str(), "0:1") {
                    true
                } else if text_eq(display_aspect_ratio, "0:1") {
                    false
                } else {
                    let size = dims(video_stream.width, video_stream.height);
                    !text_eq(display_aspect_ratio, size.as_str())
                }
            },
            None => false,
        }
    }

    /// The acceleration method whose device must be set up, if any.
    pub fn needs_hw_device(&self) -> (res: Option<HardwareAccel>)
        ensures
            if needs_device(*self) {
                same_opt_accel(res, self.accel)
            } else {
                res is None
            },
    {
        if self.output_context.video_codec.is_hardware {
            return match &self.accel {
                Some(a) => Some(a.duplicate()),
                None => None,
            };
        }
        let n = self.filter_chain.filters.len();
        let mut i: usize = 0;
        while i < n
            invariant
                n == self.filter_chain.filters@.len(),
                0 <= i <= n,
                !self.output_context.video_codec.is_hardware,
                forall|j: int| 0 <= j < i ==> !#[trigger] filter_needs_device(self.filter_chain.filters@[j]),
            decreases n - i,
        {
            if let PipelineFilter::Video(video_filter) = &self.filter_chain.filters[i] {
                match video_filter.required_surface() {
                    Some(surface) => {
                        if surface != FrameSurface::System {
                            assert(filter_needs_device(self.filter_chain.filters@[i as int]));
                            return match &self.accel {
                                Some(a) => Some(a.duplicate()),
                                None => None,
                            };
                        }
                    },
                    None => {},
                }
            }
            i = i + 1;
        }
        None
    }

    /// The environment variables ffmpeg needs.
    pub fn envs(&self) -> (res: Vec<(String, String)>)
        ensures
            env_texts(res@) == pipeline_envs(*self),
    {
        match &self.accel {
            Some(a) => a.envs(),
            None => {
                let v: Vec<(String, String)> = Vec::new();
                assert(env_texts(v@) =~= Seq::<(Seq<char>, Seq<char>)>::empty());
                v
            },
        }
    }
}

/// The channel count of the first audio input, if any.
pub open spec fn first_audio_channels(inputs: Seq<PipelineInput>) -> Option<u32>
    decreases inputs.len(),
{
    if inputs.len() == 0 {
        None
    } else {
        match inputs[0] {
            PipelineInput::Audio { channels, .. } => Some(channels),
            _ => first_audio_channels(inputs.drop_first()),
        }
    }
}

/// Whether the requested channel count is that of the first audio input.
pub open spec fn channels_already_match(p: Pipeline) -> bool {
    first_audio_channels(p.inputs@) is Some && p.output_context.audio_channels == first_audio_channels(p.inputs@)
}

/// The output options after optimization: audio tuning goes when audio is
/// copied, the channel count goes when it equals the input's, and video
/// tuning goes when video is copied.
pub open spec fn optimized_options(p: Pipeline) -> Seq<OutputOption> {
    let o1 = if p.output_context.audio_codec == AudioCodec::Copy {
        without_group(p.output_options@, OptionGroup::AudioTuning)
    } else {
        p.output_options@
    };
    let o2 = if channels_already_match(p) {
        without_group(o1, OptionGroup::AudioChannels)
    } else {
        o1
    };
    if is_copy_view(p.output_context.video_codec@) {
        without_group(o2, OptionGroup::VideoTuning)
    } else {
        o2
    }
}

impl Pipeline {
    fn first_audio_input_channels(&self) -> (res: Option<u32>)
        ensures
            res == first_audio_channels(self.inputs@),
    {
        let n = self.inputs.len();
        let mut i: usize = 0;
        assert(self.inputs@.skip(0) =~= self.inputs@);
        while i < n
            invariant
                n == self.inputs@.len(),
                0 <= i <= n,
                first_audio_channels(self.inputs@) == first_audio_channels(self.inputs@.skip(i as int)),
            decreases n - i,
        {
            assert(self.inputs@.skip(i as int).drop_first() =~= self.inputs@.skip(i + 1));
            if let PipelineInput::Audio { channels, .. } = &self.inputs[i] {
                return Some(*channels);
            }
            i = i + 1;
        }
        None
    }

    /// Drops the options and filters that do not apply to the chosen
    /// encoders, and sets up the hardware device when the pipeline needs
    /// it.
    pub fn optimize(&mut self)
        ensures
            final(self).output_options@ == optimized_options(*old(self)),
            final(self).filter_chain.filters@ == old(self).filter_chain.filters@,
            final(self).filter_chain.audio_enabled == (old(self).filter_chain.audio_enabled
                && old(self).output_context.audio_codec != AudioCodec::Copy),
            final(self).filter_chain.video_enabled == (old(self).filter_chain.video_enabled && !is_copy_view(
                old(self).output_context.video_codec@,
            )),
            if needs_device(*old(self)) && old(self).accel is Some {
                &&& final(self).global_options@.len() == old(self).global_options@.len() + 1
                &&& final(self).global_options@.take(old(self).global_options@.len() as int) == old(
                    self,
                ).global_options@
                &&& final(self).global_options@.last() matches GlobalOption::InitHwDevice(a) && same_accel(
                    a,
                    old(self).accel.unwrap(),
                )
            } else {
                final(self).global_options@ == old(self).global_options@
            },
            final(self).ffmpeg_info == old(self).ffmpeg_info,
            final(self).accel == old(self).accel,
            final(self).initial_state == old(self).initial_state,
            final(self).inputs == old(self).inputs,
            final(self).output == old(self).output,
            final(self).output_context == old(self).output_context,
    {
        if self.output_context.audio_codec == AudioCodec::Copy {
            remove_group(&mut self.output_options, OptionGroup::AudioTuning);
            self.filter_chain.disable_audio();
        }
        let input_channels = self.first_audio_input_channels();
        if let Some(channels) = input_channels {
            if self.output_context.audio_channels == Some(channels) {
                remove_group(&mut self.output_options, OptionGroup::AudioChannels);
            }
        }
        if self.output_context.video_codec.is_copy() {
            remove_group(&mut self.output_options, OptionGroup::VideoTuning);
            self.filter_chain.disable_video();
        }
        let ghost before = self.global_options@;
        if let Some(accel) = self.needs_hw_device() {
            self.global_options.push(GlobalOption::InitHwDevice(accel));
            assert(self.global_options@.take(before.len() as int) =~= before);
        }
    }
}

/// The path an input reads.
pub open spec fn input_path(i: PipelineInput) -> Seq<char> {
    match i {
        PipelineInput::Audio { path, .. } => path@,
        PipelineInput::Video { path, .. } => path@,
    }
}

/// The stream index an input uses.
pub open spec fn input_index(i: PipelineInput) -> u32 {
    match i {
        PipelineInput::Audio { index, .. } => index,
        PipelineInput::Video { index, .. } => index,
    }
}

/// The paths of the inputs, each once, in order of first use.
pub open spec fn distinct_paths(inputs: Seq<PipelineInput>) -> Seq<Seq<char>>
    decreases inputs.len(),
{
    if inputs.len() == 0 {
        Seq::empty()
    } else {
        let rest = distinct_paths(inputs.drop_last());
        let p = input_path(inputs.last());
        if rest.contains(p) {
            rest
        } else {
            rest.push(p)
        }
    }
}

/// Whether `i` is the first position of `x` in `s`.
pub open spec fn is_first_position(s: Seq<Seq<char>>, x: Seq<char>, i: int) -> bool {
    0 <= i < s.len() && s[i] == x && forall|j: int| 0 <= j < i ==> s[j] != x
}

/// The first position of `x` in `s`, or 0 when it is absent.
pub open spec fn first_position(s: Seq<Seq<char>>, x: Seq<char>) -> int {
    if s.contains(x) {
        choose|i: int| is_first_position(s, x, i)
    } else {
        0
    }
}

/// The stream label `file:stream` of an input, where `file` counts the
/// distinct input paths.
pub open spec fn input_label(i: PipelineInput, distinct: Seq<Seq<char>>) -> Seq<char> {
    decimal(first_position(distinct, input_path(i)) as nat) + ":"@ + decimal(input_index(i) as nat)
}

/// The arguments that read an input. Audio from the same file as the video
/// needs no input of its own.
pub open spec fn input_args(i: PipelineInput, distinct: Seq<Seq<char>>) -> Seq<Seq<char>> {
    match i {
        PipelineInput::Audio { input_source, path, decoder, .. } => audio_decoder_args(decoder) + if distinct.len()
            > 1 {
            arg_texts(input_source.input_args@) + seq!["-i"@, path@]
        } else {
            Seq::empty()
        },
        PipelineInput::Video { input_source, path, seek, realtime, decoder, .. } => video_decoder_args(decoder) + (
        if seek.nanos != 0 {
            seq!["-ss"@, millis_text(seek)]
        } else {
            Seq::empty()
        }) + (if realtime {
            seq!["-readrate"@, "1.0"@]
        } else {
            Seq::empty()
        }) + arg_texts(input_source.input_args@) + seq!["-i"@, path@],
    }
}

/// The arguments of all inputs, in order.
pub open spec fn inputs_args(inputs: Seq<PipelineInput>, distinct: Seq<Seq<char>>) -> Seq<Seq<char>>
    decreases inputs.len(),
{
    if inputs.len() == 0 {
        Seq::empty()
    } else {
        inputs_args(inputs.drop_last(), distinct) + input_args(inputs.last(), distinct)
    }
}

/// The label of the last audio input, or `0:a`.
pub open spec fn audio_label(inputs: Seq<PipelineInput>, distinct: Seq<Seq<char>>) -> Seq<char>
    decreases inputs.len(),
{
    if inputs.len() == 0 {
        "0:a"@
    } else if inputs.last() is Audio {
        input_label(inputs.last(), distinct)
    } else {
        audio_label(inputs.drop_last(), distinct)
    }
}

/// The label of the last video input, or `0:v`.
pub open spec fn video_label(inputs: Seq<PipelineInput>, distinct: Seq<Seq<char>>) -> Seq<char>
    decreases inputs.len(),
{
    if inputs.len() == 0 {
        "0:v"@
    } else if inputs.last() is Video {
        input_label(inputs.last(), distinct)
    } else {
        video_label(inputs.drop_last(), distinct)
    }
}

/// The arguments of global options, in order.
pub open spec fn global_args(s: Seq<GlobalOption>) -> Seq<Seq<char>>
    decreases s.len(),
{
    if s.len() == 0 {
        Seq::empty()
    } else {
        global_args(s.drop_last()) + global_option_args(s.last())
    }
}

/// The arguments of output options, in order.
pub open spec fn output_args(s: Seq<OutputOption>, ctx: OutputContext) -> Seq<Seq<char>>
    decreases s.len(),
{
    if s.len() == 0 {
        Seq::empty()
    } else {
        output_args(s.drop_last(), ctx) + output_option_args(s.last(), ctx)
    }
}

/// The command line of a pipeline whose filter chain was built into
/// `graph`: global options, inputs, the filter graph, the mapping of its
/// outputs, output options, and the output path.
pub open spec fn pipeline_args(p: Pipeline, graph: FilterGraph) -> Seq<Seq<char>> {
    global_args(p.global_options@) + inputs_args(p.inputs@, distinct_paths(p.inputs@)) + arg_texts(graph.args@)
        + seq!["-map"@, graph.video_label@, "-map"@, graph.audio_label@] + output_args(
        p.output_options@,
        p.output_context,
    ) + seq![p.output.path@]
}

/// The environment variables a pipeline's ffmpeg needs: those of its
/// accelerator.
pub open spec fn pipeline_envs(p: Pipeline) -> Seq<(Seq<char>, Seq<char>)> {
    match p.accel {
        Some(a) => accel_envs(a),
        None => Seq::empty(),
    }
}

/// Whether the output options include the output container, the one
/// option whose arguments depend on the frame rate.
pub open spec fn has_format_option(s: Seq<OutputOption>) -> bool {
    exists|k: int| 0 <= k < s.len() && #[trigger] s[k] is Format
}

/// The first position of `x` in `list`, or 0 when it is absent.
fn position_in(list: &Vec<String>, x: &str) -> (res: usize)
    ensures
        res == first_position(arg_texts(list@), x@),
{
    let ghost s = arg_texts(list@);
    let n = list.len();
    let mut i: usize = 0;
    while i < n
        invariant
            n == list@.len(),
            s == arg_texts(list@),
            0 <= i <= n,
            forall|j: int| 0 <= j < i ==> s[j] != x@,
        decreases n - i,
    {
        if text_eq(list[i].as_str(), x) {
            assert(is_first_position(s, x@, i as int));
            assert(s.contains(x@));
            let ghost c = choose|k: int| is_first_position(s, x@, k);
            assert(c == i);
            return i;
        }
        i = i + 1;
    }
    assert(!s.contains(x@));
    0
}

impl PipelineInput {
    fn path_str(&self) -> (res: &str)
        ensures
            res@ == input_path(*self),
    {
        match self {
            PipelineInput::Audio { path, .. } => path.as_str(),
            PipelineInput::Video { path, .. } => path.as_str(),
        }
    }
}

impl Pipeline {
    /// The paths of the inputs, each once, in order of first use.
    fn distinct_input_paths(&self) -> (res: Vec<String>)
        ensures
            arg_texts(res@) == distinct_paths(self.inputs@),
    {
        let mut res: Vec<String> = Vec::new();
        let n = self.inputs.len();
        let mut i: usize = 0;
        assert(arg_texts(res@) =~= distinct_paths(self.inputs@.take(0)));
        while i < n
            invariant
                n == self.inputs@.len(),
                0 <= i <= n,
                arg_texts(res@) == distinct_paths(self.inputs@.take(i as int)),
            decreases n - i,
        {
            let path = self.inputs[i].path_str();
            assert(self.inputs@.take(i + 1).drop_last() =~= self.inputs@.take(i as int));
            if !contains_text(&res, path) {
                push_arg(&mut res, path);
            }
            i = i + 1;
        }
        assert(self.inputs@.take(n as int) =~= self.inputs@);
        res
    }

    fn label_of(input: &PipelineInput, distinct: &Vec<String>) -> (res: String)
        ensures
            res@ == input_label(*input, arg_texts(distinct@)),
    {
        let pos = position_in(distinct, input.path_str());
        let index = match input {
            PipelineInput::Audio { index, .. } => *index,
            PipelineInput::Video { index, .. } => *index,
        };
        let mut s = decimal_string(pos as u128);
        s.append(":");
        crate::text::append_decimal(&mut s, index as u128);
        s
    }

    fn input_arg(input: &PipelineInput, distinct: &Vec<String>) -> (res: Vec<String>)
        ensures
            arg_texts(res@) == input_args(*input, arg_texts(distinct@)),
    {
        match input {
            PipelineInput::Audio { input_source, path, decoder, .. } => {
                let mut args = decoder.as_arg();
                let ghost a0 = arg_texts(args@);
                if distinct.len() > 1 {
                    extend_args(&mut args, input_source.args_for_input());
                    push_arg(&mut args, "-i");
                    push_owned(&mut args, path.clone());
                    assert(arg_texts(args@) =~= a0 + (arg_texts(input_source.input_args@) + seq!["-i"@, path@]));
                } else {
                    assert(arg_texts(args@) =~= a0 + Seq::<Seq<char>>::empty());
                }
                args
            },
            PipelineInput::Video { input_source, path, seek, realtime, decoder, .. } => {
                let mut args = decoder.as_arg();
                if !seek.is_zero() {
                    extend_args(&mut args, args_with("-ss", decimal_with_suffix(seek.as_millis(), "ms")));
                } else {
                    assert(arg_texts(args@) =~= arg_texts(args@) + Seq::<Seq<char>>::empty());
                }
                let ghost a1 = arg_texts(args@);
                if *realtime {
                    extend_args(&mut args, args2("-readrate", "1.0"));
                } else {
                    assert(arg_texts(args@) =~= a1 + Seq::<Seq<char>>::empty());
                }
                extend_args(&mut args, input_source.args_for_input());
                push_arg(&mut args, "-i");
                push_owned(&mut args, path.clone());
                assert(arg_texts(args@) =~= input_args(*input, arg_texts(distinct@)));
                args
            },
        }
    }

    /// The labels of the audio and the video input streams, as the filter
    /// chain takes them.
    pub fn input_labels(&self) -> (res: (String, String))
        ensures
            res.0@ == audio_label(self.inputs@, distinct_paths(self.inputs@)),
            res.1@ == video_label(self.inputs@, distinct_paths(self.inputs@)),
    {
        let distinct = self.distinct_input_paths();
        let ghost d = arg_texts(distinct@);
        let mut audio = String::from_str("0:a");
        let mut video = String::from_str("0:v");
        let n = self.inputs.len();
        let mut i: usize = 0;
        while i < n
            invariant
                n == self.inputs@.len(),
                0 <= i <= n,
                d == arg_texts(distinct@),
                d == distinct_paths(self.inputs@),
                audio@ == audio_label(self.inputs@.take(i as int), d),
                video@ == video_label(self.inputs@.take(i as int), d),
            decreases n - i,
        {
            let input = &self.inputs[i];
            assert(self.inputs@.take(i + 1).drop_last() =~= self.inputs@.take(i as int));
            assert(self.inputs@.take(i + 1).last() == self.inputs@[i as int]);
            match input {
                PipelineInput::Audio { .. } => {
                    audio = Self::label_of(input, &distinct);
                },
                PipelineInput::Video { .. } => {
                    video = Self::label_of(input, &distinct);
                },
            }
            i = i + 1;
        }
        assert(self.inputs@.take(n as int) =~= self.inputs@);
        (audio, video)
    }

    /// The ffmpeg arguments of this pipeline, with its filter chain built
    /// into `graph` from the labels that `input_labels` gives.
    pub fn args(&self, graph: &FilterGraph) -> (res: Vec<String>)
        requires
            has_format_option(self.output_options@) ==> self.output_context.media_frame_rate.rounded_frame_rate
                * KEYFRAME_INTERVAL_SECONDS <= u32::MAX,
        ensures
            arg_texts(res@) == pipeline_args(*self, *graph),
    {
        let mut result: Vec<String> = Vec::new();
        let distinct = self.distinct_input_paths();
        let ghost d = arg_texts(distinct@);

        let ng = self.global_options.len();
        let mut i: usize = 0;
        while i < ng
            invariant
                ng == self.global_options@.len(),
                0 <= i <= ng,
                arg_texts(result@) == global_args(self.global_options@.take(i as int)),
            decreases ng - i,
        {
            assert(self.global_options@.take(i + 1).drop_last() =~= self.global_options@.take(i as int));
            extend_args(&mut result, self.global_options[i].as_arg());
            i = i + 1;
        }
        assert(self.global_options@.take(ng as int) =~= self.global_options@);
        let ghost g = arg_texts(result@);

        let ni = self.inputs.len();
        let mut i: usize = 0;
        assert(g + inputs_args(self.inputs@.take(0), d) =~= g);
        while i < ni
            invariant
                ni == self.inputs@.len(),
                0 <= i <= ni,
                d == arg_texts(distinct@),
                d == distinct_paths(self.inputs@),
                arg_texts(result@) == g + inputs_args(self.inputs@.take(i as int), d),
            decreases ni - i,
        {
            assert(self.inputs@.take(i + 1).drop_last() =~= self.inputs@.take(i as int));
            assert(self.inputs@.take(i + 1).last() == self.inputs@[i as int]);
            let ghost before = arg_texts(result@);
            extend_args(&mut result, Self::input_arg(&self.inputs[i], &distinct));
            assert(arg_texts(result@) =~= g + inputs_args(self.inputs@.take(i + 1), d));
            i = i + 1;
        }
        assert(self.inputs@.take(ni as int) =~= self.inputs@);

        crate::text::extend_args_from(&mut result, &graph.args);
        push_arg(&mut result, "-map");
        push_owned(&mut result, graph.video_label.clone());
        push_arg(&mut result, "-map");
        push_owned(&mut result, graph.audio_label.clone());
        let ghost h = arg_texts(result@);

        let no = self.output_options.len();
        let mut i: usize = 0;
        assert(h + output_args(self.output_options@.take(0), self.output_context) =~= h);
        while i < no
            invariant
                no == self.output_options@.len(),
                0 <= i <= no,
                has_format_option(self.output_options@) ==> self.output_context.media_frame_rate.rounded_frame_rate
                    * KEYFRAME_INTERVAL_SECONDS <= u32::MAX,
                arg_texts(result@) == h + output_args(self.output_options@.take(i as int), self.output_context),
            decreases no - i,
        {
            assert(self.output_options@.take(i + 1).drop_last() =~= self.output_options@.take(i as int));
            assert(self.output_options@.take(i + 1).last() == self.output_options@[i as int]);
            assert(self.output_options@[i as int] is Format ==> has_format_option(self.output_options@));
            extend_args(&mut result, self.output_options[i].as_arg(&self.output_context));
            assert(arg_texts(result@) =~= h + output_args(self.output_options@.take(i + 1), self.output_context));
            i = i + 1;
        }
        assert(self.output_options@.take(no as int) =~= self.output_options@);

        push_owned(&mut result, self.output.path.clone());
        assert(arg_texts(result@) =~= pipeline_args(*self, *graph));
        result
    }
}

/// The audio encoder for a requested audio format: stream copy when none
/// is requested.
pub open spec fn audio_codec_for(f: Option<AudioFormat>) -> AudioCodec {
    match f {
        Some(AudioFormat::Aac) => AudioCodec::Aac,
        Some(AudioFormat::Ac3) => AudioCodec::Ac3,
        None => AudioCodec::Copy,
    }
}

/// The software encoder for a video format; formats without one are copied.
pub open spec fn software_codec_for(format: VideoFormat) -> VideoCodecView {
    match format {
        VideoFormat::Hevc => libx265_view(),
        VideoFormat::H264 => libx264_view(),
        _ => copy_codec_view(),
    }
}

/// The bit depth to encode at: as requested, or 8.
pub open spec fn bit_depth_or_8(b: Option<u8>) -> u8 {
    match b {
        Some(d) => d,
        None => 8,
    }
}

/// The video encoder: the accelerator's encoder for the format when it has
/// one that encodes at the bit depth, otherwise the software encoder;
/// stream copy when no format is requested.
pub open spec fn chosen_video_codec(
    accel: Option<HardwareAccel>,
    video_format: Option<VideoFormat>,
    bit_depth: Option<u8>,
) -> VideoCodecView {
    match (accel, video_format) {
        (Some(a), Some(format)) => match accel_codec(a, format) {
            Some(c) => if accel_can_encode(a, format, bit_depth_or_8(bit_depth)) {
                c
            } else {
                software_codec_for(format)
            },
            None => software_codec_for(format),
        },
        (_, Some(VideoFormat::H264)) => libx264_view(),
        (_, Some(VideoFormat::Hevc)) => libx265_view(),
        _ => copy_codec_view(),
    }
}

/// The pixel format the encoder prefers at the requested bit depth.
pub open spec fn preferred_format(c: VideoCodecView, bit_depth: Option<u8>) -> Option<PixelFormat> {
    match bit_depth {
        Some(10) => c.preferred_pixel_format_10bit,
        Some(8) => c.preferred_pixel_format_8bit,
        _ => None,
    }
}

/// The accelerator the pipeline uses: the requested one, set up for the
/// input, when ffmpeg supports its method; none otherwise.
pub open spec fn final_accel(
    requested: Option<HardwareAccel>,
    result: Option<HardwareAccel>,
    info: FfmpegInfo,
    is_hdr: bool,
) -> bool {
    match requested {
        Some(a) => if lists_accel(info, accel_known(a)) {
            result matches Some(r) && accel_initialized(a, r, info, is_hdr)
        } else {
            result is None
        },
        None => result is None,
    }
}

/// The format that tone mapping produces for the requested bit depth.
pub open spec fn tone_map_format(bit_depth: Option<u8>) -> PixelFormat {
    if bit_depth == Some(10u8) {
        PixelFormat::Yuv420p10le
    } else {
        PixelFormat::Yuv420p
    }
}

/// The filters of a new pipeline: loudness normalization, resampling and
/// padding of audio; the decoder's filters; then looping, tone mapping,
/// scaling and padding of video.
pub open spec fn initial_filters(
    output: OutputSettings,
    decoder: VideoDecoder,
    vs: ProbeResultVideoStream,
    state: FrameState,
) -> Seq<PipelineFilter> {
    seq![
        PipelineFilter::Audio(AudioFilter::LoudNorm { settings: output.audio.loudness, sample_rate: output.audio.sample_rate }),
        PipelineFilter::Audio(AudioFilter::Resample),
        PipelineFilter::Audio(AudioFilter::Pad),
    ] + video_decoder_filters(decoder) + seq![
        PipelineFilter::Video(VideoFilter::Loop { codec: vs.codec }),
        PipelineFilter::Video(VideoFilter::ToneMap { algorithm: output.tonemap_algorithm, format: tone_map_format(output.bit_depth) }),
        PipelineFilter::Video(
            VideoFilter::Scale {
                size: match output.video_size {
                    Some(s) => Some(fitted_size(s, display_size(state))),
                    None => None,
                },
                input_is_anamorphic: anamorphic(vs),
                force_original_aspect_ratio: None,
            },
        ),
        PipelineFilter::Video(VideoFilter::Pad { size: output.video_size }),
    ]
}

/// The length of output: the shorter of the audio and the video parts.
pub open spec fn output_duration(input: InputSettings) -> TimeSpan {
    let a = (input.audio_input.out_point.nanos - input.audio_input.in_point.nanos) as u128;
    let v = (input.video_input.out_point.nanos - input.video_input.in_point.nanos) as u128;
    TimeSpan { nanos: if a <= v { a } else { v } }
}

/// `p` is the pipeline built from the inputs and output settings, where
/// `vs` and `aus` are the video and audio streams selected from them.
pub open spec fn built_from(
    p: Pipeline,
    info: FfmpegInfo,
    input: InputSettings,
    output: OutputSettings,
    vs: ProbeResultVideoStream,
    aus: ProbeResultAudioStream,
) -> bool {
    let is_hdr = is_hdr_transfer(vs.color_params.color_transfer);
    let codec = chosen_video_codec(p.accel, output.video_format, output.bit_depth);
    let ctx = p.output_context;
    let opts = p.output_options@;
    &&& final_accel(output.accel, p.accel, info, is_hdr)
    &&& arg_texts(p.ffmpeg_info.hwaccels@) == arg_texts(info.hwaccels@)
    &&& arg_texts(p.ffmpeg_info.video_filters@) == arg_texts(info.video_filters@)
    &&& arg_texts(p.ffmpeg_info.preferred_filters@) == arg_texts(info.preferred_filters@)
    &&& ctx.audio_codec == audio_codec_for(output.audio.format)
    &&& ctx.audio_channels == output.audio.channels
    &&& ctx.video_codec@ == codec
    &&& ctx.pts_offset == output.pts_offset
    &&& ctx.media_frame_rate == vs.frame_rate
    &&& ctx.preferred_surface == if codec.is_hardware {
        match p.accel {
            Some(a) => accel_encoder_surface(a),
            None => FrameSurface::System,
        }
    } else {
        FrameSurface::System
    }
    &&& ctx.preferred_pixel_format == preferred_format(codec, output.bit_depth)
    &&& p.inputs@.len() == 2
    &&& p.inputs@[0] matches PipelineInput::Audio { input_source, index, path, seek, channels, decoder } && {
        &&& arg_texts(input_source.input_args@) == arg_texts(input.audio_input.input_source.input_args@)
        &&& index == aus.stream_index
        &&& path@ == input.audio_input.probe_result.path@
        &&& seek == input.audio_input.in_point
        &&& channels == aus.channels
        &&& decoder.input_codec == aus.codec
        &&& decoder.input_channels == aus.channels
        &&& decoder.output_channels == output.audio.channels
    }
    &&& p.inputs@[1] matches PipelineInput::Video { input_source, index, path, seek, realtime, decoder } && {
        &&& arg_texts(input_source.input_args@) == arg_texts(input.video_input.input_source.input_args@)
        &&& index == vs.stream_index
        &&& path@ == input.video_input.probe_result.path@
        &&& seek == input.video_input.in_point
        &&& realtime == output.realtime
        &&& chosen_decoder(
            decoder,
            vs,
            input.video_input.probe_result.duration is None && input.video_input.probe_result.streams@.len() == 1,
            OutputSettings { accel: p.accel, ..output },
        )
        &&& p.initial_state == (FrameState {
            size: FrameSize { width: vs.width, height: vs.height },
            is_anamorphic: anamorphic(vs),
            sample_aspect_ratio: vs.sample_aspect_ratio,
            display_aspect_ratio: vs.display_aspect_ratio,
            surface: video_decoder_surface(decoder),
            pixel_format: parsed_pixel_format(vs.pix_fmt@),
            is_hdr,
        })
        &&& p.filter_chain.filters@ == initial_filters(output, decoder, vs, p.initial_state)
    }
    &&& p.filter_chain.audio_enabled
    &&& p.filter_chain.video_enabled
    &&& p.global_options@ == seq![
        GlobalOption::Threads(if p.accel is Some { 1u32 } else { 0u32 }),
        GlobalOption::NoStdIn,
        GlobalOption::HideBanner,
        GlobalOption::LogLevel(LogLevel::Error),
        GlobalOption::StandardFormatFlags,
    ]
    &&& opts.len() == 16
    &&& opts[0] == OutputOption::NoDemuxDecodeDelay
    &&& opts[1] == OutputOption::MovFlagsFastStart
    &&& opts[2] == OutputOption::CudaNoAutoScale
    &&& opts[3] == OutputOption::AudioCodec(audio_codec_for(output.audio.format))
    &&& opts[4] == OutputOption::AudioBitrate(output.audio.bitrate)
    &&& opts[5] == OutputOption::AudioBuffer(output.audio.buffer)
    &&& opts[6] == OutputOption::AudioChannels(output.audio.channels)
    &&& opts[7] == OutputOption::AudioSampleRate(output.audio.sample_rate)
    &&& opts[8] matches OutputOption::VideoCodec(c) && c@ == codec
    &&& opts[9] == OutputOption::VideoBitrate(output.video_bitrate)
    &&& opts[10] == OutputOption::VideoBuffer(output.video_buffer)
    &&& opts[11] == OutputOption::DoNotMapMetadata
    &&& opts[12] == OutputOption::Format(output.format)
    &&& opts[13] == OutputOption::Duration(output_duration(input))
    &&& opts[14] == OutputOption::TsOffset(output.pts_offset)
    &&& opts[15] == OutputOption::FrameRate(output.frame_rate)
    &&& p.output.path@ == output_path(output.format)
}

/// What building a pipeline gives: the video input needs a video stream,
/// the audio input an audio stream; otherwise the pipeline is built from
/// the streams the selection rules pick.
pub open spec fn pipeline_result(
    res: Result<Pipeline, FFPipelineError>,
    info: FfmpegInfo,
    input: InputSettings,
    output: OutputSettings,
) -> bool {
    let vstreams = input.video_input.probe_result.streams@;
    let astreams = input.audio_input.probe_result.streams@;
    if !has_video(vstreams) {
        res == Err::<Pipeline, FFPipelineError>(FFPipelineError::VideoInputIsRequired)
    } else if !has_audio(astreams) {
        res == Err::<Pipeline, FFPipelineError>(FFPipelineError::AudioInputIsRequired)
    } else {
        res matches Ok(p) && exists|kv: int, ka: int|
            selects_video(vstreams, input.video_input.video_index, kv) && selects_audio(
                astreams,
                input.audio_input.audio_index,
                ka,
            ) && #[trigger] built_from(p, info, input, output, video_at(vstreams[kv]).unwrap(), audio_at(astreams[ka]).unwrap())
    }
}

/// Whether neither input ends before it starts.
pub open spec fn input_spans_valid(input: InputSettings) -> bool {
    &&& input.audio_input.in_point.nanos <= input.audio_input.out_point.nanos
    &&& input.video_input.in_point.nanos <= input.video_input.out_point.nanos
}

impl Pipeline {
    fn software_codec(format: VideoFormat) -> (res: VideoCodec)
        ensures
            res@ == software_codec_for(format),
    {
        match format {
            VideoFormat::Hevc => VideoCodec::libx265(),
            VideoFormat::H264 => VideoCodec::libx264(),
            _ => VideoCodec::copy(),
        }
    }

    fn choose_video_codec(accel: &Option<HardwareAccel>, video_format: Option<VideoFormat>, bit_depth: Option<u8>) -> (res: VideoCodec)
        ensures
            res@ == chosen_video_codec(*accel, video_format, bit_depth),
    {
        match (accel, video_format) {
            (Some(a), Some(format)) => {
                let depth = match bit_depth {
                    Some(d) => d,
                    None => 8,
                };
                match a.codec_for_format(&format) {
                    Some(c) => {
                        if a.can_encode(&format, depth) {
                            c
                        } else {
                            Self::software_codec(format)
                        }
                    },
                    None => Self::software_codec(format),
                }
            },
            (_, Some(VideoFormat::H264)) => VideoCodec::libx264(),
            (_, Some(VideoFormat::Hevc)) => VideoCodec::libx265(),
            _ => VideoCodec::copy(),
        }
    }

    fn select_video_stream(input_settings: &InputSettings) -> (res: Result<&ProbeResultVideoStream, FFPipelineError>)
        ensures
            match res {
                Ok(v) => exists|k: int|
                    selects_video(input_settings.video_input.probe_result.streams@, input_settings.video_input.video_index, k)
                        && video_at(#[trigger] input_settings.video_input.probe_result.streams@[k]) == Some(*v),
                Err(e) => e == FFPipelineError::VideoInputIsRequired && !has_video(
                    input_settings.video_input.probe_result.streams@,
                ),
            },
    {
        let streams = &input_settings.video_input.probe_result.streams;
        match video_stream_position(streams, input_settings.video_input.video_index) {
            Some(k) => match &streams[k] {
                ProbeResultStream::Video(v) => Ok(&**v),
                ProbeResultStream::Audio(_) => {
                    assert(false);
                    Err(FFPipelineError::VideoInputIsRequired)
                },
            },
            None => Err(FFPipelineError::VideoInputIsRequired),
        }
    }

    fn select_audio_stream(input_settings: &InputSettings) -> (res: Result<&ProbeResultAudioStream, FFPipelineError>)
        ensures
            match res {
                Ok(a) => exists|k: int|
                    selects_audio(input_settings.audio_input.probe_result.streams@, input_settings.audio_input.audio_index, k)
                        && audio_at(#[trigger] input_settings.audio_input.probe_result.streams@[k]) == Some(*a),
                Err(e) => e == FFPipelineError::AudioInputIsRequired && !has_audio(
                    input_settings.audio_input.probe_result.streams@,
                ),
            },
    {
        let streams = &input_settings.audio_input.probe_result.streams;
        match audio_stream_position(streams, input_settings.audio_input.audio_index) {
            Some(k) => match &streams[k] {
                ProbeResultStream::Audio(a) => Ok(a),
                ProbeResultStream::Video(_) => {
                    assert(false);
                    Err(FFPipelineError::AudioInputIsRequired)
                },
            },
            None => Err(FFPipelineError::AudioInputIsRequired),
        }
    }
}

impl Pipeline {
    /// The pipeline that normalizes the inputs to the output settings.
    pub fn full(
        ffmpeg_info: &FfmpegInfo,
        input_settings: InputSettings,
        output_settings: OutputSettings,
    ) -> (res: Result<Pipeline, FFPipelineError>)
        requires
            input_spans_valid(input_settings),
        ensures
            pipeline_result(res, *ffmpeg_info, input_settings, output_settings),
    {
        let ghost output0 = output_settings;
        let OutputSettings {
            accel,
            audio,
            video_format,
            bit_depth,
            video_size,
            video_bitrate,
            video_buffer,
            frame_rate,
            tonemap_algorithm,
            pts_offset,
            realtime,
            format,
        } = output_settings;

        let supported_accel = match accel {
            Some(a) => {
                let known = a.known_accel();
                if ffmpeg_info.has_hw_accel(&known) {
                    Some(a)
                } else {
                    None
                }
            },
            None => None,
        };

        let duration = TimeSpan::min(
            input_settings.audio_input.out_point.minus(&input_settings.audio_input.in_point),
            input_settings.video_input.out_point.minus(&input_settings.video_input.in_point),
        );

        let audio_codec = match audio.format {
            Some(AudioFormat::Aac) => AudioCodec::Aac,
            Some(AudioFormat::Ac3) => AudioCodec::Ac3,
            None => AudioCodec::Copy,
        };

        let video_stream = match Self::select_video_stream(&input_settings) {
            Ok(v) => v,
            Err(e) => {
                return Err(e);
            },
        };
        let audio_stream = match Self::select_audio_stream(&input_settings) {
            Ok(a) => a,
            Err(e) => {
                return Err(e);
            },
        };

        let is_hdr = video_stream.color_params.is_hdr();
        let final_accel = match &supported_accel {
            Some(a) => Some(a.initialize(ffmpeg_info, is_hdr)),
            None => None,
        };

        let video_codec = Self::choose_video_codec(&final_accel, video_format, bit_depth);
        let output_path = format.path();
        let is_still_image = input_settings.video_input.probe_result.is_still_image();

        let settings = OutputSettings {
            accel: final_accel,
            audio,
            video_format,
            bit_depth,
            video_size,
            video_bitrate,
            video_buffer,
            frame_rate,
            tonemap_algorithm,
            pts_offset,
            realtime,
            format,
        };
        let video_decoder = VideoDecoder::new(video_stream, is_still_image, &settings);
        let audio_decoder = AudioDecoder::new(audio_stream, &settings);
        let OutputSettings {
            accel: final_accel,
            audio,
            video_format,
            bit_depth,
            video_size,
            video_bitrate,
            video_buffer,
            frame_rate,
            tonemap_algorithm,
            pts_offset,
            realtime,
            format,
        } = settings;

        let initial_state = FrameState {
            size: FrameSize { width: video_stream.width, height: video_stream.height },
            is_anamorphic: Self::is_anamorphic(video_stream),
            sample_aspect_ratio: copy_opt_string(&video_stream.sample_aspect_ratio),
            display_aspect_ratio: copy_opt_string(&video_stream.display_aspect_ratio),
            surface: video_decoder.output_surface(),
            pixel_format: video_decoder.output_format(&PixelFormat::parse(video_stream.pix_fmt.as_str())),
            is_hdr,
        };

        let initial_scaled_size = match &video_size {
            Some(s) => Some(s.square_pixel_size(&initial_state)),
            None => None,
        };

        let preferred_pixel_format = match bit_depth {
            Some(10) => video_codec.preferred_pixel_format_10bit,
            Some(8) => video_codec.preferred_pixel_format_8bit,
            _ => None,
        };

        let preferred_surface = if video_codec.is_hardware {
            match &final_accel {
                Some(a) => a.encoder_frame_surface(),
                None => FrameSurface::System,
            }
        } else {
            FrameSurface::System
        };

        let output_context = OutputContext {
            audio_codec,
            audio_channels: audio.channels,
            video_codec: video_codec.duplicate(),
            pts_offset,
            media_frame_rate: video_stream.frame_rate.duplicate(),
            preferred_surface,
            preferred_pixel_format,
        };

        let mut filters: Vec<PipelineFilter> = Vec::new();
        filters.push(
            PipelineFilter::Audio(
                AudioFilter::LoudNorm { settings: copy_loudness(&audio.loudness), sample_rate: audio.sample_rate },
            ),
        );
        filters.push(PipelineFilter::Audio(AudioFilter::Resample));
        filters.push(PipelineFilter::Audio(AudioFilter::Pad));
        let mut decoder_filters = video_decoder.filters();
        filters.append(&mut decoder_filters);
        filters.push(PipelineFilter::Video(VideoFilter::Loop { codec: video_stream.codec.clone() }));
        filters.push(
            PipelineFilter::Video(
                VideoFilter::ToneMap {
                    algorithm: copy_opt_string(&tonemap_algorithm),
                    format: match bit_depth {
                        Some(10) => PixelFormat::Yuv420p10le,
                        _ => PixelFormat::Yuv420p,
                    },
                },
            ),
        );
        filters.push(
            PipelineFilter::Video(
                VideoFilter::Scale {
                    size: initial_scaled_size,
                    input_is_anamorphic: initial_state.is_anamorphic,
                    force_original_aspect_ratio: None,
                },
            ),
        );
        filters.push(PipelineFilter::Video(VideoFilter::Pad { size: video_size }));
        assert(filters@ =~= initial_filters(output0, video_decoder, *video_stream, initial_state));

        let mut global_options: Vec<GlobalOption> = Vec::new();
        global_options.push(
            GlobalOption::Threads(
                match &final_accel {
                    Some(_) => 1,
                    None => 0,
                },
            ),
        );
        global_options.push(GlobalOption::NoStdIn);
        global_options.push(GlobalOption::HideBanner);
        global_options.push(GlobalOption::LogLevel(LogLevel::Error));
        global_options.push(GlobalOption::StandardFormatFlags);
        assert(global_options@ =~= seq![
            GlobalOption::Threads(if final_accel is Some { 1u32 } else { 0u32 }),
            GlobalOption::NoStdIn,
            GlobalOption::HideBanner,
            GlobalOption::LogLevel(LogLevel::Error),
            GlobalOption::StandardFormatFlags,
        ]);

        let mut inputs: Vec<PipelineInput> = Vec::new();
        inputs.push(
            PipelineInput::Audio {
                input_source: input_settings.audio_input.input_source.duplicate(),
                index: audio_stream.stream_index,
                path: input_settings.audio_input.probe_result.path.clone(),
                seek: input_settings.audio_input.in_point,
                channels: audio_stream.channels,
                decoder: audio_decoder,
            },
        );
        inputs.push(
            PipelineInput::Video {
                input_source: input_settings.video_input.input_source.duplicate(),
                index: video_stream.stream_index,
                path: input_settings.video_input.probe_result.path.clone(),
                seek: input_settings.video_input.in_point,
                realtime,
                decoder: video_decoder,
            },
        );

        let mut output_options: Vec<OutputOption> = Vec::new();
        output_options.push(OutputOption::NoDemuxDecodeDelay);
        output_options.push(OutputOption::MovFlagsFastStart);
        output_options.push(OutputOption::CudaNoAutoScale);
        output_options.push(OutputOption::AudioCodec(audio_codec));
        output_options.push(OutputOption::AudioBitrate(audio.bitrate));
        output_options.push(OutputOption::AudioBuffer(audio.buffer));
        output_options.push(OutputOption::AudioChannels(audio.channels));
        output_options.push(OutputOption::AudioSampleRate(audio.sample_rate));
        output_options.push(OutputOption::VideoCodec(video_codec));
        output_options.push(OutputOption::VideoBitrate(video_bitrate));
        output_options.push(OutputOption::VideoBuffer(video_buffer));
        output_options.push(OutputOption::DoNotMapMetadata);
        output_options.push(OutputOption::Format(format));
        output_options.push(OutputOption::Duration(duration));
        output_options.push(OutputOption::TsOffset(pts_offset));
        output_options.push(OutputOption::FrameRate(frame_rate));

        let pipeline = Pipeline {
            ffmpeg_info: ffmpeg_info.duplicate(),
            accel: final_accel,
            initial_state,
            global_options,
            inputs,
            filter_chain: FilterChain::new(filters),
            output_options,
            output: PipelineOutput { path: output_path },
            output_context,
        };
        proof {
            let vstreams = input_settings.video_input.probe_result.streams@;
            let astreams = input_settings.audio_input.probe_result.streams@;
            let kv = choose|k: int| selects_video(vstreams, input_settings.video_input.video_index, k)
                && video_at(#[trigger] vstreams[k]) == Some(*video_stream);
            let ka = choose|k: int| selects_audio(astreams, input_settings.audio_input.audio_index, k)
                && audio_at(#[trigger] astreams[k]) == Some(*audio_stream);
            assert(built_from(pipeline, *ffmpeg_info, input_settings, output0, *video_stream, *audio_stream));
            assert(built_from(pipeline, *ffmpeg_info, input_settings, output0, video_at(vstreams[kv]).unwrap(), audio_at(astreams[ka]).unwrap()));
        }
        Ok(pipeline)
    }
}

/// The pipeline that normalizes the inputs to the output settings.
pub fn generate_pipeline(
    ffmpeg_info: &FfmpegInfo,
    input_settings: InputSettings,
    output_settings: OutputSettings,
) -> (res: Result<Pipeline, FFPipelineError>)
    requires
        input_spans_valid(input_settings),
    ensures
        pipeline_result(res, *ffmpeg_info, input_settings, output_settings),
{
    Pipeline::full(ffmpeg_info, input_settings, output_settings)
}

} // verus!
