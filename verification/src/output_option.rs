//! Options of the output file.
use vstd::prelude::*;

use crate::audio_codec::{audio_codec_name, AudioCodec};
use crate::frame_rate::FrameRate;
use crate::output_format::{has_positive_offset, output_format_args, OutputFormat};
use crate::pipeline::{Hz, Kbps, OutputContext, PtsOffset, KEYFRAME_INTERVAL_SECONDS};
use crate::text::{arg_texts, args1, args2, args4, args_with, decimal, decimal_string, decimal_with_suffix, push_arg, push_owned};
use crate::timespan::TimeSpan;
use crate::video_codec::{video_codec_args, VideoCodec};

verus! {

/// An option of the output file.
#[derive(Clone, Debug)]
pub enum OutputOption {
    Format(OutputFormat),
    VideoCodec(VideoCodec),
    VideoBitrate(Option<Kbps>),
    VideoBuffer(Option<Kbps>),
    AudioCodec(AudioCodec),
    AudioBitrate(Option<Kbps>),
    AudioBuffer(Option<Kbps>),
    AudioChannels(Option<u32>),
    AudioSampleRate(Option<Hz>),
    Duration(TimeSpan),
    TsOffset(Option<PtsOffset>),
    CudaNoAutoScale,
    NoDemuxDecodeDelay,
    MovFlagsFastStart,
    DoNotMapMetadata,
    FrameRate(Option<FrameRate>),
}

/// `n` kilobits per second, as ffmpeg reads it.
pub open spec fn kbps_text(n: u32) -> Seq<char> {
    decimal(n as nat) + "k"@
}

/// `n` milliseconds, as ffmpeg reads it.
pub open spec fn millis_text(t: TimeSpan) -> Seq<char> {
    decimal(t.millis()) + "ms"@
}

/// The arguments of an output option.
pub open spec fn output_option_args(o: OutputOption, ctx: OutputContext) -> Seq<Seq<char>> {
    match o {
        OutputOption::Format(f) => output_format_args(f, ctx),
        OutputOption::VideoCodec(c) => video_codec_args(c@),
        OutputOption::VideoBitrate(Some(b)) => seq!["-b:v"@, kbps_text(b.0), "-maxrate:v"@, kbps_text(b.0)],
        OutputOption::VideoBuffer(Some(b)) => seq!["-bufsize:v"@, kbps_text(b.0)],
        OutputOption::AudioCodec(c) => seq!["-acodec"@, audio_codec_name(c)],
        OutputOption::AudioBitrate(Some(b)) => seq!["-b:a"@, kbps_text(b.0), "-maxrate:a"@, kbps_text(b.0)],
        OutputOption::AudioBuffer(Some(b)) => seq!["-bufsize:a"@, kbps_text(b.0)],
        OutputOption::AudioChannels(Some(c)) => seq!["-ac"@, decimal(c as nat)],
        OutputOption::AudioSampleRate(Some(hz)) => seq!["-ar"@, decimal(hz.0 as nat)],
        OutputOption::Duration(d) => seq!["-t"@, millis_text(d)],
        OutputOption::TsOffset(p) => if has_positive_offset(p) {
            seq!["-output_ts_offset"@, millis_text(p.unwrap().duration)]
        } else {
            Seq::empty()
        },
        OutputOption::CudaNoAutoScale => seq!["-noautoscale"@],
        OutputOption::NoDemuxDecodeDelay => seq!["-muxdelay"@, "0"@, "-muxpreload"@, "0"@],
        OutputOption::MovFlagsFastStart => seq!["-movflags"@, "+faststart"@],
        OutputOption::DoNotMapMetadata => seq!["-map_metadata"@, "-1"@],
        OutputOption::FrameRate(Some(fr)) => seq!["-r"@, fr.r_frame_rate@, "-vsync"@, "cfr"@],
        _ => Seq::empty(),
    }
}

fn rate_args(a: &str, b: &str, kbps: u32) -> (res: Vec<String>)
    ensures
        arg_texts(res@) == seq![a@, kbps_text(kbps), b@, kbps_text(kbps)],
{
    let mut v: Vec<String> = Vec::new();
    push_arg(&mut v, a);
    push_owned(&mut v, decimal_with_suffix(kbps as u128, "k"));
    push_arg(&mut v, b);
    push_owned(&mut v, decimal_with_suffix(kbps as u128, "k"));
    assert(arg_texts(v@) =~= seq![a@, kbps_text(kbps), b@, kbps_text(kbps)]);
    v
}

fn no_args() -> (res: Vec<String>)
    ensures
        arg_texts(res@) == Seq::<Seq<char>>::empty(),
{
    let v: Vec<String> = Vec::new();
    assert(arg_texts(v@) =~= Seq::<Seq<char>>::empty());
    v
}

impl OutputOption {
    /// The option's arguments.
    pub fn as_arg(&self, output_context: &OutputContext) -> (res: Vec<String>)
        requires
            *self is Format ==> output_context.media_frame_rate.rounded_frame_rate * KEYFRAME_INTERVAL_SECONDS
                <= u32::MAX,
        ensures
            arg_texts(res@) == output_option_args(*self, *output_context),
    {
        match self {
            OutputOption::Format(format) => format.as_arg(output_context),
            OutputOption::VideoCodec(codec) => codec.as_arg(),
            OutputOption::VideoBitrate(Some(bitrate_kbps)) => rate_args("-b:v", "-maxrate:v", bitrate_kbps.0),
            OutputOption::VideoBitrate(None) => no_args(),
            OutputOption::VideoBuffer(Some(buffer_kbps)) => args_with(
                "-bufsize:v",
                decimal_with_suffix(buffer_kbps.0 as u128, "k"),
            ),
            OutputOption::VideoBuffer(None) => no_args(),
            OutputOption::AudioCodec(codec) => codec.as_arg(),
            OutputOption::AudioBitrate(Some(bitrate_kbps)) => rate_args("-b:a", "-maxrate:a", bitrate_kbps.0),
            OutputOption::AudioBitrate(None) => no_args(),
            OutputOption::AudioBuffer(Some(buffer_kbps)) => args_with(
                "-bufsize:a",
                decimal_with_suffix(buffer_kbps.0 as u128, "k"),
            ),
            OutputOption::AudioBuffer(None) => no_args(),
            OutputOption::AudioChannels(Some(channels)) => args_with("-ac", decimal_string(*channels as u128)),
            OutputOption::AudioChannels(None) => no_args(),
            OutputOption::AudioSampleRate(Some(sample_rate)) => args_with("-ar", decimal_string(sample_rate.0 as u128)),
            OutputOption::AudioSampleRate(None) => no_args(),
            OutputOption::Duration(duration) => args_with("-t", decimal_with_suffix(duration.as_millis(), "ms")),
            OutputOption::TsOffset(Some(pts_offset)) => {
                if pts_offset.duration.nanos > 0 {
                    args_with("-output_ts_offset", decimal_with_suffix(pts_offset.duration.as_millis(), "ms"))
                } else {
                    no_args()
                }
            },
            OutputOption::TsOffset(None) => no_args(),
            OutputOption::CudaNoAutoScale => args1("-noautoscale"),
            OutputOption::NoDemuxDecodeDelay => args4("-muxdelay", "0", "-muxpreload", "0"),
            OutputOption::MovFlagsFastStart => args2("-movflags", "+faststart"),
            OutputOption::DoNotMapMetadata => args2("-map_metadata", "-1"),
            OutputOption::FrameRate(Some(frame_rate)) => {
                let mut v: Vec<String> = Vec::new();
                push_arg(&mut v, "-r");
                push_owned(&mut v, frame_rate.r_frame_rate.clone());
                push_arg(&mut v, "-vsync");
                push_arg(&mut v, "cfr");
                assert(arg_texts(v@) =~= seq!["-r"@, frame_rate.r_frame_rate@, "-vsync"@, "cfr"@]);
                v
            },
            OutputOption::FrameRate(None) => no_args(),
        }
    }
}

} // verus!

verus! {

/// Groups of output options that the pipeline drops when they do not
/// apply.
#[derive(Clone, Copy, Debug, PartialEq, Eq, Structural)]
pub enum OptionGroup {
    /// Audio bit rate, buffer, channel count and sample rate.
    AudioTuning,
    /// The audio channel count.
    AudioChannels,
    /// Video bit rate and buffer.
    VideoTuning,
}

/// Whether an option belongs to a group.
pub open spec fn in_group(o: OutputOption, g: OptionGroup) -> bool {
    match g {
        OptionGroup::AudioTuning => o is AudioBitrate || o is AudioBuffer || o is AudioChannels || o is AudioSampleRate,
        OptionGroup::AudioChannels => o is AudioChannels,
        OptionGroup::VideoTuning => o is VideoBitrate || o is VideoBuffer,
    }
}

/// The options not in the group, in order.
pub open spec fn without_group(s: Seq<OutputOption>, g: OptionGroup) -> Seq<OutputOption>
    decreases s.len(),
{
    if s.len() == 0 {
        Seq::empty()
    } else if in_group(s[0], g) {
        without_group(s.drop_first(), g)
    } else {
        seq![s[0]] + without_group(s.drop_first(), g)
    }
}

fn option_in_group(o: &OutputOption, g: OptionGroup) -> (res: bool)
    ensures
        res == in_group(*o, g),
{
    match g {
        OptionGroup::AudioTuning => match o {
            OutputOption::AudioBitrate(_) | OutputOption::AudioBuffer(_) | OutputOption::AudioChannels(_)
            | OutputOption::AudioSampleRate(_) => true,
            _ => false,
        },
        OptionGroup::AudioChannels => match o {
            OutputOption::AudioChannels(_) => true,
            _ => false,
        },
        OptionGroup::VideoTuning => match o {
            OutputOption::VideoBitrate(_) | OutputOption::VideoBuffer(_) => true,
            _ => false,
        },
    }
}

/// Drops the options of a group, keeping the others in order.
pub fn remove_group(options: &mut Vec<OutputOption>, g: OptionGroup)
    ensures
        final(options)@ == without_group(old(options)@, g),
{
    let ghost start = options@;
    let mut i: usize = options.len();
    assert(start.skip(i as int) =~= Seq::<OutputOption>::empty());
    assert(start.take(i as int) =~= start);
    while i > 0
        invariant
            0 <= i <= start.len(),
            options@ == start.take(i as int) + without_group(start.skip(i as int), g),
        decreases i,
    {
        i = i - 1;
        assert(start.skip(i as int).drop_first() =~= start.skip(i + 1));
        assert(start.skip(i as int)[0] == start[i as int]);
        assert(start.take(i + 1) =~= start.take(i as int).push(start[i as int]));
        assert(options@[i as int] == start[i as int]);
        if option_in_group(&options[i], g) {
            let _ = options.remove(i);
            assert(options@ =~= start.take(i as int) + without_group(start.skip(i as int), g));
        } else {
            assert(options@ =~= start.take(i as int) + without_group(start.skip(i as int), g));
        }
    }
    assert(start.skip(0) =~= start);
}

} // verus!
