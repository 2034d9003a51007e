//! Properties that hold across the library's functions.
use vstd::prelude::*;

use crate::ffmpeg_info::{
    accels_in_lines, filters_in_lines, hw_accel_name, is_known_hw_accel_name, is_known_video_filter_name, kept_if_available,
    video_filter_name, KnownHardwareAccel, KnownVideoFilter,
};
use crate::frame_size::{decimal_value, digit_value, first_index, fitted_size, is_digit, ratio_parts, FrameSize};
use crate::output_option::{in_group, without_group, OptionGroup, OutputOption};
use crate::audio_codec::AudioCodec;
use crate::error::FFPipelineError;
use crate::ffmpeg_info::{lists_accel, FfmpegInfo};
use crate::hw_accel::{accel_known, lemma_initialized_agree, lemma_same_accel_agrees};
use crate::input::InputSettings;
use crate::output_option::output_option_args;
use crate::output_settings::OutputSettings;
use crate::pipeline::{
    built_from, channels_already_match, chosen_video_codec, distinct_paths, input_args, input_path, inputs_args,
    optimized_options, output_args, pipeline_args, pipeline_envs, pipeline_result, OutputContext, Pipeline,
    PipelineInput,
};
use crate::probe::{audio_at, has_audio, has_video, is_hdr_transfer, video_at, ProbeResultAudioStream, ProbeResultVideoStream};
use crate::video_codec::is_copy_view;
use crate::filter_chain::FilterGraph;
use crate::probe::{selects_audio, selects_video, ProbeResultStream};
use crate::text::{decimal, digit_char, dims_text};

verus! {

/// The length and first character of a name.
spec fn name_key(s: Seq<char>) -> (nat, char) {
    (s.len(), s[0])
}

spec fn accel_key(a: KnownHardwareAccel) -> (nat, char) {
    match a {
        KnownHardwareAccel::Cuda => (4, 'c'),
        KnownHardwareAccel::Qsv => (3, 'q'),
        KnownHardwareAccel::Vaapi => (5, 'v'),
        KnownHardwareAccel::VideoToolbox => (12, 'v'),
        KnownHardwareAccel::Vulkan => (6, 'v'),
        KnownHardwareAccel::Opencl => (6, 'o'),
    }
}

proof fn lemma_accel_key(a: KnownHardwareAccel)
    ensures
        name_key(hw_accel_name(a)) == accel_key(a),
{
    reveal_strlit("cuda");
    reveal_strlit("qsv");
    reveal_strlit("vaapi");
    reveal_strlit("videotoolbox");
    reveal_strlit("vulkan");
    reveal_strlit("opencl");
}

/// ffmpeg's name of a hardware acceleration method identifies the method.
pub proof fn lemma_hw_accel_names_distinct(a: KnownHardwareAccel, b: KnownHardwareAccel)
    requires
        hw_accel_name(a) == hw_accel_name(b),
    ensures
        a == b,
{
    lemma_accel_key(a);
    lemma_accel_key(b);
}

spec fn filter_key(f: KnownVideoFilter) -> (nat, char) {
    match f {
        KnownVideoFilter::Bwdif => (5, 'b'),
        KnownVideoFilter::LibPlacebo => (10, 'l'),
        KnownVideoFilter::PadCuda => (8, 'p'),
        KnownVideoFilter::PadVaapi => (9, 'p'),
        KnownVideoFilter::ScaleCuda => (10, 's'),
        KnownVideoFilter::ScaleVaapi => (11, 's'),
        KnownVideoFilter::ScaleVulkan => (12, 's'),
        KnownVideoFilter::TonemapOpencl => (14, 't'),
        KnownVideoFilter::VppQsv => (7, 'v'),
        KnownVideoFilter::W3fdif => (6, 'w'),
        KnownVideoFilter::Yadif => (5, 'y'),
    }
}

proof fn lemma_filter_key(f: KnownVideoFilter)
    ensures
        name_key(video_filter_name(f)) == filter_key(f),
{
    reveal_strlit("bwdif");
    reveal_strlit("libplacebo");
    reveal_strlit("pad_cuda");
    reveal_strlit("pad_vaapi");
    reveal_strlit("scale_cuda");
    reveal_strlit("scale_vaapi");
    reveal_strlit("scale_vulkan");
    reveal_strlit("tonemap_opencl");
    reveal_strlit("vpp_qsv");
    reveal_strlit("w3fdif");
    reveal_strlit("yadif");
}

/// ffmpeg's name of a known video filter identifies the filter.
pub proof fn lemma_video_filter_names_distinct(a: KnownVideoFilter, b: KnownVideoFilter)
    requires
        video_filter_name(a) == video_filter_name(b),
    ensures
        a == b,
{
    lemma_filter_key(a);
    lemma_filter_key(b);
}

proof fn lemma_digit_char(d: nat)
    requires
        d < 10,
    ensures
        is_digit(digit_char(d)),
        digit_value(digit_char(d)) == d,
{
}

/// The digits of a number are all decimal digits.
proof fn lemma_decimal_digits(n: nat)
    ensures
        decimal(n).len() > 0,
        forall|i: int| 0 <= i < decimal(n).len() ==> is_digit(#[trigger] decimal(n)[i]),
    decreases n,
{
    lemma_digit_char(n % 10);
    if n >= 10 {
        lemma_decimal_digits(n / 10);
    }
}

/// Reading back the decimal text of a number gives the number.
pub proof fn lemma_decimal_round_trip(n: nat)
    ensures
        decimal_value(decimal(n)) == Some(n),
    decreases n,
{
    lemma_digit_char(n % 10);
    if n >= 10 {
        lemma_decimal_round_trip(n / 10);
        lemma_decimal_digits(n / 10);
        assert(decimal(n).drop_last() =~= decimal(n / 10));
    }
}

proof fn lemma_first_index_past_digits(a: Seq<char>, b: Seq<char>)
    requires
        forall|i: int| 0 <= i < a.len() ==> is_digit(#[trigger] a[i]),
        b.len() > 0,
        b[0] == ':',
    ensures
        first_index(a + b, ':') == a.len(),
    decreases a.len(),
{
    if a.len() > 0 {
        assert((a + b).drop_first() =~= a.drop_first() + b);
        assert(is_digit(a[0]));
        lemma_first_index_past_digits(a.drop_first(), b);
    } else {
        assert(a + b =~= b);
    }
}

/// Reading back the text `w:h` of a frame size gives its width and height.
pub proof fn lemma_dims_ratio_round_trip(w: u32, h: u32)
    ensures
        ratio_parts(dims_text(w, h)) == Some((w, h)),
{
    reveal_strlit(":");
    let dw = decimal(w as nat);
    let dh = decimal(h as nat);
    let t = dims_text(w, h);
    lemma_decimal_digits(w as nat);
    lemma_decimal_digits(h as nat);
    lemma_decimal_round_trip(w as nat);
    lemma_decimal_round_trip(h as nat);
    assert(t =~= dw + (":"@ + dh));
    lemma_first_index_past_digits(dw, ":"@ + dh);
    assert(t.subrange(0, dw.len() as int) =~= dw);
    assert(t.subrange(dw.len() as int + 1, t.len() as int) =~= dh);
}

/// The video stream the pipeline uses is determined by the streams and
/// the requested index.
pub proof fn lemma_video_selection_unique(streams: Seq<ProbeResultStream>, requested: Option<u32>, k1: int, k2: int)
    requires
        selects_video(streams, requested, k1),
        selects_video(streams, requested, k2),
    ensures
        k1 == k2,
{
    if k1 < k2 {
        assert(streams[k1] is Video);
    } else if k2 < k1 {
        assert(streams[k2] is Video);
    }
}

/// The audio stream the pipeline uses is determined by the streams and
/// the requested index.
pub proof fn lemma_audio_selection_unique(streams: Seq<ProbeResultStream>, requested: Option<u32>, k1: int, k2: int)
    requires
        selects_audio(streams, requested, k1),
        selects_audio(streams, requested, k2),
    ensures
        k1 == k2,
{
    if k1 < k2 {
        assert(streams[k1] is Audio);
    } else if k2 < k1 {
        assert(streams[k2] is Audio);
    }
}

/// Dropping a group of options leaves none of that group, never adds an
/// option, keeps every option outside the group, and dropping it again
/// changes nothing.
pub proof fn lemma_without_group(s: Seq<OutputOption>, g: OptionGroup)
    ensures
        forall|k: int| 0 <= k < without_group(s, g).len() ==> !in_group(#[trigger] without_group(s, g)[k], g),
        forall|k: int| 0 <= k < without_group(s, g).len() ==> s.contains(#[trigger] without_group(s, g)[k]),
        forall|k: int| 0 <= k < s.len() && !in_group(#[trigger] s[k], g) ==> without_group(s, g).contains(s[k]),
        without_group(s, g).len() <= s.len(),
        without_group(without_group(s, g), g) == without_group(s, g),
    decreases s.len(),
{
    if s.len() > 0 {
        let rest = s.drop_first();
        lemma_without_group(rest, g);
        let w = without_group(s, g);
        let wr = without_group(rest, g);
        if in_group(s[0], g) {
            assert(w == wr);
            assert forall|k: int| 0 <= k < w.len() implies s.contains(#[trigger] w[k]) by {
                assert(rest.contains(w[k]));
                let j = choose|j: int| 0 <= j < rest.len() && rest[j] == w[k];
                assert(s[j + 1] == w[k]);
            }
            assert forall|k: int| 0 <= k < s.len() && !in_group(#[trigger] s[k], g) implies w.contains(s[k]) by {
                assert(k > 0);
                assert(rest[k - 1] == s[k]);
            }
        } else {
            assert(w =~= seq![s[0]] + wr);
            assert forall|k: int| 0 <= k < w.len() implies !in_group(#[trigger] w[k], g) by {
                if k > 0 {
                    assert(w[k] == wr[k - 1]);
                }
            }
            assert forall|k: int| 0 <= k < w.len() implies s.contains(#[trigger] w[k]) by {
                if k == 0 {
                    assert(s[0] == w[0]);
                } else {
                    assert(w[k] == wr[k - 1]);
                    assert(rest.contains(wr[k - 1]));
                    let j = choose|j: int| 0 <= j < rest.len() && rest[j] == wr[k - 1];
                    assert(s[j + 1] == w[k]);
                }
            }
            assert forall|k: int| 0 <= k < s.len() && !in_group(#[trigger] s[k], g) implies w.contains(s[k]) by {
                if k == 0 {
                    assert(w[0] == s[0]);
                } else {
                    assert(rest[k - 1] == s[k]);
                    assert(wr.contains(s[k]));
                    let j = choose|j: int| 0 <= j < wr.len() && wr[j] == s[k];
                    assert(w[j + 1] == s[k]);
                }
            }
            assert(w.drop_first() =~= wr);
            assert(!in_group(w[0], g));
        }
    }
}

/// The size a scaler is given fits within the target size, and both its
/// sides are even.
pub proof fn lemma_fitted_size_fits(target: FrameSize, source: (nat, nat))
    requires
        source.0 > 0,
        source.1 > 0,
    ensures
        fitted_size(target, source).width <= target.width,
        fitted_size(target, source).height <= target.height,
        fitted_size(target, source).width % 2 == 0,
        fitted_size(target, source).height % 2 == 0,
{
    let (sw, sh) = source;
    let tw = target.width as nat;
    let th = target.height as nat;
    if tw * sh <= th * sw {
        assert((tw * sh) / sw <= th) by (nonlinear_arith)
            requires tw * sh <= th * sw, sw > 0;
    } else {
        assert((th * sw) / sh <= tw) by (nonlinear_arith)
            requires tw * sh > th * sw, sh > 0;
    }
}

/// A pipeline's command line ends with its output path.
pub proof fn lemma_args_end_with_output(p: Pipeline, graph: FilterGraph)
    ensures
        pipeline_args(p, graph).len() > 0,
        pipeline_args(p, graph).last() == p.output.path@,
{
}

/// Optimizing a pipeline's output options only removes options: when
/// audio is copied no audio bit rate, buffer, channel count or sample rate
/// is left, and when video is copied no video bit rate or buffer is left.
pub proof fn lemma_optimized_options(p: Pipeline)
    ensures
        forall|k: int|
            0 <= k < optimized_options(p).len() ==> p.output_options@.contains(#[trigger] optimized_options(p)[k]),
        p.output_context.audio_codec == AudioCodec::Copy ==> forall|k: int|
            0 <= k < optimized_options(p).len() ==> !in_group(
                #[trigger] optimized_options(p)[k],
                OptionGroup::AudioTuning,
            ),
        is_copy_view(p.output_context.video_codec@) ==> forall|k: int|
            0 <= k < optimized_options(p).len() ==> !in_group(
                #[trigger] optimized_options(p)[k],
                OptionGroup::VideoTuning,
            ),
        channels_already_match(p) ==> forall|k: int|
            0 <= k < optimized_options(p).len() ==> !in_group(
                #[trigger] optimized_options(p)[k],
                OptionGroup::AudioChannels,
            ),
{
    let o0 = p.output_options@;
    let o1 = if p.output_context.audio_codec == AudioCodec::Copy {
        without_group(o0, OptionGroup::AudioTuning)
    } else {
        o0
    };
    lemma_without_group(o0, OptionGroup::AudioTuning);
    lemma_without_group(o1, OptionGroup::AudioChannels);
    let o2 = if channels_already_match(p) {
        without_group(o1, OptionGroup::AudioChannels)
    } else {
        o1
    };
    lemma_without_group(o2, OptionGroup::VideoTuning);
    let o3 = optimized_options(p);
    assert forall|k: int| 0 <= k < o3.len() implies o2.contains(#[trigger] o3[k]) by {
        if is_copy_view(p.output_context.video_codec@) {
        } else {
            assert(o2[k] == o3[k]);
        }
    }
    assert forall|x: OutputOption| o2.contains(x) implies o1.contains(x) && (channels_already_match(p) ==> !in_group(
        x,
        OptionGroup::AudioChannels,
    )) by {
        if channels_already_match(p) {
            let j = choose|j: int| 0 <= j < o2.len() && o2[j] == x;
            assert(o1.contains(o2[j]));
            assert(!in_group(o2[j], OptionGroup::AudioChannels));
        }
    }
    assert forall|x: OutputOption| o1.contains(x) implies o0.contains(x) && (p.output_context.audio_codec
        == AudioCodec::Copy ==> !in_group(x, OptionGroup::AudioTuning)) by {
        if p.output_context.audio_codec == AudioCodec::Copy {
            let j = choose|j: int| 0 <= j < o1.len() && o1[j] == x;
            assert(o0.contains(o1[j]));
            assert(!in_group(o1[j], OptionGroup::AudioTuning));
        }
    }
    assert forall|k: int| 0 <= k < o3.len() implies p.output_options@.contains(#[trigger] o3[k]) && (
    p.output_context.audio_codec == AudioCodec::Copy ==> !in_group(o3[k], OptionGroup::AudioTuning)) && (
    channels_already_match(p) ==> !in_group(o3[k], OptionGroup::AudioChannels)) by {
        assert(o2.contains(o3[k]));
        assert(o1.contains(o3[k]));
    }
}

proof fn lemma_without_absent(s: Seq<OutputOption>, g: OptionGroup)
    requires
        forall|k: int| 0 <= k < s.len() ==> !in_group(#[trigger] s[k], g),
    ensures
        without_group(s, g) == s,
    decreases s.len(),
{
    if s.len() > 0 {
        let rest = s.drop_first();
        assert forall|k: int| 0 <= k < rest.len() implies !in_group(#[trigger] rest[k], g) by {
            assert(rest[k] == s[k + 1]);
        }
        lemma_without_absent(rest, g);
        assert(!in_group(s[0], g));
        assert(seq![s[0]] + rest =~= s);
    }
}

/// Optimizing the output options of an optimized pipeline again removes
/// nothing more.
pub proof fn lemma_optimized_options_stable(p: Pipeline, q: Pipeline)
    requires
        q.output_options@ == optimized_options(p),
        q.output_context == p.output_context,
        q.inputs@ == p.inputs@,
    ensures
        optimized_options(q) == q.output_options@,
{
    let o = q.output_options@;
    lemma_optimized_options(p);
    if p.output_context.audio_codec == AudioCodec::Copy {
        lemma_without_absent(o, OptionGroup::AudioTuning);
    }
    if channels_already_match(p) {
        lemma_without_absent(o, OptionGroup::AudioChannels);
    }
    if is_copy_view(p.output_context.video_codec@) {
        lemma_without_absent(o, OptionGroup::VideoTuning);
    }
    assert(channels_already_match(q) == channels_already_match(p));
}

/// Every method read from ffmpeg's `-hwaccels` listing is a known method.
pub proof fn lemma_listed_accels_known(lines: Seq<Seq<char>>)
    ensures
        forall|k: int|
            0 <= k < accels_in_lines(lines).len() ==> is_known_hw_accel_name(#[trigger] accels_in_lines(lines)[k]),
    decreases lines.len(),
{
    if lines.len() > 0 {
        let rest = accels_in_lines(lines.drop_last());
        let res = accels_in_lines(lines);
        lemma_listed_accels_known(lines.drop_last());
        assert forall|k: int| 0 <= k < res.len() implies is_known_hw_accel_name(#[trigger] res[k]) by {
            if k < rest.len() {
                assert(res[k] == rest[k]);
            }
        }
    }
}

/// Every filter read from ffmpeg's `-filters` listing is a known filter,
/// and none of them is disabled.
pub proof fn lemma_listed_filters_known_and_enabled(lines: Seq<Seq<char>>, disabled: Seq<Seq<char>>)
    ensures
        forall|k: int|
            0 <= k < filters_in_lines(lines, disabled).len() ==> is_known_video_filter_name(
                #[trigger] filters_in_lines(lines, disabled)[k],
            ) && !disabled.contains(filters_in_lines(lines, disabled)[k]),
    decreases lines.len(),
{
    if lines.len() > 0 {
        let rest = filters_in_lines(lines.drop_last(), disabled);
        let res = filters_in_lines(lines, disabled);
        lemma_listed_filters_known_and_enabled(lines.drop_last(), disabled);
        assert forall|k: int| 0 <= k < res.len() implies is_known_video_filter_name(#[trigger] res[k]) && !disabled.contains(
            res[k],
        ) by {
            if k < rest.len() {
                assert(res[k] == rest[k]);
            }
        }
    }
}

/// The preferred filters kept are exactly those wanted that are available,
/// in the order wanted.
pub proof fn lemma_kept_filters_available(wanted: Seq<Seq<char>>, available: Seq<Seq<char>>)
    ensures
        forall|k: int|
            0 <= k < kept_if_available(wanted, available).len() ==> available.contains(
                #[trigger] kept_if_available(wanted, available)[k],
            ) && wanted.contains(kept_if_available(wanted, available)[k]),
        forall|k: int|
            0 <= k < wanted.len() && available.contains(#[trigger] wanted[k]) ==> kept_if_available(
                wanted,
                available,
            ).contains(wanted[k]),
    decreases wanted.len(),
{
    if wanted.len() > 0 {
        let rest = wanted.drop_last();
        lemma_kept_filters_available(rest, available);
        let kept = kept_if_available(wanted, available);
        let kr = kept_if_available(rest, available);
        assert forall|k: int| 0 <= k < kept.len() implies available.contains(#[trigger] kept[k]) && wanted.contains(
            kept[k],
        ) by {
            if k < kr.len() {
                assert(kept[k] == kr[k]);
                assert(rest.contains(kr[k]));
                let j = choose|j: int| 0 <= j < rest.len() && rest[j] == kr[k];
                assert(wanted[j] == kept[k]);
            } else {
                assert(kept[k] == wanted.last());
                assert(wanted[wanted.len() - 1] == kept[k]);
            }
        }
        assert forall|k: int| 0 <= k < wanted.len() && available.contains(#[trigger] wanted[k]) implies kept.contains(
            wanted[k],
        ) by {
            if k < rest.len() {
                assert(rest[k] == wanted[k]);
                assert(kr.contains(wanted[k]));
                let j = choose|j: int| 0 <= j < kr.len() && kr[j] == wanted[k];
                if available.contains(wanted.last()) {
                    assert(kept[j] == wanted[k]);
                } else {
                    assert(kept[j] == wanted[k]);
                }
            } else {
                assert(kept.last() == wanted[k]);
                assert(kept[kept.len() - 1] == wanted[k]);
            }
        }
    }
}

proof fn lemma_distinct_paths_agree(i1: Seq<PipelineInput>, i2: Seq<PipelineInput>)
    requires
        i1.len() == i2.len(),
        forall|k: int| 0 <= k < i1.len() ==> input_path(#[trigger] i1[k]) == input_path(i2[k]),
    ensures
        distinct_paths(i1) == distinct_paths(i2),
    decreases i1.len(),
{
    if i1.len() > 0 {
        lemma_distinct_paths_agree(i1.drop_last(), i2.drop_last());
        assert(input_path(i1.last()) == input_path(i2.last()));
    }
}

proof fn lemma_inputs_args_agree(i1: Seq<PipelineInput>, i2: Seq<PipelineInput>, d: Seq<Seq<char>>)
    requires
        i1.len() == i2.len(),
        forall|k: int| 0 <= k < i1.len() ==> input_args(#[trigger] i1[k], d) == input_args(i2[k], d),
    ensures
        inputs_args(i1, d) == inputs_args(i2, d),
    decreases i1.len(),
{
    if i1.len() > 0 {
        lemma_inputs_args_agree(i1.drop_last(), i2.drop_last(), d);
        assert(input_args(i1.last(), d) == input_args(i2.last(), d));
    }
}

proof fn lemma_output_args_agree(s1: Seq<OutputOption>, c1: OutputContext, s2: Seq<OutputOption>, c2: OutputContext)
    requires
        s1.len() == s2.len(),
        forall|k: int| 0 <= k < s1.len() ==> output_option_args(#[trigger] s1[k], c1) == output_option_args(s2[k], c2),
    ensures
        output_args(s1, c1) == output_args(s2, c2),
    decreases s1.len(),
{
    if s1.len() > 0 {
        lemma_output_args_agree(s1.drop_last(), c1, s2.drop_last(), c2);
        assert(output_option_args(s1.last(), c1) == output_option_args(s2.last(), c2));
    }
}

/// Two pipelines built from the same streams and settings have the same
/// command line and environment.
proof fn lemma_built_pipelines_agree(
    p1: Pipeline,
    p2: Pipeline,
    info: FfmpegInfo,
    input: InputSettings,
    output: OutputSettings,
    vs: ProbeResultVideoStream,
    aus: ProbeResultAudioStream,
    graph: FilterGraph,
)
    requires
        built_from(p1, info, input, output, vs, aus),
        built_from(p2, info, input, output, vs, aus),
    ensures
        pipeline_args(p1, graph) == pipeline_args(p2, graph),
        pipeline_envs(p1) == pipeline_envs(p2),
{
    let is_hdr = is_hdr_transfer(vs.color_params.color_transfer);
    if output.accel is Some && lists_accel(info, accel_known(output.accel.unwrap())) {
        lemma_initialized_agree(output.accel.unwrap(), p1.accel.unwrap(), p2.accel.unwrap(), info, is_hdr);
        lemma_same_accel_agrees(p1.accel.unwrap(), p2.accel.unwrap());
    }
    assert(p1.accel is Some <==> p2.accel is Some);
    let codec = chosen_video_codec(p1.accel, output.video_format, output.bit_depth);
    assert(chosen_video_codec(p2.accel, output.video_format, output.bit_depth) == codec);
    assert(p1.global_options@ == p2.global_options@);

    let i1 = p1.inputs@;
    let i2 = p2.inputs@;
    assert(input_path(i1[0]) == input_path(i2[0]));
    assert(input_path(i1[1]) == input_path(i2[1]));
    lemma_distinct_paths_agree(i1, i2);
    let d = distinct_paths(i1);
    assert(input_args(i1[0], d) == input_args(i2[0], d));
    let d1 = i1[1]->Video_decoder;
    let d2 = i2[1]->Video_decoder;
    if d1 is HardwareAccel {
        lemma_same_accel_agrees(d1->accel, p1.accel.unwrap());
        lemma_same_accel_agrees(d2->accel, p2.accel.unwrap());
    }
    assert(input_args(i1[1], d) == input_args(i2[1], d));
    assert forall|k: int| 0 <= k < i1.len() implies input_args(#[trigger] i1[k], d) == input_args(i2[k], d) by {
        if k == 0 {
        } else {
        }
    }
    lemma_inputs_args_agree(i1, i2, d);

    let o1 = p1.output_options@;
    let o2 = p2.output_options@;
    assert forall|k: int| 0 <= k < o1.len() implies output_option_args(#[trigger] o1[k], p1.output_context)
        == output_option_args(o2[k], p2.output_context) by {
        if k == 0 {
            assert(o1[0] == o2[0]);
        } else if k == 1 {
            assert(o1[1] == o2[1]);
        } else if k == 2 {
            assert(o1[2] == o2[2]);
        } else if k == 3 {
            assert(o1[3] == o2[3]);
        } else if k == 4 {
            assert(o1[4] == o2[4]);
        } else if k == 5 {
            assert(o1[5] == o2[5]);
        } else if k == 6 {
            assert(o1[6] == o2[6]);
        } else if k == 7 {
            assert(o1[7] == o2[7]);
        } else if k == 8 {
            assert(o1[8] matches OutputOption::VideoCodec(c1) && o2[8] matches OutputOption::VideoCodec(c2) && c1@ == c2@);
        } else if k == 9 {
            assert(o1[9] == o2[9]);
        } else if k == 10 {
            assert(o1[10] == o2[10]);
        } else if k == 11 {
            assert(o1[11] == o2[11]);
        } else if k == 12 {
            assert(o1[12] == o2[12]);
        } else if k == 13 {
            assert(o1[13] == o2[13]);
        } else if k == 14 {
            assert(o1[14] == o2[14]);
        } else if k == 15 {
            assert(o1[15] == o2[15]);
        }
    }
    lemma_output_args_agree(o1, p1.output_context, o2, p2.output_context);
}

/// Building a pipeline has one outcome: two results that both are what
/// building gives for the same ffmpeg, inputs and settings are the same
/// error, or pipelines with the same command line (for any built filter
/// graph) and the same environment.
pub proof fn lemma_pipeline_result_unique(
    r1: Result<Pipeline, FFPipelineError>,
    r2: Result<Pipeline, FFPipelineError>,
    info: FfmpegInfo,
    input: InputSettings,
    output: OutputSettings,
    graph: FilterGraph,
)
    requires
        pipeline_result(r1, info, input, output),
        pipeline_result(r2, info, input, output),
    ensures
        r1 is Ok <==> r2 is Ok,
        r1 is Err ==> r1 == r2,
        r1 is Ok ==> pipeline_args(r1.unwrap(), graph) == pipeline_args(r2.unwrap(), graph) && pipeline_envs(
            r1.unwrap(),
        ) == pipeline_envs(r2.unwrap()),
{
    let vstreams = input.video_input.probe_result.streams@;
    let astreams = input.audio_input.probe_result.streams@;
    if has_video(vstreams) && has_audio(astreams) {
        let p1 = r1.unwrap();
        let p2 = r2.unwrap();
        let (kv1, ka1) = choose|kv: int, ka: int|
            selects_video(vstreams, input.video_input.video_index, kv) && selects_audio(
                astreams,
                input.audio_input.audio_index,
                ka,
            ) && #[trigger] built_from(p1, info, input, output, video_at(vstreams[kv]).unwrap(), audio_at(astreams[ka]).unwrap());
        let (kv2, ka2) = choose|kv: int, ka: int|
            selects_video(vstreams, input.video_input.video_index, kv) && selects_audio(
                astreams,
                input.audio_input.audio_index,
                ka,
            ) && #[trigger] built_from(p2, info, input, output, video_at(vstreams[kv]).unwrap(), audio_at(astreams[ka]).unwrap());
        lemma_video_selection_unique(vstreams, input.video_input.video_index, kv1, kv2);
        lemma_audio_selection_unique(astreams, input.audio_input.audio_index, ka1, ka2);
        lemma_built_pipelines_agree(
            p1,
            p2,
            info,
            input,
            output,
            video_at(vstreams[kv1]).unwrap(),
            audio_at(astreams[ka1]).unwrap(),
            graph,
        );
    }
}

} // verus!

verus! {

/// The video format that ffmpeg's encoder named `name` produces: its H.264
/// encoders are `libx264` and the `h264_` family, its HEVC encoders
/// `libx265` and the `hevc_` family.
pub open spec fn encoder_format(name: Seq<char>) -> Option<crate::pipeline::VideoFormat> {
    if name.len() >= 5 && name[0] == 'h' && name[1] == '2' && name[2] == '6' && name[3] == '4' && name[4] == '_' {
        Some(crate::pipeline::VideoFormat::H264)
    } else if name.len() >= 5 && name[0] == 'h' && name[1] == 'e' && name[2] == 'v' && name[3] == 'c' && name[4]
        == '_' {
        Some(crate::pipeline::VideoFormat::Hevc)
    } else if name.len() == 7 && name[0] == 'l' && name[1] == 'i' && name[2] == 'b' && name[3] == 'x' && name[4]
        == '2' && name[5] == '6' && name[6] == '4' {
        Some(crate::pipeline::VideoFormat::H264)
    } else if name.len() == 7 && name[0] == 'l' && name[1] == 'i' && name[2] == 'b' && name[3] == 'x' && name[4]
        == '2' && name[5] == '6' && name[6] == '5' {
        Some(crate::pipeline::VideoFormat::Hevc)
    } else {
        None
    }
}

/// The formats of the encoders the pipeline uses.
proof fn lemma_encoder_names()
    ensures
        encoder_format("libx264"@) == Some(crate::pipeline::VideoFormat::H264),
        encoder_format("libx265"@) == Some(crate::pipeline::VideoFormat::Hevc),
        encoder_format("h264_nvenc"@) == Some(crate::pipeline::VideoFormat::H264),
        encoder_format("hevc_nvenc"@) == Some(crate::pipeline::VideoFormat::Hevc),
        encoder_format("h264_qsv"@) == Some(crate::pipeline::VideoFormat::H264),
        encoder_format("hevc_qsv"@) == Some(crate::pipeline::VideoFormat::Hevc),
        encoder_format("h264_vaapi"@) == Some(crate::pipeline::VideoFormat::H264),
        encoder_format("hevc_vaapi"@) == Some(crate::pipeline::VideoFormat::Hevc),
        encoder_format("h264_vulkan"@) == Some(crate::pipeline::VideoFormat::H264),
        encoder_format("hevc_vulkan"@) == Some(crate::pipeline::VideoFormat::Hevc),
        encoder_format("h264_videotoolbox"@) == Some(crate::pipeline::VideoFormat::H264),
        encoder_format("hevc_videotoolbox"@) == Some(crate::pipeline::VideoFormat::Hevc),
        encoder_format("copy"@) is None,
{
    reveal_strlit("libx264");
    reveal_strlit("libx265");
    reveal_strlit("h264_nvenc");
    reveal_strlit("hevc_nvenc");
    reveal_strlit("h264_qsv");
    reveal_strlit("hevc_qsv");
    reveal_strlit("h264_vaapi");
    reveal_strlit("hevc_vaapi");
    reveal_strlit("h264_vulkan");
    reveal_strlit("hevc_vulkan");
    reveal_strlit("h264_videotoolbox");
    reveal_strlit("hevc_videotoolbox");
    reveal_strlit("copy");
}

/// Every accelerator has a hardware encoder for H.264 and for HEVC, and the
/// encoder it gives for a format produces that format; it has none for
/// other formats.
pub proof fn lemma_accel_encoder_encodes_format(a: crate::hw_accel::HardwareAccel, f: crate::pipeline::VideoFormat)
    ensures
        (f == crate::pipeline::VideoFormat::H264 || f == crate::pipeline::VideoFormat::Hevc) ==> {
            &&& crate::hw_accel::accel_codec(a, f) is Some
            &&& encoder_format(crate::hw_accel::accel_codec(a, f).unwrap().codec_name) == Some(f)
            &&& crate::hw_accel::accel_codec(a, f).unwrap().is_hardware
        },
        !(f == crate::pipeline::VideoFormat::H264 || f == crate::pipeline::VideoFormat::Hevc)
            ==> crate::hw_accel::accel_codec(a, f) is None,
{
    lemma_encoder_names();
    match a {
        crate::hw_accel::HardwareAccel::Cuda(_) => {},
        crate::hw_accel::HardwareAccel::Qsv(_) => {},
        crate::hw_accel::HardwareAccel::Vaapi(_) => {},
        crate::hw_accel::HardwareAccel::VideoToolbox(_) => {},
        crate::hw_accel::HardwareAccel::Vulkan(_) => {},
    }
}

/// The encoder a pipeline chooses produces the requested format: without
/// an accelerator H.264 is encoded by `libx264` and HEVC by `libx265`; with
/// one, by the accelerator's encoder for that format or else by those; with
/// no format requested, or one that cannot be encoded, video is copied.
pub proof fn lemma_chosen_encoder_encodes_format(
    accel: Option<crate::hw_accel::HardwareAccel>,
    format: Option<crate::pipeline::VideoFormat>,
    bit_depth: Option<u8>,
)
    ensures
        (format == Some(crate::pipeline::VideoFormat::H264) || format == Some(crate::pipeline::VideoFormat::Hevc))
            ==> encoder_format(crate::pipeline::chosen_video_codec(accel, format, bit_depth).codec_name) == format,
        accel is None && format == Some(crate::pipeline::VideoFormat::H264) ==> crate::pipeline::chosen_video_codec(
            accel,
            format,
            bit_depth,
        ).codec_name == "libx264"@,
        accel is None && format == Some(crate::pipeline::VideoFormat::Hevc) ==> crate::pipeline::chosen_video_codec(
            accel,
            format,
            bit_depth,
        ).codec_name == "libx265"@,
        !(format == Some(crate::pipeline::VideoFormat::H264) || format == Some(crate::pipeline::VideoFormat::Hevc))
            ==> crate::pipeline::chosen_video_codec(accel, format, bit_depth).codec_name == "copy"@,
{
    lemma_encoder_names();
    reveal_strlit("libx264");
    reveal_strlit("libx265");
    reveal_strlit("copy");
    if let Some(a) = accel {
        if let Some(f) = format {
            lemma_accel_encoder_encodes_format(a, f);
        }
    }
}

/// A pipeline that is built encodes video in the requested format: its
/// encoder and its encoder option produce that format (`libx264` or
/// `libx265` when no accelerator is requested).
pub proof fn lemma_pipeline_encodes_requested_format(
    r: Result<Pipeline, FFPipelineError>,
    info: FfmpegInfo,
    input: InputSettings,
    output: OutputSettings,
)
    requires
        pipeline_result(r, info, input, output),
        r is Ok,
        output.video_format == Some(crate::pipeline::VideoFormat::H264) || output.video_format == Some(
            crate::pipeline::VideoFormat::Hevc,
        ),
    ensures
        encoder_format(r.unwrap().output_context.video_codec@.codec_name) == output.video_format,
        r.unwrap().output_options@[8] matches OutputOption::VideoCodec(c) && encoder_format(c@.codec_name)
            == output.video_format,
        output.accel is None && output.video_format == Some(crate::pipeline::VideoFormat::Hevc)
            ==> r.unwrap().output_context.video_codec@.codec_name == "libx265"@,
        output.accel is None && output.video_format == Some(crate::pipeline::VideoFormat::H264)
            ==> r.unwrap().output_context.video_codec@.codec_name == "libx264"@,
{
    let p = r.unwrap();
    let vstreams = input.video_input.probe_result.streams@;
    let astreams = input.audio_input.probe_result.streams@;
    let (kv, ka) = choose|kv: int, ka: int|
        selects_video(vstreams, input.video_input.video_index, kv) && selects_audio(
            astreams,
            input.audio_input.audio_index,
            ka,
        ) && #[trigger] built_from(p, info, input, output, video_at(vstreams[kv]).unwrap(), audio_at(astreams[ka]).unwrap());
    lemma_chosen_encoder_encodes_format(p.accel, output.video_format, output.bit_depth);
    if output.accel is None {
        assert(p.accel is None);
    }
}

/// Optimizing keeps the requested output channel count unless the first
/// audio input already has that many channels: then the channel-count
/// option goes, and otherwise every channel-count option stays (audio that
/// is encoded, not copied).
pub proof fn lemma_optimize_channel_count(p: Pipeline)
    requires
        p.output_context.audio_codec != AudioCodec::Copy,
    ensures
        (crate::pipeline::first_audio_channels(p.inputs@) is Some && p.output_context.audio_channels
            == crate::pipeline::first_audio_channels(p.inputs@)) ==> forall|k: int|
            0 <= k < optimized_options(p).len() ==> !(#[trigger] optimized_options(p)[k] is AudioChannels),
        !(crate::pipeline::first_audio_channels(p.inputs@) is Some && p.output_context.audio_channels
            == crate::pipeline::first_audio_channels(p.inputs@)) ==> forall|k: int|
            0 <= k < p.output_options@.len() && (#[trigger] p.output_options@[k] is AudioChannels)
                ==> optimized_options(p).contains(p.output_options@[k]),
{
    let o0 = p.output_options@;
    lemma_optimized_options(p);
    lemma_without_group(o0, OptionGroup::AudioChannels);
    let o2 = if channels_already_match(p) {
        without_group(o0, OptionGroup::AudioChannels)
    } else {
        o0
    };
    lemma_without_group(o2, OptionGroup::VideoTuning);
    if channels_already_match(p) {
        assert forall|k: int| 0 <= k < optimized_options(p).len() implies !(
        #[trigger] optimized_options(p)[k] is AudioChannels) by {
            assert(!in_group(optimized_options(p)[k], OptionGroup::AudioChannels));
        }
    } else {
        assert forall|k: int| 0 <= k < o0.len() && (#[trigger] o0[k] is AudioChannels) implies optimized_options(
            p,
        ).contains(o0[k]) by {
            assert(!in_group(o0[k], OptionGroup::VideoTuning));
            if is_copy_view(p.output_context.video_codec@) {
                assert(without_group(o2, OptionGroup::VideoTuning).contains(o2[k]));
            } else {
                assert(optimized_options(p)[k] == o0[k]);
            }
        }
    }
}

/// An input that is read by its own `-i` has its source's arguments
/// immediately before `-i` and its path, at the end of its arguments (the
/// video input always; an audio input when the pipeline reads more than
/// one file).
pub proof fn lemma_source_args_precede_input(i: crate::pipeline::PipelineInput, d: Seq<Seq<char>>)
    ensures
        i matches crate::pipeline::PipelineInput::Video { input_source, path, .. } ==> {
            let a = input_args(i, d);
            let src = crate::text::arg_texts(input_source.input_args@);
            &&& a.len() >= src.len() + 2
            &&& a.subrange(a.len() - src.len() - 2, a.len() as int) == src + seq!["-i"@, path@]
        },
        i matches crate::pipeline::PipelineInput::Audio { input_source, path, .. } ==> d.len() > 1 ==> {
            let a = input_args(i, d);
            let src = crate::text::arg_texts(input_source.input_args@);
            &&& a.len() >= src.len() + 2
            &&& a.subrange(a.len() - src.len() - 2, a.len() as int) == src + seq!["-i"@, path@]
        },
{
    let a = input_args(i, d);
    match i {
        crate::pipeline::PipelineInput::Video { input_source, path, .. } => {
            let src = crate::text::arg_texts(input_source.input_args@);
            let tail = src + seq!["-i"@, path@];
            assert(a.subrange(a.len() - src.len() - 2, a.len() as int) =~= tail);
        },
        crate::pipeline::PipelineInput::Audio { input_source, path, .. } => {
            if d.len() > 1 {
                let src = crate::text::arg_texts(input_source.input_args@);
                let tail = src + seq!["-i"@, path@];
                assert(a.subrange(a.len() - src.len() - 2, a.len() as int) =~= tail);
            }
        },
    }
}

/// The name under which a channel's configuration names a VAAPI driver.
pub open spec fn configured_driver_name(d: crate::config::VaapiDriver) -> Seq<char> {
    match d {
        crate::config::VaapiDriver::Ihd => "ihd"@,
        crate::config::VaapiDriver::I965 => "i965"@,
        crate::config::VaapiDriver::RadeonSI => "radeonsi"@,
    }
}

/// The pipeline loads the VAAPI driver that the configuration names: its
/// driver has the configured driver's name, and distinct configured
/// drivers stay distinct.
pub proof fn lemma_vaapi_driver_kept(d: crate::config::VaapiDriver, e: crate::config::VaapiDriver)
    ensures
        crate::accel::vaapi::vaapi_driver_name(crate::config::pipeline_vaapi_driver(d)) == configured_driver_name(d),
        d != e ==> crate::config::pipeline_vaapi_driver(d) != crate::config::pipeline_vaapi_driver(e),
{
    reveal_strlit("ihd");
    reveal_strlit("i965");
    reveal_strlit("radeonsi");
    assert("ihd"@.len() != "i965"@.len());
    assert("ihd"@.len() != "radeonsi"@.len());
    assert("i965"@.len() != "radeonsi"@.len());
}

/// A VAAPI accelerator made from a channel's configuration loads the
/// configured driver on the configured device.
pub proof fn lemma_channel_vaapi_driver(
    video: crate::config::VideoNormalizationConfig,
    device_exists: bool,
    probed: crate::config::ProbedCapabilities,
    res: Option<crate::hw_accel::HardwareAccel>,
)
    requires
        crate::config::pipeline_accel_for(crate::config::HardwareAccel::Vaapi, video, device_exists, probed, res),
        res is Some,
    ensures
        video.vaapi_driver is Some && video.vaapi_device is Some,
        res.unwrap() matches crate::hw_accel::HardwareAccel::Vaapi(x) && crate::accel::vaapi::vaapi_driver_name(
            x.driver,
        ) == configured_driver_name(video.vaapi_driver.unwrap()) && x.device@ == video.vaapi_device.unwrap()@,
{
    lemma_vaapi_driver_kept(video.vaapi_driver.unwrap(), video.vaapi_driver.unwrap());
}

} // verus!
