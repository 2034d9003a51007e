//! The output container.
use vstd::prelude::*;

use crate::pipeline::{OutputContext, PtsOffset, KEYFRAME_INTERVAL_SECONDS, SEGMENT_SECONDS};
use crate::text::{arg_texts, args2, args_with, decimal, decimal_string, extend_args, push_arg, push_owned};
use crate::video_codec::is_copy_view;

verus! {

/// The output container: an HLS playlist with its segment file template.
#[derive(Clone, Debug)]
pub enum OutputFormat {
    Hls { playlist: String, segment_template: String },
}

/// Whether output timestamps are shifted forward.
pub open spec fn has_positive_offset(p: Option<PtsOffset>) -> bool {
    match p {
        Some(o) => o.duration.nanos > 0,
        None => false,
    }
}

/// The keyframe arguments for an encoder at a rounded frame rate: a GOP of
/// `KEYFRAME_INTERVAL_SECONDS` seconds and forced keyframes at that
/// interval.
pub open spec fn keyframe_args(rounded_frame_rate: u32) -> Seq<Seq<char>> {
    let gop = decimal((rounded_frame_rate * KEYFRAME_INTERVAL_SECONDS) as nat);
    seq!["-g"@, gop, "-keyint_min"@, gop, "-force_key_frames"@, "expr:gte(t,n_forced*2)"@]
}

/// The HLS muxer arguments.
pub open spec fn hls_args(segment_template: Seq<char>) -> Seq<Seq<char>> {
    seq![
        "-f"@, "hls"@,
        "-hls_time"@, decimal(SEGMENT_SECONDS as nat),
        "-hls_list_size"@, "0"@,
        "-segment_list_flags"@, "+live"@,
        "-hls_segment_filename"@, segment_template,
        "-hls_segment_type"@, "mpegts"@,
        "-hls_flags"@, "program_date_time+omit_endlist+append_list+independent_segments"@,
    ]
}

/// The arguments of the output container: keyframe settings unless video
/// is copied, the HLS muxer, and an initial discontinuity unless
/// timestamps are shifted forward.
pub open spec fn output_format_args(f: OutputFormat, ctx: OutputContext) -> Seq<Seq<char>> {
    match f {
        OutputFormat::Hls { segment_template, .. } => (if is_copy_view(ctx.video_codec@) {
            Seq::empty()
        } else {
            keyframe_args(ctx.media_frame_rate.rounded_frame_rate)
        }) + hls_args(segment_template@) + (if has_positive_offset(ctx.pts_offset) {
            Seq::empty()
        } else {
            seq!["-hls_segment_options"@, "mpegts_flags=+initial_discontinuity"@]
        }),
    }
}

/// The playlist path of an output format.
pub open spec fn output_path(f: OutputFormat) -> Seq<char> {
    match f {
        OutputFormat::Hls { playlist, .. } => playlist@,
    }
}

impl OutputFormat {
    /// The container's arguments.
    pub fn as_arg(&self, output_context: &OutputContext) -> (res: Vec<String>)
        requires
            output_context.media_frame_rate.rounded_frame_rate * KEYFRAME_INTERVAL_SECONDS <= u32::MAX,
        ensures
            arg_texts(res@) == output_format_args(*self, *output_context),
    {
        let rounded_frame_rate = output_context.media_frame_rate.rounded_frame_rate;
        let mut args: Vec<String> = Vec::new();
        match self {
            OutputFormat::Hls { segment_template, .. } => {
                if !output_context.video_codec.is_copy() {
                    let gop = rounded_frame_rate * KEYFRAME_INTERVAL_SECONDS;
                    push_arg(&mut args, "-g");
                    push_owned(&mut args, decimal_string(gop as u128));
                    push_arg(&mut args, "-keyint_min");
                    push_owned(&mut args, decimal_string(gop as u128));
                    push_arg(&mut args, "-force_key_frames");
                    push_arg(&mut args, "expr:gte(t,n_forced*2)");
                }
                let ghost before = arg_texts(args@);
                push_arg(&mut args, "-f");
                push_arg(&mut args, "hls");
                push_arg(&mut args, "-hls_time");
                push_owned(&mut args, decimal_string(SEGMENT_SECONDS as u128));
                push_arg(&mut args, "-hls_list_size");
                push_arg(&mut args, "0");
                push_arg(&mut args, "-segment_list_flags");
                push_arg(&mut args, "+live");
                push_arg(&mut args, "-hls_segment_filename");
                push_owned(&mut args, segment_template.clone());
                push_arg(&mut args, "-hls_segment_type");
                push_arg(&mut args, "mpegts");
                push_arg(&mut args, "-hls_flags");
                push_arg(&mut args, "program_date_time+omit_endlist+append_list+independent_segments");
                assert(arg_texts(args@) =~= before + hls_args(segment_template@));
                let shifted = match output_context.pts_offset {
                    Some(pts_offset) => pts_offset.duration.nanos > 0,
                    None => false,
                };
                if !shifted {
                    extend_args(&mut args, args2("-hls_segment_options", "mpegts_flags=+initial_discontinuity"));
                }
                assert(arg_texts(args@) =~= output_format_args(*self, *output_context));
            },
        }
        args
    }

    /// The playlist path.
    pub fn path(&self) -> (res: String)
        ensures
            res@ == output_path(*self),
    {
        match self {
            OutputFormat::Hls { playlist, .. } => playlist.clone(),
        }
    }
}

} // verus!
