//! What ffprobe reports about a media file.
use vstd::prelude::*;

use crate::frame_rate::{copy_opt_frame_rate, FrameRate};
use crate::input::InputSource;
use crate::text::{append_decimal, arg_texts, copy_opt_string, decimal, decimal_string, extend_args_from, lowercase, lowercase_of, push_arg, text_eq};
use crate::timespan::TimeSpan;

verus! {

/// The colour description of a video stream.
#[derive(Clone, Debug, PartialEq)]
pub struct ProbeResultColorParams {
    pub color_range: Option<String>,
    pub color_space: Option<String>,
    pub color_transfer: Option<String>,
    pub color_primaries: Option<String>,
}

/// Whether a colour transfer names an HDR transfer function (HLG or PQ).
pub open spec fn is_hdr_transfer(t: Option<String>) -> bool {
    match t {
        Some(ct) => ct@ == "arib-std-b67"@ || ct@ == "smpte2084"@,
        None => false,
    }
}

impl ProbeResultColorParams {
    /// Whether the stream is HDR: its transfer is HLG (`arib-std-b67`) or
    /// PQ (`smpte2084`).
    pub fn is_hdr(&self) -> (res: bool)
        ensures
            res == is_hdr_transfer(self.color_transfer),
    {
        match &self.color_transfer {
            Some(ct) => text_eq(ct.as_str(), "arib-std-b67") || text_eq(ct.as_str(), "smpte2084"),
            None => false,
        }
    }
}

/// A video stream of a probed file.
#[derive(Clone, Debug, PartialEq)]
pub struct ProbeResultVideoStream {
    pub stream_index: u32,
    pub codec: String,
    pub profile: String,
    pub height: u32,
    pub width: u32,
    pub frame_rate: FrameRate,
    pub sample_aspect_ratio: Option<String>,
    pub display_aspect_ratio: Option<String>,
    pub pix_fmt: String,
    pub color_params: ProbeResultColorParams,
}

/// An audio stream of a probed file.
#[derive(Clone, Debug, PartialEq)]
pub struct ProbeResultAudioStream {
    pub stream_index: u32,
    pub codec: String,
    pub channels: u32,
}

/// A stream of a probed file that the pipeline can use.
#[derive(Clone, Debug, PartialEq)]
pub enum ProbeResultStream {
    Video(Box<ProbeResultVideoStream>),
    Audio(ProbeResultAudioStream),
}

/// What ffprobe reports about a file: its path, usable streams and, when
/// known, its duration.
#[derive(Clone, Debug, PartialEq)]
pub struct ProbeResult {
    pub path: String,
    pub streams: Vec<ProbeResultStream>,
    pub duration: Option<TimeSpan>,
}

impl ProbeResult {
    /// A file is taken to be a still image when it has no duration and a
    /// single stream.
    pub fn is_still_image(&self) -> (res: bool)
        ensures
            res == (self.duration is None && self.streams@.len() == 1),
    {
        self.duration.is_none() && self.streams.len() == 1
    }
}

/// One stream as ffprobe's JSON output lists it; `r_frame_rate` is that
/// field already read as a frame rate.
#[derive(Clone, Debug, PartialEq)]
pub struct ProbeOutputStream {
    pub index: u32,
    pub codec_type: String,
    pub codec_name: Option<String>,
    pub profile: Option<String>,
    pub height: Option<u32>,
    pub width: Option<u32>,
    pub channels: Option<u32>,
    pub r_frame_rate: Option<FrameRate>,
    pub sample_aspect_ratio: Option<String>,
    pub display_aspect_ratio: Option<String>,
    pub pix_fmt: Option<String>,
    pub color_range: Option<String>,
    pub color_space: Option<String>,
    pub color_transfer: Option<String>,
    pub color_primaries: Option<String>,
}

/// The codec name of an audio stream: as reported, or `unknown`.
pub open spec fn audio_codec_text(name: Option<String>) -> Seq<char> {
    match name {
        Some(c) => c@,
        None => "unknown"@,
    }
}

/// The codec name of a video stream: lower-cased, or `unknown`.
pub open spec fn video_codec_text(name: Option<String>) -> Seq<char> {
    match name {
        Some(c) => lowercase_of(c@),
        None => "unknown"@,
    }
}

/// The profile of a video stream: lower-cased, or empty.
pub open spec fn profile_text(profile: Option<String>) -> Seq<char> {
    match profile {
        Some(p) => lowercase_of(p@),
        None => Seq::empty(),
    }
}

/// Whether a reported stream has everything a video stream needs.
pub open spec fn video_fields_present(o: ProbeOutputStream) -> bool {
    &&& o.height is Some
    &&& o.width is Some
    &&& o.pix_fmt is Some
    &&& o.r_frame_rate is Some
}

/// `res` is what the pipeline makes of the reported stream `o`, given the
/// lower-cased kind of the stream and, for a video stream, its codec name
/// and profile as the stream will carry them: audio streams need a channel
/// count, video streams need a size, a pixel format and a frame rate; other
/// kinds of stream are left out.
pub open spec fn stream_from(
    o: ProbeOutputStream,
    kind: Seq<char>,
    video_codec: Seq<char>,
    profile: Seq<char>,
    res: Option<ProbeResultStream>,
) -> bool {
    if kind == "audio"@ {
        match o.channels {
            None => res is None,
            Some(ch) => res matches Some(ProbeResultStream::Audio(a)) && {
                &&& a.stream_index == o.index
                &&& a.codec@ == audio_codec_text(o.codec_name)
                &&& a.channels == ch
            },
        }
    } else if kind == "video"@ {
        if video_fields_present(o) {
            res matches Some(ProbeResultStream::Video(v)) && {
                &&& v.stream_index == o.index
                &&& v.codec@ == video_codec
                &&& v.profile@ == profile
                &&& v.height == o.height.unwrap()
                &&& v.width == o.width.unwrap()
                &&& v.pix_fmt == o.pix_fmt.unwrap()
                &&& v.frame_rate == o.r_frame_rate.unwrap()
                &&& v.sample_aspect_ratio == o.sample_aspect_ratio
                &&& v.display_aspect_ratio == o.display_aspect_ratio
                &&& v.color_params.color_range == o.color_range
                &&& v.color_params.color_space == o.color_space
                &&& v.color_params.color_transfer == o.color_transfer
                &&& v.color_params.color_primaries == o.color_primaries
            }
        } else {
            res is None
        }
    } else {
        res is None
    }
}

/// `res` is what the pipeline makes of the reported stream `o`: its kind,
/// and a video stream's codec name and profile, are lower-cased (a missing
/// video codec name reads `unknown`, a missing profile is empty).
pub open spec fn describes_stream(o: ProbeOutputStream, res: Option<ProbeResultStream>) -> bool {
    stream_from(o, lowercase_of(o.codec_type@), video_codec_text(o.codec_name), profile_text(o.profile), res)
}

/// The stream that the pipeline makes of one stream of ffprobe's output,
/// given its lower-cased kind and, for a video stream, the codec name and
/// profile it will carry.
pub fn stream_of_kind(output_stream: &ProbeOutputStream, kind: &str, video_codec: String, profile: String) -> (res: Option<
    ProbeResultStream,
>)
    ensures
        stream_from(*output_stream, kind@, video_codec@, profile@, res),
{
    if text_eq(kind, "audio") {
        match output_stream.channels {
            None => None,
            Some(channels) => {
                let codec = match &output_stream.codec_name {
                    Some(c) => c.clone(),
                    None => String::from_str("unknown"),
                };
                Some(ProbeResultStream::Audio(ProbeResultAudioStream {
                    stream_index: output_stream.index,
                    codec,
                    channels,
                }))
            },
        }
    } else if text_eq(kind, "video") {
        let height = match output_stream.height {
            Some(h) => h,
            None => { return None; },
        };
        let width = match output_stream.width {
            Some(w) => w,
            None => { return None; },
        };
        let pix_fmt = match &output_stream.pix_fmt {
            Some(p) => p.clone(),
            None => { return None; },
        };
        let frame_rate = match &output_stream.r_frame_rate {
            Some(f) => f.duplicate(),
            None => { return None; },
        };
        Some(ProbeResultStream::Video(Box::new(ProbeResultVideoStream {
            stream_index: output_stream.index,
            codec: video_codec,
            profile,
            height,
            width,
            pix_fmt,
            color_params: ProbeResultColorParams {
                color_range: copy_opt_string(&output_stream.color_range),
                color_space: copy_opt_string(&output_stream.color_space),
                color_transfer: copy_opt_string(&output_stream.color_transfer),
                color_primaries: copy_opt_string(&output_stream.color_primaries),
            },
            frame_rate,
            sample_aspect_ratio: copy_opt_string(&output_stream.sample_aspect_ratio),
            display_aspect_ratio: copy_opt_string(&output_stream.display_aspect_ratio),
        })))
    } else {
        None
    }
}

/// The stream that the pipeline makes of one stream of ffprobe's output.
pub fn output_to_result(output_stream: &ProbeOutputStream) -> (res: Option<ProbeResultStream>)
    ensures
        describes_stream(*output_stream, res),
{
    let kind = lowercase(output_stream.codec_type.as_str());
    if text_eq(kind.as_str(), "video") {
        let codec = match &output_stream.codec_name {
            Some(c) => lowercase(c.as_str()),
            None => String::from_str("unknown"),
        };
        let profile = match &output_stream.profile {
            Some(p) => lowercase(p.as_str()),
            None => String::new(),
        };
        stream_of_kind(output_stream, kind.as_str(), codec, profile)
    } else {
        stream_of_kind(output_stream, kind.as_str(), String::new(), String::new())
    }
}

/// Every usable stream of a probe output, in order.
pub fn output_streams_to_results(streams: &Vec<ProbeOutputStream>) -> (res: Vec<ProbeResultStream>)
    ensures
        exists|kept: Seq<Option<ProbeResultStream>>|
            #![trigger kept.len()]
            kept.len() == streams@.len()
            && (forall|i: int| 0 <= i < streams@.len() ==> describes_stream(streams@[i], #[trigger] kept[i]))
            && res@ == present_streams(kept),
{
    let mut res: Vec<ProbeResultStream> = Vec::new();
    let ghost mut kept: Seq<Option<ProbeResultStream>> = Seq::empty();
    let n = streams.len();
    let mut i: usize = 0;
    while i < n
        invariant
            n == streams@.len(),
            0 <= i <= n,
            kept.len() == i,
            forall|j: int| 0 <= j < i ==> describes_stream(streams@[j], #[trigger] kept[j]),
            res@ == present_streams(kept),
        decreases n - i,
    {
        let r = output_to_result(&streams[i]);
        let ghost prev = kept;
        proof {
            kept = kept.push(r);
            assert(kept.drop_last() =~= prev);
        }
        match r {
            Some(s) => { res.push(s); },
            None => {},
        }
        i = i + 1;
    }
    assert(kept.len() == streams@.len());
    res
}

/// All the present values of a sequence of options, in order.
pub open spec fn present_streams(s: Seq<Option<ProbeResultStream>>) -> Seq<ProbeResultStream>
    decreases s.len(),
{
    if s.len() == 0 {
        Seq::empty()
    } else {
        let rest = present_streams(s.drop_last());
        match s.last() {
            Some(x) => rest.push(x),
            None => rest,
        }
    }
}

} // verus!

verus! {

/// The video stream of a stream entry, if it is one.
pub open spec fn video_at(s: ProbeResultStream) -> Option<ProbeResultVideoStream> {
    match s {
        ProbeResultStream::Video(v) => Some(*v),
        _ => None,
    }
}

/// The audio stream of a stream entry, if it is one.
pub open spec fn audio_at(s: ProbeResultStream) -> Option<ProbeResultAudioStream> {
    match s {
        ProbeResultStream::Audio(a) => Some(a),
        _ => None,
    }
}

/// Whether the entry is a video stream with the given index.
pub open spec fn is_video_with_index(s: ProbeResultStream, index: u32) -> bool {
    s matches ProbeResultStream::Video(v) && v.stream_index == index
}

/// Whether the entry is an audio stream with the given index.
pub open spec fn is_audio_with_index(s: ProbeResultStream, index: u32) -> bool {
    s matches ProbeResultStream::Audio(a) && a.stream_index == index
}

/// Whether some video stream has the requested index.
pub open spec fn requested_video_found(streams: Seq<ProbeResultStream>, requested: Option<u32>) -> bool {
    requested is Some && exists|j: int| 0 <= j < streams.len() && #[trigger] is_video_with_index(streams[j], requested.unwrap())
}

/// Whether some audio stream has the requested index.
pub open spec fn requested_audio_found(streams: Seq<ProbeResultStream>, requested: Option<u32>) -> bool {
    requested is Some && exists|j: int| 0 <= j < streams.len() && #[trigger] is_audio_with_index(streams[j], requested.unwrap())
}

/// Whether there is a video stream.
pub open spec fn has_video(streams: Seq<ProbeResultStream>) -> bool {
    exists|j: int| 0 <= j < streams.len() && #[trigger] streams[j] is Video
}

/// Whether there is an audio stream.
pub open spec fn has_audio(streams: Seq<ProbeResultStream>) -> bool {
    exists|j: int| 0 <= j < streams.len() && #[trigger] streams[j] is Audio
}

/// The video stream at `k` is the one the pipeline uses: the first with
/// the requested index when there is one, otherwise the first with the
/// lowest index.
pub open spec fn selects_video(streams: Seq<ProbeResultStream>, requested: Option<u32>, k: int) -> bool {
    &&& 0 <= k < streams.len()
    &&& streams[k] is Video
    &&& if requested_video_found(streams, requested) {
        &&& is_video_with_index(streams[k], requested.unwrap())
        &&& forall|j: int| 0 <= j < k ==> !#[trigger] is_video_with_index(streams[j], requested.unwrap())
    } else {
        &&& forall|j: int|
            0 <= j < streams.len() && #[trigger] streams[j] is Video ==> video_at(streams[k]).unwrap().stream_index
                <= video_at(streams[j]).unwrap().stream_index
        &&& forall|j: int|
            0 <= j < k && #[trigger] streams[j] is Video ==> video_at(streams[j]).unwrap().stream_index
                > video_at(streams[k]).unwrap().stream_index
    }
}

/// The audio stream at `k` is the one the pipeline uses: the first with
/// the requested index when there is one, otherwise the first with the
/// most channels.
pub open spec fn selects_audio(streams: Seq<ProbeResultStream>, requested: Option<u32>, k: int) -> bool {
    &&& 0 <= k < streams.len()
    &&& streams[k] is Audio
    &&& if requested_audio_found(streams, requested) {
        &&& is_audio_with_index(streams[k], requested.unwrap())
        &&& forall|j: int| 0 <= j < k ==> !#[trigger] is_audio_with_index(streams[j], requested.unwrap())
    } else {
        &&& forall|j: int|
            0 <= j < streams.len() && #[trigger] streams[j] is Audio ==> audio_at(streams[k]).unwrap().channels
                >= audio_at(streams[j]).unwrap().channels
        &&& forall|j: int|
            0 <= j < k && #[trigger] streams[j] is Audio ==> audio_at(streams[j]).unwrap().channels
                < audio_at(streams[k]).unwrap().channels
    }
}

/// The position of the video stream the pipeline uses, if there is any.
pub fn video_stream_position(streams: &Vec<ProbeResultStream>, requested: Option<u32>) -> (res: Option<usize>)
    ensures
        res is None <==> !has_video(streams@),
        res matches Some(k) ==> selects_video(streams@, requested, k as int),
{
    let n = streams.len();
    if let Some(index) = requested {
        let mut i: usize = 0;
        while i < n
            invariant
                n == streams@.len(),
                0 <= i <= n,
                requested == Some(index),
                forall|j: int| 0 <= j < i ==> !#[trigger] is_video_with_index(streams@[j], index),
            decreases n - i,
        {
            match &streams[i] {
                ProbeResultStream::Video(v) => {
                    if v.stream_index == index {
                        assert(is_video_with_index(streams@[i as int], index));
                        assert(is_video_with_index(streams@[i as int], requested.unwrap()));
                        assert(requested_video_found(streams@, requested));
                        assert(streams@[i as int] is Video);
                        return Some(i);
                    }
                },
                _ => {},
            }
            i = i + 1;
        }
    }
    assert(!requested_video_found(streams@, requested));
    let mut best: Option<usize> = None;
    let mut i: usize = 0;
    while i < n
        invariant
            n == streams@.len(),
            0 <= i <= n,
            !requested_video_found(streams@, requested),
            best is None <==> forall|j: int| 0 <= j < i ==> !(#[trigger] streams@[j] is Video),
            best matches Some(k) ==> {
                &&& k < i
                &&& streams@[k as int] is Video
                &&& forall|j: int|
                    0 <= j < i && #[trigger] streams@[j] is Video ==> video_at(streams@[k as int]).unwrap().stream_index
                        <= video_at(streams@[j]).unwrap().stream_index
                &&& forall|j: int|
                    0 <= j < k && #[trigger] streams@[j] is Video ==> video_at(streams@[j]).unwrap().stream_index
                        > video_at(streams@[k as int]).unwrap().stream_index
            },
        decreases n - i,
    {
        match &streams[i] {
            ProbeResultStream::Video(v) => {
                match best {
                    None => {
                        best = Some(i);
                    },
                    Some(k) => {
                        let better = match &streams[k] {
                            ProbeResultStream::Video(b) => v.stream_index < b.stream_index,
                            _ => false,
                        };
                        if better {
                            best = Some(i);
                        }
                    },
                }
            },
            _ => {},
        }
        i = i + 1;
    }
    proof {
        if best is None {
            assert(!has_video(streams@));
        }
    }
    best
}

/// The position of the audio stream the pipeline uses, if there is any.
pub fn audio_stream_position(streams: &Vec<ProbeResultStream>, requested: Option<u32>) -> (res: Option<usize>)
    ensures
        res is None <==> !has_audio(streams@),
        res matches Some(k) ==> selects_audio(streams@, requested, k as int),
{
    let n = streams.len();
    if let Some(index) = requested {
        let mut i: usize = 0;
        while i < n
            invariant
                n == streams@.len(),
                0 <= i <= n,
                requested == Some(index),
                forall|j: int| 0 <= j < i ==> !#[trigger] is_audio_with_index(streams@[j], index),
            decreases n - i,
        {
            match &streams[i] {
                ProbeResultStream::Audio(a) => {
                    if a.stream_index == index {
                        assert(is_audio_with_index(streams@[i as int], index));
                        assert(is_audio_with_index(streams@[i as int], requested.unwrap()));
                        assert(requested_audio_found(streams@, requested));
                        assert(streams@[i as int] is Audio);
                        return Some(i);
                    }
                },
                _ => {},
            }
            i = i + 1;
        }
    }
    assert(!requested_audio_found(streams@, requested));
    let mut best: Option<usize> = None;
    let mut i: usize = 0;
    while i < n
        invariant
            n == streams@.len(),
            0 <= i <= n,
            !requested_audio_found(streams@, requested),
            best is None <==> forall|j: int| 0 <= j < i ==> !(#[trigger] streams@[j] is Audio),
            best matches Some(k) ==> {
                &&& k < i
                &&& streams@[k as int] is Audio
                &&& forall|j: int|
                    0 <= j < i && #[trigger] streams@[j] is Audio ==> audio_at(streams@[k as int]).unwrap().channels
                        >= audio_at(streams@[j]).unwrap().channels
                &&& forall|j: int|
                    0 <= j < k && #[trigger] streams@[j] is Audio ==> audio_at(streams@[j]).unwrap().channels
                        < audio_at(streams@[k as int]).unwrap().channels
            },
        decreases n - i,
    {
        match &streams[i] {
            ProbeResultStream::Audio(a) => {
                match best {
                    None => {
                        best = Some(i);
                    },
                    Some(k) => {
                        let better = match &streams[k] {
                            ProbeResultStream::Audio(b) => a.channels > b.channels,
                            _ => false,
                        };
                        if better {
                            best = Some(i);
                        }
                    },
                }
            },
            _ => {},
        }
        i = i + 1;
    }
    proof {
        if best is None {
            assert(!has_audio(streams@));
        }
    }
    best
}

} // verus!

verus! {

/// Where the ffmpeg and ffprobe programs that probing runs are.
#[derive(Clone, Debug)]
pub struct ProbeDeps {
    pub ffmpeg_path: String,
    pub ffprobe_path: String,
}

/// The options that make ffprobe describe a file as JSON.
pub open spec fn ffprobe_report_args() -> Seq<Seq<char>> {
    seq![
        "-hide_banner"@,
        "-print_format"@,
        "json"@,
        "-show_format"@,
        "-show_streams"@,
        "-show_chapters"@,
    ]
}

fn push_report_args(args: &mut Vec<String>)
    ensures
        arg_texts(final(args)@) == arg_texts(old(args)@) + ffprobe_report_args(),
{
    push_arg(args, "-hide_banner");
    push_arg(args, "-print_format");
    push_arg(args, "json");
    push_arg(args, "-show_format");
    push_arg(args, "-show_streams");
    push_arg(args, "-show_chapters");
    assert(arg_texts(args@) =~= arg_texts(old(args)@) + ffprobe_report_args());
}

/// ffprobe's arguments to describe the media at `path`, read as `source`
/// says.
pub fn ffprobe_args(source: &InputSource, path: &str) -> (res: Vec<String>)
    ensures
        arg_texts(res@) == ffprobe_report_args() + arg_texts(source.input_args@) + seq!["-i"@, path@],
{
    let mut args: Vec<String> = Vec::new();
    push_report_args(&mut args);
    extend_args_from(&mut args, &source.input_args);
    push_arg(&mut args, "-i");
    push_arg(&mut args, path);
    assert(arg_texts(args@) =~= ffprobe_report_args() + arg_texts(source.input_args@) + seq!["-i"@, path@]);
    args
}

/// ffprobe's arguments to describe media piped to its standard input.
pub fn ffprobe_stdin_args() -> (res: Vec<String>)
    ensures
        arg_texts(res@) == ffprobe_report_args() + seq!["-i"@, "pipe:0"@],
{
    let mut args: Vec<String> = Vec::new();
    push_report_args(&mut args);
    push_arg(&mut args, "-i");
    push_arg(&mut args, "pipe:0");
    assert(arg_texts(args@) =~= ffprobe_report_args() + seq!["-i"@, "pipe:0"@]);
    args
}

/// ffmpeg's arguments to render one second of the lavfi graph `params` to
/// standard output, so that ffprobe can describe it.
pub fn lavfi_sample_args(params: &str) -> (res: Vec<String>)
    ensures
        arg_texts(res@) == seq!["-f"@, "lavfi"@, "-i"@, params@, "-t"@, "1"@, "-f"@, "nut"@, "pipe:1"@],
{
    let mut args: Vec<String> = Vec::new();
    push_arg(&mut args, "-f");
    push_arg(&mut args, "lavfi");
    push_arg(&mut args, "-i");
    push_arg(&mut args, params);
    push_arg(&mut args, "-t");
    push_arg(&mut args, "1");
    push_arg(&mut args, "-f");
    push_arg(&mut args, "nut");
    push_arg(&mut args, "pipe:1");
    assert(arg_texts(args@) =~= seq!["-f"@, "lavfi"@, "-i"@, params@, "-t"@, "1"@, "-f"@, "nut"@, "pipe:1"@]);
    args
}

/// The probe result of `path`: the usable streams of ffprobe's output,
/// in order, and the duration it reported.
pub fn probe_result(path: &str, streams: &Vec<ProbeOutputStream>, duration: Option<TimeSpan>) -> (res: ProbeResult)
    ensures
        res.path@ == path@,
        res.duration == duration,
        exists|kept: Seq<Option<ProbeResultStream>>|
            #![trigger kept.len()]
            kept.len() == streams@.len()
            && (forall|i: int| 0 <= i < streams@.len() ==> describes_stream(streams@[i], #[trigger] kept[i]))
            && res.streams@ == present_streams(kept),
{
    ProbeResult { path: path.to_string(), streams: output_streams_to_results(streams), duration }
}

} // verus!

verus! {

/// A one-line description of a stream: its index, kind, codec, and its
/// channels (audio) or size and frame rate (video).
pub open spec fn stream_description(s: ProbeResultStream) -> Seq<char> {
    match s {
        ProbeResultStream::Audio(a) => decimal(a.stream_index as nat) + ": audio ("@ + a.codec@ + " - "@ + decimal(
            a.channels as nat,
        ) + " channels)"@,
        ProbeResultStream::Video(v) => decimal(v.stream_index as nat) + ": video ("@ + v.codec@ + " - "@ + decimal(
            v.width as nat,
        ) + "x"@ + decimal(v.height as nat) + " - "@ + v.frame_rate.r_frame_rate@ + ")"@,
    }
}

impl ProbeResultStream {
    /// This stream's one-line description.
    pub fn describe(&self) -> (res: String)
        ensures
            res@ == stream_description(*self),
    {
        match self {
            ProbeResultStream::Audio(a) => {
                let mut s = decimal_string(a.stream_index as u128);
                s.append(": audio (");
                s.append(a.codec.as_str());
                s.append(" - ");
                append_decimal(&mut s, a.channels as u128);
                s.append(" channels)");
                s
            },
            ProbeResultStream::Video(v) => {
                let mut s = decimal_string(v.stream_index as u128);
                s.append(": video (");
                s.append(v.codec.as_str());
                s.append(" - ");
                append_decimal(&mut s, v.width as u128);
                s.append("x");
                append_decimal(&mut s, v.height as u128);
                s.append(" - ");
                s.append(v.frame_rate.r_frame_rate.as_str());
                s.append(")");
                s
            },
        }
    }
}

} // verus!
