//! What the installed ffmpeg supports: hardware acceleration methods and
//! video filters.
use vstd::prelude::*;

use crate::text::{
    arg_texts, char_texts, chars_of, contains_text, copy_args, has_char, lines_of, push_owned,
    split_lines, string_of_chars, text_eq, trim, trimmed, words, words_of,
};

verus! {

/// Hardware acceleration methods that the pipeline knows.
#[derive(Clone, Copy, Debug, PartialEq, Eq, Structural)]
pub enum KnownHardwareAccel {
    Cuda,
    Qsv,
    Vaapi,
    VideoToolbox,
    Vulkan,
    Opencl,
}

/// ffmpeg's name of a hardware acceleration method.
pub open spec fn hw_accel_name(a: KnownHardwareAccel) -> Seq<char> {
    match a {
        KnownHardwareAccel::Cuda => "cuda"@,
        KnownHardwareAccel::Qsv => "qsv"@,
        KnownHardwareAccel::Vaapi => "vaapi"@,
        KnownHardwareAccel::VideoToolbox => "videotoolbox"@,
        KnownHardwareAccel::Vulkan => "vulkan"@,
        KnownHardwareAccel::Opencl => "opencl"@,
    }
}

/// Whether a text names a known hardware acceleration method.
pub open spec fn is_known_hw_accel_name(s: Seq<char>) -> bool {
    exists|a: KnownHardwareAccel| #[trigger] hw_accel_name(a) == s
}

impl KnownHardwareAccel {
    /// ffmpeg's name of this method.
    pub fn as_str(&self) -> (res: &'static str)
        ensures
            res@ == hw_accel_name(*self),
    {
        match self {
            KnownHardwareAccel::Cuda => "cuda",
            KnownHardwareAccel::Qsv => "qsv",
            KnownHardwareAccel::Vaapi => "vaapi",
            KnownHardwareAccel::VideoToolbox => "videotoolbox",
            KnownHardwareAccel::Vulkan => "vulkan",
            KnownHardwareAccel::Opencl => "opencl",
        }
    }

    /// The method that `name` names, if any.
    pub fn from_name(name: &str) -> (res: Option<KnownHardwareAccel>)
        ensures
            match res {
                Some(a) => hw_accel_name(a) == name@,
                None => !is_known_hw_accel_name(name@),
            },
    {
        if text_eq(name, "cuda") {
            Some(KnownHardwareAccel::Cuda)
        } else if text_eq(name, "qsv") {
            Some(KnownHardwareAccel::Qsv)
        } else if text_eq(name, "vaapi") {
            Some(KnownHardwareAccel::Vaapi)
        } else if text_eq(name, "videotoolbox") {
            Some(KnownHardwareAccel::VideoToolbox)
        } else if text_eq(name, "vulkan") {
            Some(KnownHardwareAccel::Vulkan)
        } else if text_eq(name, "opencl") {
            Some(KnownHardwareAccel::Opencl)
        } else {
            assert forall|a: KnownHardwareAccel| hw_accel_name(a) != name@ by {
                match a {
                    KnownHardwareAccel::Cuda => {},
                    KnownHardwareAccel::Qsv => {},
                    KnownHardwareAccel::Vaapi => {},
                    KnownHardwareAccel::VideoToolbox => {},
                    KnownHardwareAccel::Vulkan => {},
                    KnownHardwareAccel::Opencl => {},
                }
            }
            None
        }
    }
}

/// Video filters that the pipeline knows.
#[derive(Clone, Copy, Debug, PartialEq, Eq, Structural)]
pub enum KnownVideoFilter {
    Bwdif,
    LibPlacebo,
    PadCuda,
    PadVaapi,
    ScaleCuda,
    ScaleVaapi,
    ScaleVulkan,
    TonemapOpencl,
    VppQsv,
    W3fdif,
    Yadif,
}

/// ffmpeg's name of a video filter.
pub open spec fn video_filter_name(f: KnownVideoFilter) -> Seq<char> {
    match f {
        KnownVideoFilter::Bwdif => "bwdif"@,
        KnownVideoFilter::LibPlacebo => "libplacebo"@,
        KnownVideoFilter::PadCuda => "pad_cuda"@,
        KnownVideoFilter::PadVaapi => "pad_vaapi"@,
        KnownVideoFilter::ScaleCuda => "scale_cuda"@,
        KnownVideoFilter::ScaleVaapi => "scale_vaapi"@,
        KnownVideoFilter::ScaleVulkan => "scale_vulkan"@,
        KnownVideoFilter::TonemapOpencl => "tonemap_opencl"@,
        KnownVideoFilter::VppQsv => "vpp_qsv"@,
        KnownVideoFilter::W3fdif => "w3fdif"@,
        KnownVideoFilter::Yadif => "yadif"@,
    }
}

/// Whether a text names a known video filter.
pub open spec fn is_known_video_filter_name(s: Seq<char>) -> bool {
    exists|f: KnownVideoFilter| #[trigger] video_filter_name(f) == s
}

impl KnownVideoFilter {
    /// ffmpeg's name of this filter.
    pub fn as_str(&self) -> (res: &'static str)
        ensures
            res@ == video_filter_name(*self),
    {
        match self {
            KnownVideoFilter::Bwdif => "bwdif",
            KnownVideoFilter::LibPlacebo => "libplacebo",
            KnownVideoFilter::PadCuda => "pad_cuda",
            KnownVideoFilter::PadVaapi => "pad_vaapi",
            KnownVideoFilter::ScaleCuda => "scale_cuda",
            KnownVideoFilter::ScaleVaapi => "scale_vaapi",
            KnownVideoFilter::ScaleVulkan => "scale_vulkan",
            KnownVideoFilter::TonemapOpencl => "tonemap_opencl",
            KnownVideoFilter::VppQsv => "vpp_qsv",
            KnownVideoFilter::W3fdif => "w3fdif",
            KnownVideoFilter::Yadif => "yadif",
        }
    }

    /// The filter that `name` names, if any.
    pub fn from_name(name: &str) -> (res: Option<KnownVideoFilter>)
        ensures
            match res {
                Some(f) => video_filter_name(f) == name@,
                None => !is_known_video_filter_name(name@),
            },
    {
        if text_eq(name, "bwdif") {
            Some(KnownVideoFilter::Bwdif)
        } else if text_eq(name, "libplacebo") {
            Some(KnownVideoFilter::LibPlacebo)
        } else if text_eq(name, "pad_cuda") {
            Some(KnownVideoFilter::PadCuda)
        } else if text_eq(name, "pad_vaapi") {
            Some(KnownVideoFilter::PadVaapi)
        } else if text_eq(name, "scale_cuda") {
            Some(KnownVideoFilter::ScaleCuda)
        } else if text_eq(name, "scale_vaapi") {
            Some(KnownVideoFilter::ScaleVaapi)
        } else if text_eq(name, "scale_vulkan") {
            Some(KnownVideoFilter::ScaleVulkan)
        } else if text_eq(name, "tonemap_opencl") {
            Some(KnownVideoFilter::TonemapOpencl)
        } else if text_eq(name, "vpp_qsv") {
            Some(KnownVideoFilter::VppQsv)
        } else if text_eq(name, "w3fdif") {
            Some(KnownVideoFilter::W3fdif)
        } else if text_eq(name, "yadif") {
            Some(KnownVideoFilter::Yadif)
        } else {
            assert forall|f: KnownVideoFilter| video_filter_name(f) != name@ by {
                match f {
                    KnownVideoFilter::Bwdif => {},
                    KnownVideoFilter::LibPlacebo => {},
                    KnownVideoFilter::PadCuda => {},
                    KnownVideoFilter::PadVaapi => {},
                    KnownVideoFilter::ScaleCuda => {},
                    KnownVideoFilter::ScaleVaapi => {},
                    KnownVideoFilter::ScaleVulkan => {},
                    KnownVideoFilter::TonemapOpencl => {},
                    KnownVideoFilter::VppQsv => {},
                    KnownVideoFilter::W3fdif => {},
                    KnownVideoFilter::Yadif => {},
                }
            }
            None
        }
    }
}

/// The hardware acceleration methods named in the lines of ffmpeg's
/// `-hwaccels` listing: each line, trimmed, that is not empty, holds no
/// colon and names a known method.
pub open spec fn accels_in_lines(lines: Seq<Seq<char>>) -> Seq<Seq<char>>
    decreases lines.len(),
{
    if lines.len() == 0 {
        Seq::empty()
    } else {
        let rest = accels_in_lines(lines.drop_last());
        let t = trim(lines.last());
        if !t.contains(':') && t.len() > 0 && is_known_hw_accel_name(t) {
            rest.push(t)
        } else {
            rest
        }
    }
}

/// The video filters named in the lines of ffmpeg's `-filters` listing:
/// the second word of each line, where it names a known filter that is not
/// disabled.
pub open spec fn filters_in_lines(lines: Seq<Seq<char>>, disabled: Seq<Seq<char>>) -> Seq<Seq<char>>
    decreases lines.len(),
{
    if lines.len() == 0 {
        Seq::empty()
    } else {
        let rest = filters_in_lines(lines.drop_last(), disabled);
        let w = words(lines.last());
        if w.len() > 1 && is_known_video_filter_name(w[1]) && !disabled.contains(w[1]) {
            rest.push(w[1])
        } else {
            rest
        }
    }
}

/// The entries of `wanted` that occur in `available`, in order.
pub open spec fn kept_if_available(wanted: Seq<Seq<char>>, available: Seq<Seq<char>>) -> Seq<Seq<char>>
    decreases wanted.len(),
{
    if wanted.len() == 0 {
        Seq::empty()
    } else {
        let rest = kept_if_available(wanted.drop_last(), available);
        if available.contains(wanted.last()) {
            rest.push(wanted.last())
        } else {
            rest
        }
    }
}

/// The hardware acceleration methods that ffmpeg's `-hwaccels` output
/// lists, in the order listed.
pub fn hw_accels_from_listing(stdout: &str) -> (res: Vec<String>)
    ensures
        arg_texts(res@) == accels_in_lines(split_lines(stdout@)),
{
    let chars = chars_of(stdout);
    let lines = lines_of(&chars);
    let mut res: Vec<String> = Vec::new();
    let n = lines.len();
    let mut i: usize = 0;
    while i < n
        invariant
            n == lines@.len(),
            0 <= i <= n,
            char_texts(lines@) == split_lines(stdout@),
            arg_texts(res@) == accels_in_lines(char_texts(lines@).take(i as int)),
        decreases n - i,
    {
        let t = trimmed(&lines[i]);
        let ghost all = char_texts(lines@);
        assert(all.take(i + 1).drop_last() =~= all.take(i as int));
        assert(all.take(i + 1).last() == lines@[i as int]@);
        if !has_char(&t, ':') && t.len() > 0 {
            let name = string_of_chars(&t);
            match KnownHardwareAccel::from_name(name.as_str()) {
                Some(_) => {
                    push_owned(&mut res, name);
                },
                None => {},
            }
        }
        i = i + 1;
    }
    assert(char_texts(lines@).take(n as int) =~= char_texts(lines@));
    res
}

/// The known, not disabled video filters that ffmpeg's `-filters` output
/// lists, in the order listed.
pub fn video_filters_from_listing(stdout: &str, disabled_filters: &Vec<String>) -> (res: Vec<String>)
    ensures
        arg_texts(res@) == filters_in_lines(split_lines(stdout@), arg_texts(disabled_filters@)),
{
    let chars = chars_of(stdout);
    let lines = lines_of(&chars);
    let ghost disabled = arg_texts(disabled_filters@);
    let mut res: Vec<String> = Vec::new();
    let n = lines.len();
    let mut i: usize = 0;
    while i < n
        invariant
            n == lines@.len(),
            0 <= i <= n,
            char_texts(lines@) == split_lines(stdout@),
            disabled == arg_texts(disabled_filters@),
            arg_texts(res@) == filters_in_lines(char_texts(lines@).take(i as int), disabled),
        decreases n - i,
    {
        let w = words_of(&lines[i]);
        let ghost all = char_texts(lines@);
        assert(all.take(i + 1).drop_last() =~= all.take(i as int));
        assert(all.take(i + 1).last() == lines@[i as int]@);
        if w.len() > 1 {
            let name = string_of_chars(&w[1]);
            assert(char_texts(w@)[1] == w@[1]@);
            match KnownVideoFilter::from_name(name.as_str()) {
                Some(_) => {
                    if !contains_text(disabled_filters, name.as_str()) {
                        push_owned(&mut res, name);
                    }
                },
                None => {},
            }
        }
        i = i + 1;
    }
    assert(char_texts(lines@).take(n as int) =~= char_texts(lines@));
    res
}

/// The entries of `wanted` that `available` holds, in order.
pub fn keep_available(wanted: &Vec<String>, available: &Vec<String>) -> (res: Vec<String>)
    ensures
        arg_texts(res@) == kept_if_available(arg_texts(wanted@), arg_texts(available@)),
{
    let mut res: Vec<String> = Vec::new();
    let n = wanted.len();
    let mut i: usize = 0;
    while i < n
        invariant
            n == wanted@.len(),
            0 <= i <= n,
            arg_texts(res@) == kept_if_available(arg_texts(wanted@).take(i as int), arg_texts(available@)),
        decreases n - i,
    {
        let ghost all = arg_texts(wanted@);
        assert(all.take(i + 1).drop_last() =~= all.take(i as int));
        assert(all.take(i + 1).last() == wanted@[i as int]@);
        if contains_text(available, wanted[i].as_str()) {
            push_owned(&mut res, wanted[i].clone());
        }
        i = i + 1;
    }
    assert(arg_texts(wanted@).take(n as int) =~= arg_texts(wanted@));
    res
}

/// Whether the description lists the video filter.
pub open spec fn lists_filter(info: FfmpegInfo, f: KnownVideoFilter) -> bool {
    arg_texts(info.video_filters@).contains(video_filter_name(f))
}

/// Whether the description lists the hardware acceleration method.
pub open spec fn lists_accel(info: FfmpegInfo, a: KnownHardwareAccel) -> bool {
    arg_texts(info.hwaccels@).contains(hw_accel_name(a))
}

/// What the installed ffmpeg supports: its hardware acceleration methods,
/// its known video filters, and the preferred filters it has.
#[derive(Clone, Debug)]
pub struct FfmpegInfo {
    pub hwaccels: Vec<String>,
    pub video_filters: Vec<String>,
    pub preferred_filters: Vec<String>,
}

impl Default for FfmpegInfo {
    /// An ffmpeg that supports nothing.
    fn default() -> (res: FfmpegInfo)
        ensures
            res.hwaccels@.len() == 0,
            res.video_filters@.len() == 0,
            res.preferred_filters@.len() == 0,
    {
        FfmpegInfo::empty()
    }
}

impl FfmpegInfo {
    /// An ffmpeg that supports nothing.
    pub fn empty() -> (res: FfmpegInfo)
        ensures
            res.hwaccels@.len() == 0,
            res.video_filters@.len() == 0,
            res.preferred_filters@.len() == 0,
    {
        FfmpegInfo { hwaccels: Vec::new(), video_filters: Vec::new(), preferred_filters: Vec::new() }
    }

    /// What ffmpeg supports, read from its `-hwaccels` and `-filters`
    /// listings; `disabled_filters` are left out, and of
    /// `preferred_filters` only those that ffmpeg has are kept.
    pub fn from_listings(
        hwaccels_stdout: &str,
        filters_stdout: &str,
        disabled_filters: &Vec<String>,
        preferred_filters: &Vec<String>,
    ) -> (res: FfmpegInfo)
        ensures
            arg_texts(res.hwaccels@) == accels_in_lines(split_lines(hwaccels_stdout@)),
            arg_texts(res.video_filters@) == filters_in_lines(
                split_lines(filters_stdout@),
                arg_texts(disabled_filters@),
            ),
            arg_texts(res.preferred_filters@) == kept_if_available(
                arg_texts(preferred_filters@),
                arg_texts(res.video_filters@),
            ),
    {
        let hwaccels = hw_accels_from_listing(hwaccels_stdout);
        let video_filters = video_filters_from_listing(filters_stdout, disabled_filters);
        let preferred = keep_available(preferred_filters, &video_filters);
        FfmpegInfo { hwaccels, video_filters, preferred_filters: preferred }
    }

    /// Whether ffmpeg supports the acceleration method.
    pub fn has_hw_accel(&self, hw_accel: &KnownHardwareAccel) -> (res: bool)
        ensures
            res == arg_texts(self.hwaccels@).contains(hw_accel_name(*hw_accel)),
    {
        contains_text(&self.hwaccels, hw_accel.as_str())
    }

    /// Whether ffmpeg has the video filter.
    pub fn has_video_filter(&self, filter: &KnownVideoFilter) -> (res: bool)
        ensures
            res == arg_texts(self.video_filters@).contains(video_filter_name(*filter)),
    {
        contains_text(&self.video_filters, filter.as_str())
    }

    /// A copy of this description.
    pub fn duplicate(&self) -> (res: FfmpegInfo)
        ensures
            arg_texts(res.hwaccels@) == arg_texts(self.hwaccels@),
            arg_texts(res.video_filters@) == arg_texts(self.video_filters@),
            arg_texts(res.preferred_filters@) == arg_texts(self.preferred_filters@),
    {
        FfmpegInfo {
            hwaccels: copy_args(&self.hwaccels),
            video_filters: copy_args(&self.video_filters),
            preferred_filters: copy_args(&self.preferred_filters),
        }
    }
}

} // verus!
