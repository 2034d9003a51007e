//! What a hardware device can decode, encode and convert, as its probe
//! reported it.
use vstd::prelude::*;

use crate::pipeline::{PixelFormat, VideoFormat};
use crate::text::text_eq;

verus! {

/// A video format at a bit depth.
#[derive(Clone, Copy, Debug, PartialEq, Eq, Structural)]
pub struct FormatDepth {
    pub format: VideoFormat,
    pub bit_depth: u8,
}

/// Whether `list` holds the format at the bit depth.
pub fn has_format_depth(list: &Vec<FormatDepth>, format: VideoFormat, bit_depth: u8) -> (res: bool)
    ensures
        res == list@.contains(FormatDepth { format, bit_depth }),
{
    let n = list.len();
    let mut i: usize = 0;
    while i < n
        invariant
            n == list@.len(),
            0 <= i <= n,
            forall|k: int| 0 <= k < i ==> list@[k] != (FormatDepth { format, bit_depth }),
        decreases n - i,
    {
        if list[i].format == format && list[i].bit_depth == bit_depth {
            assert(list@[i as int] == FormatDepth { format, bit_depth });
            return true;
        }
        i = i + 1;
    }
    false
}

/// Whether `list` holds the video format.
pub fn has_video_format(list: &Vec<VideoFormat>, format: VideoFormat) -> (res: bool)
    ensures
        res == list@.contains(format),
{
    let n = list.len();
    let mut i: usize = 0;
    while i < n
        invariant
            n == list@.len(),
            0 <= i <= n,
            forall|k: int| 0 <= k < i ==> list@[k] != format,
        decreases n - i,
    {
        if list[i] == format {
            return true;
        }
        i = i + 1;
    }
    false
}

/// Whether `list` holds the pixel format.
pub fn has_pixel_format(list: &Vec<PixelFormat>, format: PixelFormat) -> (res: bool)
    ensures
        res == list@.contains(format),
{
    let n = list.len();
    let mut i: usize = 0;
    while i < n
        invariant
            n == list@.len(),
            0 <= i <= n,
            forall|k: int| 0 <= k < i ==> list@[k] != format,
        decreases n - i,
    {
        if list[i] == format {
            return true;
        }
        i = i + 1;
    }
    false
}

/// What an NVIDIA device can do.
#[derive(Clone, Debug)]
pub struct NvidiaCapabilities {
    pub decode: Vec<FormatDepth>,
    pub encode: Vec<FormatDepth>,
    /// The formats whose encoder supports B-frames as references.
    pub b_frame_ref_mode: Vec<VideoFormat>,
}

impl NvidiaCapabilities {
    /// Whether the device decodes the format at the bit depth.
    pub fn can_decode(&self, format: &VideoFormat, bit_depth: u8) -> (res: bool)
        ensures
            res == self.decode@.contains(FormatDepth { format: *format, bit_depth }),
    {
        has_format_depth(&self.decode, *format, bit_depth)
    }

    /// Whether the device encodes the format at the bit depth.
    pub fn can_encode(&self, format: &VideoFormat, bit_depth: u8) -> (res: bool)
        ensures
            res == self.encode@.contains(FormatDepth { format: *format, bit_depth }),
    {
        has_format_depth(&self.encode, *format, bit_depth)
    }

    /// Whether the format's encoder supports B-frames as references.
    pub fn b_frame_ref_mode(&self, format: &VideoFormat) -> (res: bool)
        ensures
            res == self.b_frame_ref_mode@.contains(*format),
    {
        has_video_format(&self.b_frame_ref_mode, *format)
    }

    /// A copy of these capabilities.
    pub fn duplicate(&self) -> (res: NvidiaCapabilities)
        ensures
            res.decode@ == self.decode@,
            res.encode@ == self.encode@,
            res.b_frame_ref_mode@ == self.b_frame_ref_mode@,
    {
        NvidiaCapabilities {
            decode: self.decode.clone(),
            encode: self.encode.clone(),
            b_frame_ref_mode: self.b_frame_ref_mode.clone(),
        }
    }
}

/// What an Intel QSV device can do.
#[derive(Clone, Debug)]
pub struct QsvCapabilities {
    pub decode: Vec<FormatDepth>,
    pub encode: Vec<FormatDepth>,
    /// The pixel formats that the video post-processor accepts.
    pub vpp_formats: Vec<PixelFormat>,
}

impl QsvCapabilities {
    /// Whether the device decodes the format at the bit depth.
    pub fn can_decode(&self, format: &VideoFormat, bit_depth: u8) -> (res: bool)
        ensures
            res == self.decode@.contains(FormatDepth { format: *format, bit_depth }),
    {
        has_format_depth(&self.decode, *format, bit_depth)
    }

    /// Whether the device encodes the format at the bit depth.
    pub fn can_encode(&self, format: &VideoFormat, bit_depth: u8) -> (res: bool)
        ensures
            res == self.encode@.contains(FormatDepth { format: *format, bit_depth }),
    {
        has_format_depth(&self.encode, *format, bit_depth)
    }

    /// Whether the video post-processor accepts the pixel format.
    pub fn vpp_supports_format(&self, pixel_format: &PixelFormat) -> (res: bool)
        ensures
            res == self.vpp_formats@.contains(*pixel_format),
    {
        has_pixel_format(&self.vpp_formats, *pixel_format)
    }
}

/// A codec and profile that a VAAPI device decodes at a bit depth.
#[derive(Clone, Debug)]
pub struct VaapiDecodeProfile {
    pub codec: String,
    pub profile: String,
    pub bit_depth: u8,
}

impl VaapiDecodeProfile {
    /// A copy of this entry.
    pub fn duplicate(&self) -> (res: VaapiDecodeProfile)
        ensures
            res == *self,
    {
        VaapiDecodeProfile { codec: self.codec.clone(), profile: self.profile.clone(), bit_depth: self.bit_depth }
    }
}

/// A copy of a list of decode entries.
pub fn copy_decode_profiles(v: &Vec<VaapiDecodeProfile>) -> (res: Vec<VaapiDecodeProfile>)
    ensures
        res@ == v@,
{
    let mut res: Vec<VaapiDecodeProfile> = Vec::new();
    let n = v.len();
    let mut i: usize = 0;
    while i < n
        invariant
            n == v@.len(),
            0 <= i <= n,
            res@ =~= v@.take(i as int),
        decreases n - i,
    {
        res.push(v[i].duplicate());
        i = i + 1;
    }
    assert(v@.take(n as int) =~= v@);
    res
}

/// What a VAAPI device can do.
#[derive(Clone, Debug)]
pub struct VaapiCapabilities {
    pub decode: Vec<VaapiDecodeProfile>,
    pub encode: Vec<FormatDepth>,
    pub encode_low_power: Vec<FormatDepth>,
    /// The pixel formats that the video post-processor accepts.
    pub vpp_formats: Vec<PixelFormat>,
}

/// Whether a VAAPI device decodes the codec and profile at the bit depth.
pub open spec fn vaapi_decodes(decode: Seq<VaapiDecodeProfile>, codec: Seq<char>, profile: Seq<char>, bit_depth: u8) -> bool {
    exists|k: int|
        0 <= k < decode.len() && #[trigger] decode[k].codec@ == codec && decode[k].profile@ == profile
            && decode[k].bit_depth == bit_depth
}

impl VaapiCapabilities {
    /// Whether the device decodes the codec and profile at the bit depth.
    pub fn can_decode(&self, codec: &str, profile: &str, bit_depth: u8) -> (res: bool)
        ensures
            res == vaapi_decodes(self.decode@, codec@, profile@, bit_depth),
    {
        let n = self.decode.len();
        let mut i: usize = 0;
        while i < n
            invariant
                n == self.decode@.len(),
                0 <= i <= n,
                forall|k: int|
                    0 <= k < i ==> !(#[trigger] self.decode@[k].codec@ == codec@ && self.decode@[k].profile@
                        == profile@ && self.decode@[k].bit_depth == bit_depth),
            decreases n - i,
        {
            let entry = &self.decode[i];
            if text_eq(entry.codec.as_str(), codec) && text_eq(entry.profile.as_str(), profile)
                && entry.bit_depth == bit_depth {
                return true;
            }
            i = i + 1;
        }
        false
    }

    /// Whether the device encodes the format at the bit depth.
    pub fn can_encode(&self, format: &VideoFormat, bit_depth: u8) -> (res: bool)
        ensures
            res == self.encode@.contains(FormatDepth { format: *format, bit_depth }),
    {
        has_format_depth(&self.encode, *format, bit_depth)
    }

    /// Whether the device encodes the format at the bit depth in low-power
    /// mode.
    pub fn can_encode_low_power(&self, format: &VideoFormat, bit_depth: u8) -> (res: bool)
        ensures
            res == self.encode_low_power@.contains(FormatDepth { format: *format, bit_depth }),
    {
        has_format_depth(&self.encode_low_power, *format, bit_depth)
    }

    /// Whether the video post-processor accepts the pixel format.
    pub fn vpp_supports_format(&self, pixel_format: &PixelFormat) -> (res: bool)
        ensures
            res == self.vpp_formats@.contains(*pixel_format),
    {
        has_pixel_format(&self.vpp_formats, *pixel_format)
    }
}

/// What an Apple VideoToolbox device can do.
#[derive(Clone, Debug)]
pub struct VideoToolboxCapabilities {
    pub decode: Vec<FormatDepth>,
    pub encode: Vec<FormatDepth>,
}

impl VideoToolboxCapabilities {
    /// Whether the device decodes the format at the bit depth.
    pub fn can_decode(&self, format: &VideoFormat, bit_depth: u8) -> (res: bool)
        ensures
            res == self.decode@.contains(FormatDepth { format: *format, bit_depth }),
    {
        has_format_depth(&self.decode, *format, bit_depth)
    }

    /// Whether the device encodes the format at the bit depth.
    pub fn can_encode(&self, format: &VideoFormat, bit_depth: u8) -> (res: bool)
        ensures
            res == self.encode@.contains(FormatDepth { format: *format, bit_depth }),
    {
        has_format_depth(&self.encode, *format, bit_depth)
    }

    /// A copy of these capabilities.
    pub fn duplicate(&self) -> (res: VideoToolboxCapabilities)
        ensures
            res.decode@ == self.decode@,
            res.encode@ == self.encode@,
    {
        VideoToolboxCapabilities { decode: self.decode.clone(), encode: self.encode.clone() }
    }
}

} // verus!
