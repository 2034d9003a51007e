//! Audio encoders.
use vstd::prelude::*;

use crate::text::{arg_texts, push_arg};

verus! {

/// The audio encoder of the output.
#[derive(Clone, Copy, Debug, PartialEq, Eq, Structural)]
pub enum AudioCodec {
    Copy,
    Aac,
    Ac3,
}

/// ffmpeg's name of an audio encoder.
pub open spec fn audio_codec_name(c: AudioCodec) -> Seq<char> {
    match c {
        AudioCodec::Copy => "copy"@,
        AudioCodec::Aac => "aac"@,
        AudioCodec::Ac3 => "ac3"@,
    }
}

impl AudioCodec {
    /// `-acodec <name>`.
    pub fn as_arg(&self) -> (res: Vec<String>)
        ensures
            arg_texts(res@) == seq!["-acodec"@, audio_codec_name(*self)],
    {
        let codec = match self {
            AudioCodec::Copy => "copy",
            AudioCodec::Aac => "aac",
            AudioCodec::Ac3 => "ac3",
        };
        let mut args: Vec<String> = Vec::new();
        push_arg(&mut args, "-acodec");
        push_arg(&mut args, codec);
        assert(arg_texts(args@) =~= seq!["-acodec"@, audio_codec_name(*self)]);
        args
    }
}

} // verus!
