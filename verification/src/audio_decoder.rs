//! Audio decoding options.
use vstd::prelude::*;

use crate::output_settings::OutputSettings;
use crate::probe::ProbeResultAudioStream;
use crate::text::{arg_texts, args4, text_eq};

verus! {

/// How the audio input is decoded.
#[derive(Clone, Debug)]
pub struct AudioDecoder {
    pub input_codec: String,
    pub input_channels: u32,
    pub output_channels: Option<u32>,
}

/// Whether AC-3 input with more than two channels is down-mixed to stereo
/// by its decoder.
pub open spec fn downmixes(d: AudioDecoder) -> bool {
    d.input_codec@ == "ac3"@ && d.input_channels > 2 && d.output_channels == Some(2u32)
}

/// The decoder arguments.
pub open spec fn audio_decoder_args(d: AudioDecoder) -> Seq<Seq<char>> {
    if downmixes(d) {
        seq!["-acodec"@, "ac3"@, "-downmix"@, "stereo"@]
    } else {
        Seq::empty()
    }
}

impl AudioDecoder {
    /// The decoder of an audio stream for the output settings.
    pub fn new(audio_stream: &ProbeResultAudioStream, output_settings: &OutputSettings) -> (res: AudioDecoder)
        ensures
            res.input_codec == audio_stream.codec,
            res.input_channels == audio_stream.channels,
            res.output_channels == output_settings.audio.channels,
    {
        AudioDecoder {
            input_codec: audio_stream.codec.clone(),
            input_channels: audio_stream.channels,
            output_channels: output_settings.audio.channels,
        }
    }

    /// The decoder arguments: down-mixing to stereo where it applies.
    pub fn as_arg(&self) -> (res: Vec<String>)
        ensures
            arg_texts(res@) == audio_decoder_args(*self),
    {
        if text_eq(self.input_codec.as_str(), "ac3") && self.input_channels > 2 && self.output_channels == Some(2u32) {
            return args4("-acodec", "ac3", "-downmix", "stereo");
        }
        let v: Vec<String> = Vec::new();
        assert(arg_texts(v@) =~= Seq::<Seq<char>>::empty());
        v
    }
}

} // verus!
