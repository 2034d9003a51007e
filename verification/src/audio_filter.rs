//! Audio filters of the filter chain.
use vstd::prelude::*;

use crate::output_settings::AudioLoudnessSettings;
use crate::pipeline::Hz;

verus! {

/// An audio filter of the filter chain.
#[derive(Clone, Debug)]
pub enum AudioFilter {
    LoudNorm { settings: Option<AudioLoudnessSettings>, sample_rate: Option<Hz> },
    Resample,
    Pad,
}

} // verus!
