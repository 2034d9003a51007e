//! Errors of pipeline construction and media probing.
use vstd::prelude::*;

verus! {

/// Why a pipeline or a probe could not be produced.
#[derive(Clone, Debug, PartialEq)]
pub enum FFPipelineError {
    VideoInputIsRequired,
    AudioInputIsRequired,
    ProbeFailed,
    ProbeFailedToParse,
    FfmpegCapabilitiesError(String),
}

} // verus!
