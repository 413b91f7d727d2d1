//! Error types of the pipeline and its stages.

use vstd::prelude::*;

verus! {

#[verifier::external_type_specification]
#[verifier::external_body]
pub struct ExResampleError(rubato::ResampleError);

#[verifier::external_type_specification]
#[verifier::external_body]
pub struct ExResamplerConstructionError(rubato::ResamplerConstructionError);

#[verifier::external_type_specification]
#[verifier::external_body]
pub struct ExJoinError(tokio::task::JoinError);

/// Failures of the audio input device and its stream.
///
/// The detail strings carry the audio backend's own description of the
/// failure.
#[derive(Debug)]
pub enum AudioBackendError {
    BuildStream(String),
    NoInputDevice,
    UnsupportedInputChannels,
    PlayStream(String),
    PauseStream(String),
    Devices(String),
    DefaultConfig(String),
    /// The input stream reported an error and stopped producing audio.
    StreamFailed,
}

/// Failures of the resampling stage.
#[derive(Debug)]
pub enum ResamplerError {
    Resample(rubato::ResampleError),
    ResamplerConstructionError(rubato::ResamplerConstructionError),
    /// An interleaved stereo block held an odd number of samples.
    HalfSampleMissing(usize),
}

/// The failure that ends the pipeline, by the stage it comes from.
#[derive(Debug)]
pub enum AudioPipelineError {
    AudioDevice(AudioBackendError),
    Resampler(ResamplerError),
    /// The speech-recognition engine could not be loaded or started.
    SpeechToText(String),
    ModelNotFound,
    AudioDebugError(String),
    AudioPipelineTaskJoinError(tokio::task::JoinError),
}

impl AudioPipelineError {
    /// The stage of the pipeline that the failure comes from.
    pub open spec fn origin(self) -> Stage {
        match self {
            AudioPipelineError::AudioDevice(_) => Stage::Capture,
            AudioPipelineError::Resampler(_) => Stage::Resampling,
            AudioPipelineError::SpeechToText(_) => Stage::Transcription,
            AudioPipelineError::ModelNotFound => Stage::Transcription,
            AudioPipelineError::AudioDebugError(_) => Stage::Transcription,
            AudioPipelineError::AudioPipelineTaskJoinError(_) => Stage::Unknown,
        }
    }

    /// Executable form of `origin`.
    pub fn stage(&self) -> (r: Stage)
        ensures
            r == self.origin(),
    {
        match self {
            AudioPipelineError::AudioDevice(_) => Stage::Capture,
            AudioPipelineError::Resampler(_) => Stage::Resampling,
            AudioPipelineError::SpeechToText(_) => Stage::Transcription,
            AudioPipelineError::ModelNotFound => Stage::Transcription,
            AudioPipelineError::AudioDebugError(_) => Stage::Transcription,
            AudioPipelineError::AudioPipelineTaskJoinError(_) => Stage::Unknown,
        }
    }
}

/// The parts of the pipeline that can fail.
#[derive(Debug, Clone, Copy, PartialEq, Eq, Structural)]
pub enum Stage {
    Capture,
    Resampling,
    Transcription,
    /// A task ended abnormally, without naming a failure of its own.
    Unknown,
}

} // verus!
