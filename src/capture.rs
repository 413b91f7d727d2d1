//! The capture source's decisions: which devices it accepts, and which
//! blocks it hands on.

use vstd::prelude::*;
use crate::errors::AudioBackendError;
use crate::messages::CaptureMsg;

verus! {

/// What the capture source learned of its input device.
pub struct AudioInputConfig {
    pub input_channels: usize,
    pub sample_rate: u32,
}

/// Only mono and stereo devices are accepted.
pub open spec fn supported_channels(channels: usize) -> bool {
    channels == 1 || channels == 2
}

/// Accepts a device's channel count when it is mono or stereo.
pub fn check_input_channels(channels: usize) -> (r: Result<usize, AudioBackendError>)
    ensures
        supported_channels(channels) <==> r is Ok,
        r is Ok ==> r->Ok_0 == channels,
        !supported_channels(channels) ==> r matches Err(AudioBackendError::UnsupportedInputChannels),
{
    if channels != 1 && channels != 2 {
        Err(AudioBackendError::UnsupportedInputChannels)
    } else {
        Ok(channels)
    }
}

/// Builds the configuration of an accepted device.
pub fn input_config(channels: usize, sample_rate: u32) -> (r: Result<
    AudioInputConfig,
    AudioBackendError,
>)
    ensures
        r is Ok <==> supported_channels(channels),
        r is Ok ==> r->Ok_0.input_channels == channels && r->Ok_0.sample_rate == sample_rate,
        !supported_channels(channels) ==> r matches Err(AudioBackendError::UnsupportedInputChannels),
{
    let input_channels = check_input_channels(channels)?;
    Ok(AudioInputConfig { input_channels, sample_rate })
}

/// The message that one device callback hands on: its block while the
/// recording flag is set, nothing otherwise.
pub fn forward_block<S>(recording: bool, block: Vec<S>) -> (r: Option<CaptureMsg<S>>)
    ensures
        recording ==> (r matches Some(CaptureMsg::Audio(b)) && b@ == block@),
        !recording ==> r is None,
{
    if recording {
        Some(CaptureMsg::Audio(block))
    } else {
        None
    }
}

/// The message that a stream error hands on: the source stops for good.
pub fn on_stream_error<S>() -> (r: CaptureMsg<S>)
    ensures
        r is Exit,
{
    CaptureMsg::Exit
}

} // verus!
