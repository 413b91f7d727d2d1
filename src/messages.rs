//! Messages that flow along the pipeline.

use vstd::prelude::*;
use vstd::string::StringExecFns;

verus! {

/// A message between two stages of the pipeline, over samples of type `S`.
#[derive(Debug)]
pub enum CaptureMsg<S> {
    /// A block of samples.
    Audio(Vec<S>),
    /// Flush what has been gathered so far, and go on.
    Stop,
    /// The source has failed: end the stage.
    Exit,
}

} // verus!

verus! {

/// Kinds of event that the transcription worker emits.
#[derive(Debug, Clone, Copy, PartialEq, Eq, Structural)]
pub enum SttMessageType {
    TranscriptionError,
    TranscriptionResult,
}

/// An event of the transcription worker: a transcript, or the detail of a
/// failed inference.
#[derive(Debug)]
pub struct SttMessage {
    pub msg_type: SttMessageType,
    pub content: String,
}

/// The label that a message's printed form starts with.
pub open spec fn stt_label(t: SttMessageType) -> Seq<char> {
    match t {
        SttMessageType::TranscriptionError => "[STT ERROR] "@,
        SttMessageType::TranscriptionResult => "[STT TRANSCRIPTION] "@,
    }
}

impl SttMessage {
    pub fn new(msg_type: SttMessageType, content: String) -> (r: Self)
        ensures
            r.msg_type == msg_type,
            r.content@ == content@,
    {
        Self { msg_type, content }
    }

    /// The message as it is printed: its label, then its content.
    pub fn display_text(&self) -> (r: String)
        ensures
            r@ == stt_label(self.msg_type) + self.content@,
    {
        let label = match self.msg_type {
            SttMessageType::TranscriptionError => "[STT ERROR] ",
            SttMessageType::TranscriptionResult => "[STT TRANSCRIPTION] ",
        };
        String::from_str(label).concat(self.content.as_str())
    }
}

/// Kinds of event that a worker thread reports, logs included.
#[derive(Debug, Clone, Copy, PartialEq, Eq, Structural)]
pub enum SttThreadMessageType {
    Log,
    TranscriptionError,
    TranscriptionResult,
    RecordingTimeoutReached,
}

/// An event reported by a worker thread.
#[derive(Debug)]
pub struct SttThreadMessage {
    pub msg_type: SttThreadMessageType,
    pub content: String,
}

/// The label that a thread message's printed form starts with.
pub open spec fn thread_label(t: SttThreadMessageType) -> Seq<char> {
    match t {
        SttThreadMessageType::Log => "[STT LOG] "@,
        SttThreadMessageType::TranscriptionError => "[STT ERROR] "@,
        SttThreadMessageType::TranscriptionResult => "[STT TRANSCRIPTION] "@,
        SttThreadMessageType::RecordingTimeoutReached => "[STT TIMEOUT REACHED] "@,
    }
}

impl SttThreadMessage {
    pub fn new(msg_type: SttThreadMessageType, content: String) -> (r: Self)
        ensures
            r.msg_type == msg_type,
            r.content@ == content@,
    {
        Self { msg_type, content }
    }

    /// The message as it is printed: its label, then its content.
    pub fn display_text(&self) -> (r: String)
        ensures
            r@ == thread_label(self.msg_type) + self.content@,
    {
        let label = match self.msg_type {
            SttThreadMessageType::Log => "[STT LOG] ",
            SttThreadMessageType::TranscriptionError => "[STT ERROR] ",
            SttThreadMessageType::TranscriptionResult => "[STT TRANSCRIPTION] ",
            SttThreadMessageType::RecordingTimeoutReached => "[STT TIMEOUT REACHED] ",
        };
        String::from_str(label).concat(self.content.as_str())
    }
}

} // verus!
