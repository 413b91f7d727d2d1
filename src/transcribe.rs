//! The transcription worker's decisions: when to write the diagnostic dump,
//! when to run inference, and which event each outcome becomes.

use vstd::prelude::*;
use vstd::string::StringExecFns;
use crate::errors::AudioPipelineError;
use crate::messages::{SttMessage, SttMessageType};

verus! {

/// What `str::trim` makes of a text.
pub uninterp spec fn trimmed(s: Seq<char>) -> Seq<char>;

/// Relies on `str::trim`: the text without its leading and trailing
/// whitespace, which depends on the characters alone.
#[verifier::external_body]
fn trim_text(s: &str) -> (r: String)
    ensures
        r@ == trimmed(s@),
{
    s.trim().to_string()
}

/// The text of the segments that could be read, one after another.
pub open spec fn joined(segments: Seq<Option<String>>) -> Seq<char>
    decreases segments.len(),
{
    if segments.len() == 0 {
        Seq::empty()
    } else {
        joined(segments.drop_last()) + match segments.last() {
            Some(t) => t@,
            None => Seq::empty(),
        }
    }
}

/// The content of the event for a failed inference.
pub open spec fn inference_error_text(detail: Seq<char>) -> Seq<char> {
    "\u{274c} Transcription error: "@ + detail
}

/// Joins the text of the segments that could be read.
pub fn join_segments(segments: &Vec<Option<String>>) -> (r: String)
    ensures
        r@ == joined(segments@),
{
    let mut text = String::new();
    let mut i: usize = 0;
    while i < segments.len()
        invariant
            i <= segments@.len(),
            text@ == joined(segments@.subrange(0, i as int)),
        decreases segments@.len() - i,
    {
        assert(segments@.subrange(0, i + 1).drop_last() =~= segments@.subrange(0, i as int));
        match &segments[i] {
            Some(t) => text.append(t.as_str()),
            None => {},
        }
        i = i + 1;
    }
    assert(segments@.subrange(0, i as int) =~= segments@);
    text
}

/// The transcript of the segments: their joined text, trimmed.
pub fn transcript(segments: &Vec<Option<String>>) -> (r: String)
    ensures
        r@ == trimmed(joined(segments@)),
{
    let text = join_segments(segments);
    trim_text(text.as_str())
}

/// The event for the outcome of one inference: the detail of a failure,
/// or the transcript of the segments produced, even where it is empty.
pub fn inference_event(outcome: Result<Vec<Option<String>>, String>) -> (r: SttMessage)
    ensures
        match outcome {
            Ok(segments) => r.msg_type == SttMessageType::TranscriptionResult && r.content@
                == trimmed(joined(segments@)),
            Err(detail) => r.msg_type == SttMessageType::TranscriptionError && r.content@
                == inference_error_text(detail@),
        },
{
    match outcome {
        Ok(segments) => SttMessage::new(SttMessageType::TranscriptionResult, transcript(&segments)),
        Err(detail) => SttMessage::new(
            SttMessageType::TranscriptionError,
            String::from_str("\u{274c} Transcription error: ").concat(detail.as_str()),
        ),
    }
}

/// Where the worker stands in handling a buffer.
#[derive(Debug, Clone, Copy, PartialEq, Eq, Structural)]
pub enum WorkerPhase {
    AwaitingBuffer,
    Dumping,
    Inferring,
    Ended,
}

/// What happened since the worker's last step.
pub enum WorkerEvent {
    /// A flushed buffer arrived.
    Buffer,
    /// The diagnostic dump of the buffer was written, or failed with this detail.
    DumpFinished(Result<(), String>),
    /// Inference on the buffer produced these segments, or failed with this detail.
    InferenceFinished(Result<Vec<Option<String>>, String>),
    /// No more buffers will come.
    InputClosed,
}

/// What the worker asks to be done next.
#[derive(Debug)]
pub enum WorkerAction {
    /// Write the buffer to the diagnostic audio file.
    DumpToFile,
    /// Run inference on the buffer.
    RunInference,
    /// Emit this event, then wait for the next buffer.
    Emit(SttMessage),
    /// End the worker with this failure.
    Fail(AudioPipelineError),
    /// End the worker without failure.
    Finish,
    /// The event does not concern the current phase.
    Ignore,
}

/// The transcription worker's state between events.
pub struct TranscriptionWorker {
    pub debug_dump: bool,
    pub phase: WorkerPhase,
}

impl TranscriptionWorker {
    /// The worker at startup: a missing model file fails it before any
    /// attempt to load the engine.
    pub fn start(debug_dump: bool, model_exists: bool) -> (r: Result<Self, AudioPipelineError>)
        ensures
            model_exists <==> r is Ok,
            r matches Ok(w) ==> w.debug_dump == debug_dump && w.phase == WorkerPhase::AwaitingBuffer,
            !model_exists ==> r matches Err(AudioPipelineError::ModelNotFound),
    {
        if !model_exists {
            return Err(AudioPipelineError::ModelNotFound);
        }
        Ok(TranscriptionWorker { debug_dump, phase: WorkerPhase::AwaitingBuffer })
    }

    /// Takes one event and says what to do next. A failed inference becomes
    /// an error event and the worker waits for the next buffer; a failed
    /// dump ends the worker.
    pub fn on_event(&mut self, event: WorkerEvent) -> (r: WorkerAction)
        ensures
            final(self).debug_dump == old(self).debug_dump,
            match (old(self).phase, event) {
                (WorkerPhase::Ended, _) => r is Ignore && final(self).phase == WorkerPhase::Ended,
                (_, WorkerEvent::InputClosed) => r is Finish && final(self).phase
                    == WorkerPhase::Ended,
                (WorkerPhase::AwaitingBuffer, WorkerEvent::Buffer) => if old(self).debug_dump {
                    r is DumpToFile && final(self).phase == WorkerPhase::Dumping
                } else {
                    r is RunInference && final(self).phase == WorkerPhase::Inferring
                },
                (WorkerPhase::Dumping, WorkerEvent::DumpFinished(Ok(()))) => r is RunInference
                    && final(self).phase == WorkerPhase::Inferring,
                (WorkerPhase::Dumping, WorkerEvent::DumpFinished(Err(d))) => (r matches WorkerAction::Fail(
                    AudioPipelineError::AudioDebugError(e),
                ) && e@ == d@) && final(self).phase == WorkerPhase::Ended,
                (WorkerPhase::Inferring, WorkerEvent::InferenceFinished(Ok(segments))) => (r matches WorkerAction::Emit(m)
                    && m.msg_type == SttMessageType::TranscriptionResult && m.content@ == trimmed(
                    joined(segments@),
                )) && final(self).phase == WorkerPhase::AwaitingBuffer,
                (WorkerPhase::Inferring, WorkerEvent::InferenceFinished(Err(d))) => (r matches WorkerAction::Emit(m)
                    && m.msg_type == SttMessageType::TranscriptionError && m.content@
                    == inference_error_text(d@)) && final(self).phase
                    == WorkerPhase::AwaitingBuffer,
                _ => r is Ignore && final(self).phase == old(self).phase,
            },
    {
        match (self.phase, event) {
            (WorkerPhase::Ended, _) => WorkerAction::Ignore,
            (_, WorkerEvent::InputClosed) => {
                self.phase = WorkerPhase::Ended;
                WorkerAction::Finish
            },
            (WorkerPhase::AwaitingBuffer, WorkerEvent::Buffer) => {
                if self.debug_dump {
                    self.phase = WorkerPhase::Dumping;
                    WorkerAction::DumpToFile
                } else {
                    self.phase = WorkerPhase::Inferring;
                    WorkerAction::RunInference
                }
            },
            (WorkerPhase::Dumping, WorkerEvent::DumpFinished(outcome)) => {
                match outcome {
                    Ok(()) => {
                        self.phase = WorkerPhase::Inferring;
                        WorkerAction::RunInference
                    },
                    Err(detail) => {
                        self.phase = WorkerPhase::Ended;
                        WorkerAction::Fail(AudioPipelineError::AudioDebugError(detail))
                    },
                }
            },
            (WorkerPhase::Inferring, WorkerEvent::InferenceFinished(outcome)) => {
                self.phase = WorkerPhase::AwaitingBuffer;
                WorkerAction::Emit(inference_event(outcome))
            },
            _ => WorkerAction::Ignore,
        }
    }
}

} // verus!

verus! {

/// What a polling worker does after gathering what has arrived.
#[derive(Debug, Clone, Copy, PartialEq, Eq, Structural)]
pub enum PollStep {
    /// Still recording, under the limit: keep gathering.
    Gather,
    /// Still recording, at the limit: stop the recording, report the
    /// timeout, and transcribe what was gathered.
    TimeoutReached,
    /// The recording has stopped with samples gathered: transcribe them.
    Transcribe,
    /// Nothing to do.
    Wait,
}

/// The decision of a worker that polls the recording flag, with
/// `buffered` samples gathered and a limit of `max_samples`.
pub fn poll_step(recording: bool, buffered: usize, max_samples: usize) -> (r: PollStep)
    ensures
        recording && buffered < max_samples ==> r == PollStep::Gather,
        recording && buffered >= max_samples ==> r == PollStep::TimeoutReached,
        !recording && buffered > 0 ==> r == PollStep::Transcribe,
        !recording && buffered == 0 ==> r == PollStep::Wait,
{
    if recording {
        if buffered >= max_samples {
            PollStep::TimeoutReached
        } else {
            PollStep::Gather
        }
    } else if buffered > 0 {
        PollStep::Transcribe
    } else {
        PollStep::Wait
    }
}

} // verus!
