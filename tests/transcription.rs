use lfs_stt::errors::{AudioPipelineError, Stage};
use lfs_stt::messages::{SttMessage, SttMessageType, SttThreadMessage, SttThreadMessageType};
use lfs_stt::transcribe::{
    inference_event, join_segments, poll_step, transcript, PollStep, TranscriptionWorker,
    WorkerAction, WorkerEvent, WorkerPhase,
};

#[test]
fn segments_are_joined_and_trimmed() {
    let segments = vec![Some("  hello".to_string()), None, Some(" world  \n".to_string())];
    assert_eq!(join_segments(&segments), "  hello world  \n");
    assert_eq!(transcript(&segments), "hello world");
    assert_eq!(transcript(&vec![]), "");
    assert_eq!(transcript(&vec![Some("   ".to_string())]), "");
}

#[test]
fn failed_inference_becomes_an_error_event() {
    let event = inference_event(Err("NoSamples".to_string()));
    assert_eq!(event.msg_type, SttMessageType::TranscriptionError);
    assert_eq!(event.content, "\u{274c} Transcription error: NoSamples");
    let ok = inference_event(Ok(vec![Some(" yes ".to_string())]));
    assert_eq!(ok.msg_type, SttMessageType::TranscriptionResult);
    assert_eq!(ok.content, "yes");
}

#[test]
fn worker_goes_on_after_a_failed_inference() {
    let mut worker = TranscriptionWorker::start(false, true).unwrap();
    assert!(matches!(worker.on_event(WorkerEvent::Buffer), WorkerAction::RunInference));
    match worker.on_event(WorkerEvent::InferenceFinished(Err("failed".to_string()))) {
        WorkerAction::Emit(m) => assert_eq!(m.msg_type, SttMessageType::TranscriptionError),
        other => panic!("unexpected action {:?}", other),
    }
    assert_eq!(worker.phase, WorkerPhase::AwaitingBuffer);
    assert!(matches!(worker.on_event(WorkerEvent::Buffer), WorkerAction::RunInference));
    match worker.on_event(WorkerEvent::InferenceFinished(Ok(vec![Some(" ok".to_string())]))) {
        WorkerAction::Emit(m) => {
            assert_eq!(m.msg_type, SttMessageType::TranscriptionResult);
            assert_eq!(m.content, "ok");
        }
        other => panic!("unexpected action {:?}", other),
    }
}

#[test]
fn empty_transcript_is_still_emitted() {
    let mut worker = TranscriptionWorker::start(false, true).unwrap();
    worker.on_event(WorkerEvent::Buffer);
    match worker.on_event(WorkerEvent::InferenceFinished(Ok(vec![]))) {
        WorkerAction::Emit(m) => {
            assert_eq!(m.msg_type, SttMessageType::TranscriptionResult);
            assert_eq!(m.content, "");
        }
        other => panic!("unexpected action {:?}", other),
    }
}

#[test]
fn missing_model_fails_before_loading() {
    match TranscriptionWorker::start(false, false) {
        Err(e) => {
            assert!(matches!(e, AudioPipelineError::ModelNotFound));
            assert_eq!(e.stage(), Stage::Transcription);
        }
        Ok(_) => panic!("started without a model"),
    }
}

#[test]
fn debug_dump_comes_first_and_its_failure_is_fatal() {
    let mut worker = TranscriptionWorker::start(true, true).unwrap();
    assert!(matches!(worker.on_event(WorkerEvent::Buffer), WorkerAction::DumpToFile));
    assert!(matches!(worker.on_event(WorkerEvent::DumpFinished(Ok(()))), WorkerAction::RunInference));
    worker.on_event(WorkerEvent::InferenceFinished(Ok(vec![])));
    worker.on_event(WorkerEvent::Buffer);
    match worker.on_event(WorkerEvent::DumpFinished(Err("disk full".to_string()))) {
        WorkerAction::Fail(AudioPipelineError::AudioDebugError(d)) => assert_eq!(d, "disk full"),
        other => panic!("unexpected action {:?}", other),
    }
    assert_eq!(worker.phase, WorkerPhase::Ended);
    assert!(matches!(worker.on_event(WorkerEvent::Buffer), WorkerAction::Ignore));
}

#[test]
fn out_of_turn_events_are_ignored() {
    let mut worker = TranscriptionWorker::start(false, true).unwrap();
    assert!(matches!(worker.on_event(WorkerEvent::DumpFinished(Ok(()))), WorkerAction::Ignore));
    assert!(matches!(worker.on_event(WorkerEvent::InferenceFinished(Ok(vec![]))), WorkerAction::Ignore));
    assert_eq!(worker.phase, WorkerPhase::AwaitingBuffer);
    assert!(matches!(worker.on_event(WorkerEvent::InputClosed), WorkerAction::Finish));
}

#[test]
fn polling_worker_decisions() {
    assert_eq!(poll_step(true, 10, 160_000), PollStep::Gather);
    assert_eq!(poll_step(true, 160_000, 160_000), PollStep::TimeoutReached);
    assert_eq!(poll_step(false, 5, 160_000), PollStep::Transcribe);
    assert_eq!(poll_step(false, 0, 160_000), PollStep::Wait);
}

#[test]
fn messages_print_with_their_label() {
    let m = SttMessage::new(SttMessageType::TranscriptionResult, "hi".to_string());
    assert_eq!(m.display_text(), "[STT TRANSCRIPTION] hi");
    let e = SttMessage::new(SttMessageType::TranscriptionError, "x".to_string());
    assert_eq!(e.display_text(), "[STT ERROR] x");
    let t = SttThreadMessage::new(SttThreadMessageType::RecordingTimeoutReached, String::new());
    assert_eq!(t.display_text(), "[STT TIMEOUT REACHED] ");
    let l = SttThreadMessage::new(SttThreadMessageType::Log, "started".to_string());
    assert_eq!(l.display_text(), "[STT LOG] started");
}
