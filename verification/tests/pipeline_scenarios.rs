use cyber_live_voice::pipeline::{CyberLiveVoice, ReleaseOutcome, TranscriptionOutcome};
use cyber_live_voice::state::PipelineState;

fn block(n: usize) -> Vec<u32> {
    let mut v = Vec::new();
    for i in 0..n {
        v.push(i as u32);
    }
    v
}

#[test]
fn initial_state_is_standby() {
    let engine = CyberLiveVoice::new();
    let (state, text) = engine.read();
    assert_eq!(state, PipelineState::Idle);
    assert_eq!(text, "Neural Link: STANDBY");
}

#[test]
fn short_capture_yields_fixed_reply_without_collaborators() {
    let mut engine = CyberLiveVoice::new();
    assert!(engine.on_press(true, true));
    engine.recorder.append_block(&block(500));
    let outcome = engine.on_release();
    assert!(matches!(outcome, ReleaseOutcome::TooShort));
    let (state, text) = engine.read();
    assert_eq!(state, PipelineState::Idle);
    assert_eq!(text, "Link error: Audio too short.");
    assert!(!engine.recorder.stream_open);
}

#[test]
fn full_cycle_hands_out_exact_samples_and_publishes_reply() {
    let mut engine = CyberLiveVoice::new();
    assert!(engine.on_press(true, true));
    engine.recorder.append_block(&block(5000));
    let outcome = engine.on_release();
    let samples = match outcome {
        ReleaseOutcome::Transcribe(s) => s,
        _ => panic!("expected a transcription request"),
    };
    assert_eq!(samples.len(), 5000);
    assert_eq!(engine.read().0, PipelineState::Transcribing);

    let next = engine.on_transcription(Some(String::from("hello choom")));
    let transcript = match next {
        TranscriptionOutcome::Respond(t) => t,
        _ => panic!("expected a response request"),
    };
    assert_eq!(transcript, "hello choom");
    assert_eq!(engine.read().0, PipelineState::Responding);

    engine.on_response(Some(String::from("Preem. Stay delta.")));
    let (state, text) = engine.read();
    assert_eq!(state, PipelineState::Idle);
    assert_eq!(text, "Preem. Stay delta.");
}

#[test]
fn transcription_failure_publishes_fixed_reply_and_skips_response() {
    let mut engine = CyberLiveVoice::new();
    assert!(engine.on_press(true, true));
    engine.recorder.append_block(&block(5000));
    assert!(matches!(engine.on_release(), ReleaseOutcome::Transcribe(_)));
    let next = engine.on_transcription(None);
    assert!(matches!(next, TranscriptionOutcome::Failed));
    let (state, text) = engine.read();
    assert_eq!(state, PipelineState::Idle);
    assert_eq!(text, "Link error: Transcription failed.");
}

#[test]
fn artifact_failure_aborts_the_cycle_with_fixed_reply() {
    let mut engine = CyberLiveVoice::new();
    assert!(engine.on_press(true, true));
    engine.recorder.append_block(&block(2000));
    assert!(matches!(engine.on_release(), ReleaseOutcome::Transcribe(_)));
    engine.on_artifact_failure();
    let (state, text) = engine.read();
    assert_eq!(state, PipelineState::Idle);
    assert_eq!(text, "Internal Error: Could not write wav.");
}

#[test]
fn artifact_failure_is_dropped_outside_transcribing() {
    let mut engine = CyberLiveVoice::new();
    engine.on_artifact_failure();
    let (state, text) = engine.read();
    assert_eq!(state, PipelineState::Idle);
    assert_eq!(text, "Neural Link: STANDBY");
}

#[test]
fn response_failure_publishes_fixed_reply() {
    let mut engine = CyberLiveVoice::new();
    assert!(engine.on_press(true, true));
    engine.recorder.append_block(&block(2000));
    assert!(matches!(engine.on_release(), ReleaseOutcome::Transcribe(_)));
    assert!(matches!(
        engine.on_transcription(Some(String::from("hi"))),
        TranscriptionOutcome::Respond(_)
    ));
    engine.on_response(None);
    let (state, text) = engine.read();
    assert_eq!(state, PipelineState::Idle);
    assert_eq!(text, "Link Lost: No response from the Net.");
}

#[test]
fn double_start_opens_one_stream_and_clears_once() {
    let mut engine = CyberLiveVoice::new();
    assert!(engine.on_press(true, true));
    engine.recorder.append_block(&block(3));
    // A second start while already recording is dropped whole: the stream is
    // not reopened and the buffer is not cleared again.
    assert!(!engine.on_press(true, true));
    assert!(engine.recorder.stream_open);
    assert_eq!(engine.recorder.samples.len(), 3);
    assert_eq!(engine.read().0, PipelineState::Recording);
}

#[test]
fn press_is_dropped_mid_cycle() {
    let mut engine = CyberLiveVoice::new();
    assert!(engine.on_press(true, true));
    engine.recorder.append_block(&block(2000));
    assert!(matches!(engine.on_release(), ReleaseOutcome::Transcribe(_)));
    assert!(!engine.on_press(true, true));
    assert_eq!(engine.read().0, PipelineState::Transcribing);
    assert!(!engine.recorder.stream_open);
}

#[test]
fn release_is_dropped_when_idle() {
    let mut engine = CyberLiveVoice::new();
    assert!(matches!(engine.on_release(), ReleaseOutcome::Ignored));
    assert_eq!(engine.read().0, PipelineState::Idle);
}

#[test]
fn failed_device_resolution_keeps_engine_idle() {
    let mut engine = CyberLiveVoice::new();
    assert!(!engine.on_press(false, true));
    let (state, text) = engine.read();
    assert_eq!(state, PipelineState::Idle);
    assert_eq!(text, "Neural Link: STANDBY");
    assert!(!engine.recorder.stream_open);
}

#[test]
fn failed_stream_build_keeps_engine_idle() {
    let mut engine = CyberLiveVoice::new();
    assert!(!engine.on_press(true, false));
    assert_eq!(engine.read().0, PipelineState::Idle);
    assert!(!engine.recorder.stream_open);
}
