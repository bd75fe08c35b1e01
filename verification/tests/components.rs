use cyber_live_voice::capture::{AudioError, AudioRecorder};
use cyber_live_voice::hotkey::{Edge, HotkeyMonitor};
use cyber_live_voice::messages;
use cyber_live_voice::state::PipelineState;
use cyber_live_voice::store::SharedStore;

#[test]
fn hotkey_reports_edges() {
    let mut monitor = HotkeyMonitor::new();
    assert!(matches!(monitor.observe(false), Edge::Steady));
    assert!(matches!(monitor.observe(true), Edge::Press));
    assert!(matches!(monitor.observe(true), Edge::Steady));
    // The first released poll is provisional; the second confirms it.
    assert!(matches!(monitor.observe(false), Edge::Steady));
    assert!(matches!(monitor.observe(false), Edge::Release));
    assert!(matches!(monitor.observe(false), Edge::Steady));
}

#[test]
fn hotkey_ignores_single_poll_flicker() {
    let mut monitor = HotkeyMonitor::new();
    assert!(matches!(monitor.observe(true), Edge::Press));
    // One released poll between held ones never becomes a release.
    assert!(matches!(monitor.observe(false), Edge::Steady));
    assert!(matches!(monitor.observe(true), Edge::Steady));
    assert!(matches!(monitor.observe(false), Edge::Steady));
    assert!(matches!(monitor.observe(false), Edge::Release));
}

#[test]
fn stopped_buffer_holds_every_appended_block() {
    let mut recorder = AudioRecorder::new();
    assert!(recorder.start_recording(true, true).is_ok());
    recorder.append_block(&vec![1, 2, 3]);
    recorder.append_block(&vec![4, 5, 6, 7]);
    recorder.append_block(&vec![8, 9, 10, 11, 12]);
    let out = recorder.stop_recording();
    assert_eq!(out.len(), 3 + 4 + 5);
    assert_eq!(out, vec![1, 2, 3, 4, 5, 6, 7, 8, 9, 10, 11, 12]);
    assert!(!recorder.stream_open);
}

#[test]
fn empty_capture_is_a_valid_result() {
    let mut recorder = AudioRecorder::new();
    assert!(recorder.start_recording(true, true).is_ok());
    let out = recorder.stop_recording();
    assert!(out.is_empty());
}

#[test]
fn start_clears_the_previous_session() {
    let mut recorder = AudioRecorder::new();
    assert!(recorder.start_recording(true, true).is_ok());
    recorder.append_block(&vec![7, 7, 7]);
    let _ = recorder.stop_recording();
    assert!(recorder.start_recording(true, true).is_ok());
    let out = recorder.stop_recording();
    assert!(out.is_empty());
}

#[test]
fn device_and_stream_failures_are_told_apart() {
    let mut recorder = AudioRecorder::new();
    assert_eq!(recorder.start_recording(false, true), Err(AudioError::NoInputDevice));
    assert!(!recorder.stream_open);
    assert_eq!(recorder.start_recording(false, false), Err(AudioError::NoInputDevice));
    assert_eq!(recorder.start_recording(true, false), Err(AudioError::StreamFailed));
    assert!(!recorder.stream_open);
}

#[test]
fn store_read_returns_the_whole_written_pair() {
    let mut store = SharedStore::new();
    let (state, text) = store.read();
    assert_eq!(state, PipelineState::Idle);
    assert_eq!(text, "Neural Link: STANDBY");
    store.write(PipelineState::Recording, String::from("Uplink active"));
    let (state, text) = store.read();
    assert_eq!(state, PipelineState::Recording);
    assert_eq!(text, "Uplink active");
    store.write(PipelineState::Idle, String::from("Done"));
    let (state, text) = store.read();
    assert_eq!(state, PipelineState::Idle);
    assert_eq!(text, "Done");
}

#[test]
fn state_tags_name_every_phase() {
    assert_eq!(messages::state_tag_message(PipelineState::Idle), "IDLE");
    assert_eq!(messages::state_tag_message(PipelineState::Recording), "RECORDING");
    assert_eq!(messages::state_tag_message(PipelineState::Transcribing), "TRANSCRIBING");
    assert_eq!(messages::state_tag_message(PipelineState::Responding), "RESPONDING");
}

#[test]
fn fixed_messages_have_their_exact_text() {
    assert_eq!(messages::standby_message(), "Neural Link: STANDBY");
    assert_eq!(messages::too_short_message(), "Link error: Audio too short.");
    assert_eq!(messages::transcription_failed_message(), "Link error: Transcription failed.");
    assert_eq!(messages::io_error_message(), "Internal Error: Could not write wav.");
    assert_eq!(messages::no_response_message(), "Link Lost: No response from the Net.");
    assert_eq!(messages::silence_message(), "Silence...");
}
