use vstd::prelude::*;
use vstd::string::StringExecFns;

use crate::state::PipelineState;

verus! {

/// The reply shown before any cycle has run.
pub open spec fn standby_text() -> Seq<char> {
    "Neural Link: STANDBY"@
}

/// The fixed reply when a capture ends with fewer samples than the threshold.
pub open spec fn too_short_text() -> Seq<char> {
    "Link error: Audio too short."@
}

/// The fixed reply when the capture artifact cannot be encoded or written,
/// so the speech-to-text collaborator was never given anything.
pub open spec fn io_error_text() -> Seq<char> {
    "Internal Error: Could not write wav."@
}

/// The fixed reply when the speech-to-text collaborator fails.
pub open spec fn transcription_failed_text() -> Seq<char> {
    "Link error: Transcription failed."@
}

/// The fixed reply when the response-generation collaborator fails.
pub open spec fn no_response_text() -> Seq<char> {
    "Link Lost: No response from the Net."@
}

/// The placeholder used when the collaborator answers but carries no text.
pub open spec fn silence_text() -> Seq<char> {
    "Silence..."@
}

pub fn standby_message() -> (r: String)
    ensures
        r@ == standby_text(),
{
    String::from_str("Neural Link: STANDBY")
}

pub fn too_short_message() -> (r: String)
    ensures
        r@ == too_short_text(),
{
    String::from_str("Link error: Audio too short.")
}

pub fn io_error_message() -> (r: String)
    ensures
        r@ == io_error_text(),
{
    String::from_str("Internal Error: Could not write wav.")
}

pub fn transcription_failed_message() -> (r: String)
    ensures
        r@ == transcription_failed_text(),
{
    String::from_str("Link error: Transcription failed.")
}

pub fn no_response_message() -> (r: String)
    ensures
        r@ == no_response_text(),
{
    String::from_str("Link Lost: No response from the Net.")
}

pub fn silence_message() -> (r: String)
    ensures
        r@ == silence_text(),
{
    String::from_str("Silence...")
}

/// The tag under which each phase is published to external readers.
pub open spec fn state_tag(s: PipelineState) -> Seq<char> {
    match s {
        PipelineState::Idle => "IDLE"@,
        PipelineState::Recording => "RECORDING"@,
        PipelineState::Transcribing => "TRANSCRIBING"@,
        PipelineState::Responding => "RESPONDING"@,
    }
}

pub fn state_tag_message(s: PipelineState) -> (r: String)
    ensures
        r@ == state_tag(s),
{
    match s {
        PipelineState::Idle => String::from_str("IDLE"),
        PipelineState::Recording => String::from_str("RECORDING"),
        PipelineState::Transcribing => String::from_str("TRANSCRIBING"),
        PipelineState::Responding => String::from_str("RESPONDING"),
    }
}

} // verus!
