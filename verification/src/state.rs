use vstd::prelude::*;

verus! {

/// The phase of the capture-and-reply pipeline.
///
/// Exactly one live instance exists; every transition walks the cycle
/// `Idle -> Recording -> Transcribing -> Responding -> Idle`, or aborts
/// straight back to `Idle` when a phase fails.
#[derive(Clone, Copy, Debug, PartialEq, Eq, Structural)]
pub enum PipelineState {
    Idle,
    Recording,
    Transcribing,
    Responding,
}

/// The successor of each phase along the cycle.
pub open spec fn cycle_next(s: PipelineState) -> PipelineState {
    match s {
        PipelineState::Idle => PipelineState::Recording,
        PipelineState::Recording => PipelineState::Transcribing,
        PipelineState::Transcribing => PipelineState::Responding,
        PipelineState::Responding => PipelineState::Idle,
    }
}

/// A single transition is lawful when it stays put, advances one step
/// along the cycle, or aborts to `Idle`.
pub open spec fn allowed_step(pre: PipelineState, post: PipelineState) -> bool {
    post == pre || post == cycle_next(pre) || post == PipelineState::Idle
}

} // verus!
