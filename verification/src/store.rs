use vstd::prelude::*;

use crate::state::PipelineState;

verus! {

/// The process-wide pair of current phase and latest reply text.
///
/// The pair is one value: `write` replaces both halves in a single call and
/// `read` returns both halves of a single value, so no reader ever observes
/// an old phase next to a new text or the reverse. The one writer is the
/// pipeline; external readers poll `read`. The surrounding program serializes
/// the calls with a lock held only for their duration.
pub struct SharedStore {
    /// The phase last written.
    pub state: PipelineState,
    /// The reply text last written.
    pub text: String,
}

impl SharedStore {
    /// A fresh store starts idle with the standby reply.
    pub fn new() -> (s: Self)
        ensures
            s.state == PipelineState::Idle,
            s.text@ == crate::messages::standby_text(),
    {
        SharedStore { state: PipelineState::Idle, text: crate::messages::standby_message() }
    }

    /// Replaces the whole pair at once.
    pub fn write(&mut self, state: PipelineState, text: String)
        ensures
            final(self).state == state,
            final(self).text@ == text@,
    {
        self.state = state;
        self.text = text;
    }

    /// Returns both halves of the current pair.
    pub fn read(&self) -> (r: (PipelineState, String))
        ensures
            r.0 == self.state,
            r.1@ == self.text@,
    {
        (self.state, self.text.clone())
    }
}

} // verus!
