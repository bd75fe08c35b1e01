use vstd::prelude::*;

verus! {

/// What one poll of the trigger key reports relative to the polls before it.
#[derive(Clone, Copy, Debug, PartialEq, Eq, Structural)]
pub enum Edge {
    /// No confirmed change of position.
    Steady,
    /// The key went from released to held.
    Press,
    /// The key's release was confirmed by a second consecutive poll.
    Release,
}

/// The edge one poll reports, given the confirmed position, whether one
/// released poll is already pending, and the position just read.
pub open spec fn edge_of(held: bool, release_pending: bool, now: bool) -> Edge {
    if !held && now {
        Edge::Press
    } else if held && !now && release_pending {
        Edge::Release
    } else {
        Edge::Steady
    }
}

/// The confirmed position after that poll.
pub open spec fn next_held(held: bool, release_pending: bool, now: bool) -> bool {
    if !held && now {
        true
    } else if held && !now && release_pending {
        false
    } else {
        held
    }
}

/// Whether a provisional release is pending after that poll: exactly when
/// the key is confirmed held and this poll is the first to read it released.
pub open spec fn next_release_pending(held: bool, release_pending: bool, now: bool) -> bool {
    held && !now && !release_pending
}

/// Turns polled key positions into edge events.
///
/// A press is reported at once. A release is reported only once it has been
/// read on two consecutive polls, so it stands stable for at least one poll
/// interval before the capture is acted on; a single released poll between
/// two held ones is flicker and reported as no edge at all.
pub struct HotkeyMonitor {
    /// The confirmed key position.
    pub held: bool,
    /// Whether the previous poll provisionally read a release.
    pub release_pending: bool,
}

impl HotkeyMonitor {
    /// A fresh monitor assumes the key starts released.
    pub fn new() -> (m: Self)
        ensures
            !m.held,
            !m.release_pending,
    {
        HotkeyMonitor { held: false, release_pending: false }
    }

    /// Records the key position of this poll and reports the edge it
    /// confirms.
    pub fn observe(&mut self, now: bool) -> (e: Edge)
        ensures
            e == edge_of(old(self).held, old(self).release_pending, now),
            final(self).held == next_held(old(self).held, old(self).release_pending, now),
            final(self).release_pending == next_release_pending(
                old(self).held,
                old(self).release_pending,
                now,
            ),
    {
        let held = self.held;
        let pending = self.release_pending;
        self.release_pending = held && !now && !pending;
        if !held && now {
            self.held = true;
            Edge::Press
        } else if held && !now && pending {
            self.held = false;
            Edge::Release
        } else {
            Edge::Steady
        }
    }
}

} // verus!
