use vstd::prelude::*;

use crate::capture::AudioRecorder;
use crate::messages;
use crate::state::{allowed_step, PipelineState};
use crate::store::SharedStore;

verus! {

/// Captures shorter than this many samples are rejected without calling
/// the transcription or response collaborators.
pub const MIN_SAMPLES: usize = 1000;

/// What the pipeline asks of a release edge.
pub enum ReleaseOutcome {
    /// The release arrived outside `Recording` and was dropped.
    Ignored,
    /// The capture stayed under the sample threshold; the fixed short-audio
    /// reply was published and no collaborator is to be called.
    TooShort,
    /// The capture is long enough: transcribe exactly these samples.
    Transcribe(Vec<u32>),
}

/// What the pipeline asks after a transcription outcome.
pub enum TranscriptionOutcome {
    /// The outcome arrived outside `Transcribing` and was dropped.
    Ignored,
    /// Transcription failed; the fixed failure reply was published and the
    /// response collaborator is not to be called.
    Failed,
    /// Transcription succeeded: generate a response to this transcript.
    Respond(String),
}

/// One event fed to the state machine, reduced to what the next state
/// depends on.
pub enum PipelineEvent {
    Press { device_ok: bool, stream_ok: bool },
    Release { sample_count: usize },
    ArtifactFailed,
    Transcribed { ok: bool },
    Responded { ok: bool },
}

/// The state the machine moves to on each event, in every phase.
pub open spec fn step_state(s: PipelineState, e: PipelineEvent) -> PipelineState {
    match e {
        PipelineEvent::Press { device_ok, stream_ok } => if s is Idle && device_ok && stream_ok {
            PipelineState::Recording
        } else {
            s
        },
        PipelineEvent::Release { sample_count } => if s is Recording {
            if sample_count < MIN_SAMPLES {
                PipelineState::Idle
            } else {
                PipelineState::Transcribing
            }
        } else {
            s
        },
        PipelineEvent::ArtifactFailed => if s is Transcribing {
            PipelineState::Idle
        } else {
            s
        },
        PipelineEvent::Transcribed { ok } => if s is Transcribing {
            if ok {
                PipelineState::Responding
            } else {
                PipelineState::Idle
            }
        } else {
            s
        },
        PipelineEvent::Responded { ok: _ } => if s is Responding {
            PipelineState::Idle
        } else {
            s
        },
    }
}

/// The state machine never skips or reorders the cycle: on any event, in any
/// phase, it stays put, advances one step along
/// `Idle -> Recording -> Transcribing -> Responding -> Idle`, or aborts a
/// failed cycle straight to `Idle`.
pub proof fn lemma_cycle_order(s: PipelineState, e: PipelineEvent)
    ensures
        allowed_step(s, step_state(s, e)),
{
}

/// The engine: drives the capture session and the shared store through one
/// cycle at a time.
///
/// Invariant: a hardware stream is open exactly while the phase is
/// `Recording`, so at most one stream ever exists, and a press during a
/// running cycle can never open a second one.
pub struct CyberLiveVoice {
    /// The current phase.
    pub state: PipelineState,
    /// The published phase/reply pair that external readers poll.
    pub store: SharedStore,
    /// The capture session.
    pub recorder: AudioRecorder,
}

impl CyberLiveVoice {
    /// The stream-lifecycle invariant tied to the phase.
    pub open spec fn wf(&self) -> bool {
        self.recorder.stream_open <==> self.state is Recording
    }

    /// A fresh engine: idle, standby reply, empty buffer, no stream.
    pub fn new() -> (r: Self)
        ensures
            r.wf(),
            r.state == PipelineState::Idle,
            r.store.state == PipelineState::Idle,
            r.store.text@ == messages::standby_text(),
            r.recorder.samples@ == Seq::<u32>::empty(),
            !r.recorder.stream_open,
    {
        CyberLiveVoice {
            state: PipelineState::Idle,
            store: SharedStore::new(),
            recorder: AudioRecorder::new(),
        }
    }

    /// A press edge. Outside `Idle` the press is dropped whole: no stream is
    /// opened, the buffer is not cleared again, nothing changes. In `Idle`,
    /// the session is opened with what the hardware reported; on failure the
    /// machine stays in `Idle` and the published pair is untouched.
    pub fn on_press(&mut self, device_ok: bool, stream_ok: bool) -> (started: bool)
        requires
            old(self).wf(),
        ensures
            final(self).wf(),
            final(self).state == step_state(
                old(self).state,
                PipelineEvent::Press { device_ok, stream_ok },
            ),
            started <==> old(self).state is Idle && device_ok && stream_ok,
            !(old(self).state is Idle) ==> *final(self) == *old(self),
            started ==> final(self).recorder.samples@ == Seq::<u32>::empty()
                && final(self).store.state == PipelineState::Recording
                && final(self).store.text@ == old(self).store.text@,
            old(self).state is Idle && !(device_ok && stream_ok) ==> final(self).state
                == PipelineState::Idle && final(self).store == old(self).store
                && !final(self).recorder.stream_open,
    {
        match self.state {
            PipelineState::Idle => {
                let r = self.recorder.start_recording(device_ok, stream_ok);
                if r.is_ok() {
                    self.state = PipelineState::Recording;
                    let text = self.store.read().1;
                    self.store.write(PipelineState::Recording, text);
                    true
                } else {
                    false
                }
            },
            _ => false,
        }
    }

    /// A release edge. Outside `Recording` it is dropped. In `Recording` the
    /// session ends and the captured samples decide: under the threshold the
    /// fixed short-audio reply is published and the cycle is over without any
    /// collaborator call; otherwise the machine enters `Transcribing` and
    /// hands out exactly the captured samples.
    pub fn on_release(&mut self) -> (r: ReleaseOutcome)
        requires
            old(self).wf(),
        ensures
            final(self).wf(),
            final(self).state == step_state(
                old(self).state,
                PipelineEvent::Release { sample_count: old(self).recorder.samples.len() },
            ),
            !(old(self).state is Recording) ==> *final(self) == *old(self) && r is Ignored,
            old(self).state is Recording ==> final(self).recorder.samples@ == Seq::<u32>::empty(),
            old(self).state is Recording && old(self).recorder.samples@.len() < MIN_SAMPLES ==> (
            r is TooShort && final(self).state == PipelineState::Idle && final(self).store.state
                == PipelineState::Idle && final(self).store.text@ == messages::too_short_text()),
            old(self).state is Recording && old(self).recorder.samples@.len() >= MIN_SAMPLES ==> (
            final(self).state == PipelineState::Transcribing && final(self).store.state
                == PipelineState::Transcribing && final(self).store.text@ == old(self).store.text@ && (r matches ReleaseOutcome::Transcribe(s) && s@ == old(self).recorder.samples@)),
    {
        match self.state {
            PipelineState::Recording => {
                let samples = self.recorder.stop_recording();
                if samples.len() < MIN_SAMPLES {
                    self.state = PipelineState::Idle;
                    self.store.write(PipelineState::Idle, messages::too_short_message());
                    ReleaseOutcome::TooShort
                } else {
                    self.state = PipelineState::Transcribing;
                    let text = self.store.read().1;
                    self.store.write(PipelineState::Transcribing, text);
                    ReleaseOutcome::Transcribe(samples)
                }
            },
            _ => ReleaseOutcome::Ignored,
        }
    }

    /// The capture artifact could not be encoded or written, so the
    /// speech-to-text collaborator cannot be called at all. Outside
    /// `Transcribing` the event is dropped. In `Transcribing` the cycle
    /// aborts to `Idle` with the fixed internal-error reply.
    pub fn on_artifact_failure(&mut self)
        requires
            old(self).wf(),
        ensures
            final(self).wf(),
            final(self).state == step_state(old(self).state, PipelineEvent::ArtifactFailed),
            !(old(self).state is Transcribing) ==> *final(self) == *old(self),
            old(self).state is Transcribing ==> (final(self).state == PipelineState::Idle
                && final(self).store.state == PipelineState::Idle && final(self).store.text@
                == messages::io_error_text()),
    {
        match self.state {
            PipelineState::Transcribing => {
                self.state = PipelineState::Idle;
                self.store.write(PipelineState::Idle, messages::io_error_message());
            },
            _ => {},
        }
    }

    /// The transcription outcome, `None` for a failed call or an unusable
    /// response. Outside `Transcribing` it is dropped. On failure the fixed
    /// failure reply is published and the cycle aborts to `Idle`, so the
    /// response collaborator is never reached; on success the machine enters
    /// `Responding` and hands the transcript on.
    pub fn on_transcription(&mut self, transcript: Option<String>) -> (r: TranscriptionOutcome)
        requires
            old(self).wf(),
        ensures
            final(self).wf(),
            final(self).state == step_state(
                old(self).state,
                PipelineEvent::Transcribed { ok: transcript is Some },
            ),
            !(old(self).state is Transcribing) ==> *final(self) == *old(self) && r is Ignored,
            old(self).state is Transcribing && transcript is None ==> (r is Failed && final(self).state == PipelineState::Idle && final(self).store.state == PipelineState::Idle
                && final(self).store.text@ == messages::transcription_failed_text()),
            old(self).state is Transcribing ==> (transcript matches Some(t) ==> (final(self).state
                == PipelineState::Responding && final(self).store.state == PipelineState::Responding
                && final(self).store.text@ == old(self).store.text@ && (
            r matches TranscriptionOutcome::Respond(u) && u@ == t@))),
    {
        match self.state {
            PipelineState::Transcribing => {
                match transcript {
                    Some(t) => {
                        self.state = PipelineState::Responding;
                        let text = self.store.read().1;
                        self.store.write(PipelineState::Responding, text);
                        TranscriptionOutcome::Respond(t)
                    },
                    None => {
                        self.state = PipelineState::Idle;
                        self.store.write(
                            PipelineState::Idle,
                            messages::transcription_failed_message(),
                        );
                        TranscriptionOutcome::Failed
                    },
                }
            },
            _ => TranscriptionOutcome::Ignored,
        }
    }

    /// The response outcome, `None` for a failed call. Outside `Responding`
    /// it is dropped. Either way the cycle ends in `Idle`: the generated text
    /// is published on success, the fixed no-response reply on failure.
    pub fn on_response(&mut self, reply: Option<String>)
        requires
            old(self).wf(),
        ensures
            final(self).wf(),
            final(self).state == step_state(
                old(self).state,
                PipelineEvent::Responded { ok: reply is Some },
            ),
            !(old(self).state is Responding) ==> *final(self) == *old(self),
            old(self).state is Responding ==> (final(self).state == PipelineState::Idle && final(self).store.state == PipelineState::Idle && final(self).store.text@ == (match reply {
                Some(t) => t@,
                None => messages::no_response_text(),
            })),
    {
        match self.state {
            PipelineState::Responding => {
                self.state = PipelineState::Idle;
                match reply {
                    Some(t) => self.store.write(PipelineState::Idle, t),
                    None => self.store.write(PipelineState::Idle, messages::no_response_message()),
                }
            },
            _ => {},
        }
    }

    /// The published phase/reply pair, as external readers see it.
    pub fn read(&self) -> (r: (PipelineState, String))
        ensures
            r.0 == self.store.state,
            r.1@ == self.store.text@,
    {
        self.store.read()
    }
}

} // verus!
