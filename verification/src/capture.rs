use vstd::prelude::*;

verus! {

/// Why a recording session could not be opened.
#[derive(Clone, Copy, Debug, PartialEq, Eq, Structural)]
pub enum AudioError {
    /// No input device could be resolved, or it offered no configuration.
    NoInputDevice,
    /// The hardware stream could not be built or confirmed playing.
    StreamFailed,
}

/// The capture session: the shared sample buffer and the lifecycle of the
/// one hardware stream.
///
/// Samples are held as the bit patterns of the 32-bit mono samples the
/// hardware delivers; the surrounding program converts at the boundary and
/// owns the actual stream handle. `stream_open` mirrors that handle:
/// it is true exactly while a stream exists.
pub struct AudioRecorder {
    /// Bit patterns of the samples captured since the session began.
    pub samples: Vec<u32>,
    /// Whether a hardware stream is currently open.
    pub stream_open: bool,
}

/// The concatenation of every block the hardware callback delivered.
pub open spec fn concat_blocks(blocks: Seq<Seq<u32>>) -> Seq<u32>
    decreases blocks.len(),
{
    if blocks.len() == 0 {
        Seq::empty()
    } else {
        concat_blocks(blocks.drop_last()) + blocks.last()
    }
}

/// The sum of the lengths of those blocks.
pub open spec fn total_len(blocks: Seq<Seq<u32>>) -> nat
    decreases blocks.len(),
{
    if blocks.len() == 0 {
        0
    } else {
        total_len(blocks.drop_last()) + blocks.last().len()
    }
}

/// Buffer integrity: a buffer built by appending a sequence of callback
/// blocks holds exactly as many samples as the blocks delivered in total,
/// so the count handed out at the end of a session equals the sum of the
/// counts appended since the session began.
pub proof fn lemma_buffer_integrity(blocks: Seq<Seq<u32>>)
    ensures
        concat_blocks(blocks).len() == total_len(blocks),
    decreases blocks.len(),
{
    if blocks.len() > 0 {
        lemma_buffer_integrity(blocks.drop_last());
    }
}

impl AudioRecorder {
    /// A fresh recorder has an empty buffer and no open stream.
    pub fn new() -> (r: Self)
        ensures
            r.samples@ == Seq::<u32>::empty(),
            !r.stream_open,
    {
        AudioRecorder { samples: Vec::new(), stream_open: false }
    }

    /// Opens a recording session, given what the hardware reported while the
    /// surrounding program resolved the device and started the stream.
    ///
    /// Device resolution comes first; only then is the buffer cleared for the
    /// fresh session and the stream brought up. Opening while a stream is
    /// already open is a logic error that the pipeline's state machine rules
    /// out, so it is excluded here rather than handled.
    pub fn start_recording(&mut self, device_ok: bool, stream_ok: bool) -> (r: Result<
        (),
        AudioError,
    >)
        requires
            !old(self).stream_open,
        ensures
            final(self).stream_open == (device_ok && stream_ok),
            r is Ok <==> device_ok && stream_ok,
            r == Err::<(), AudioError>(AudioError::NoInputDevice) <==> !device_ok,
            r == Err::<(), AudioError>(AudioError::StreamFailed) <==> device_ok && !stream_ok,
            device_ok ==> final(self).samples@ == Seq::<u32>::empty(),
            !device_ok ==> final(self).samples@ == old(self).samples@,
    {
        if !device_ok {
            return Err(AudioError::NoInputDevice);
        }
        self.samples = Vec::new();
        if !stream_ok {
            return Err(AudioError::StreamFailed);
        }
        self.stream_open = true;
        Ok(())
    }

    /// Appends one block delivered by the hardware callback.
    ///
    /// The callback runs only while the stream exists, and does nothing but
    /// this bounded-time append.
    pub fn append_block(&mut self, block: &Vec<u32>)
        requires
            old(self).stream_open,
        ensures
            final(self).stream_open,
            final(self).samples@ == old(self).samples@ + block@,
    {
        let mut i: usize = 0;
        while i < block.len()
            invariant
                i <= block.len(),
                self.samples@ == old(self).samples@ + block@.take(i as int),
                self.stream_open == old(self).stream_open,
            decreases block.len() - i,
        {
            self.samples.push(block[i]);
            i = i + 1;
            proof {
                assert(block@.take(i as int) == block@.take(i as int - 1).push(block@[i as int - 1]));
            }
        }
        proof {
            assert(block@.take(block@.len() as int) == block@);
        }
    }

    /// Ends the session: releases the stream, so no further callback runs,
    /// and hands the accumulated buffer over. Always succeeds; an empty
    /// buffer is a valid result.
    pub fn stop_recording(&mut self) -> (out: Vec<u32>)
        ensures
            !final(self).stream_open,
            out@ == old(self).samples@,
            final(self).samples@ == Seq::<u32>::empty(),
    {
        self.stream_open = false;
        let mut out: Vec<u32> = Vec::new();
        core::mem::swap(&mut out, &mut self.samples);
        out
    }
}

} // verus!
