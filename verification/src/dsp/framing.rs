//! Sample bookkeeping of the streaming short-time Fourier stages (noise
//! reduction, pitch/formant): every incoming sample enters an input FIFO of
//! one frame, one processed sample leaves the output FIFO, and a frame is
//! analysed and resynthesised each time a hop of new samples has come in.
//! The output therefore lags the input by a frame minus a hop.

use vstd::prelude::*;

verus! {

/// Samples per analysis frame.
pub const FRAME_SIZE: usize = 1024;

/// New samples between two frames (a quarter frame: 75 % overlap).
pub const HOP: usize = 256;

/// The delay of the output behind the input, in samples.
pub const FRAME_LATENCY: usize = 768;

/// Where one sample goes and comes from.
#[derive(Debug, Clone, Copy, PartialEq, Eq, Structural)]
pub struct FrameStep {
    /// The input FIFO slot the sample is written to.
    pub write_index: usize,
    /// The output FIFO slot the processed sample is read from.
    pub read_index: usize,
    /// Whether a frame is to be processed after this sample.
    pub frame_due: bool,
}

/// The position in the input FIFO at which the next sample is written.
pub struct HopFramer {
    rover: usize,
}

/// The position that follows `p`: one slot on, or back to the start of the
/// last hop once a frame is full.
pub open spec fn next_position(p: usize) -> usize {
    if p + 1 >= FRAME_SIZE {
        FRAME_LATENCY
    } else {
        (p + 1) as usize
    }
}

impl HopFramer {
    /// The position always lies in the last hop of the frame.
    #[verifier::type_invariant]
    spec fn in_last_hop(&self) -> bool {
        FRAME_LATENCY <= self.rover < FRAME_SIZE
    }

    /// The slot at which the next sample is written.
    pub closed spec fn position(&self) -> usize {
        self.rover
    }

    /// A framer at the start of the last hop, as after a reset.
    pub fn new() -> (r: HopFramer)
        ensures
            r.position() == FRAME_LATENCY,
    {
        HopFramer { rover: FRAME_LATENCY }
    }

    /// Back to the start of the last hop.
    pub fn reset(&mut self)
        ensures
            final(self).position() == FRAME_LATENCY,
    {
        self.rover = FRAME_LATENCY;
    }

    /// Accounts for one sample: where it is written, where the output
    /// sample is read, and whether a frame is due now. Both slots are in
    /// range: the write slot in the last hop of the input FIFO, the read slot
    /// in the first hop of the output FIFO.
    pub fn step(&mut self) -> (r: FrameStep)
        ensures
            r.write_index == old(self).position(),
            r.read_index == old(self).position() - FRAME_LATENCY,
            FRAME_LATENCY <= r.write_index < FRAME_SIZE,
            r.read_index < HOP,
            r.frame_due == (old(self).position() + 1 == FRAME_SIZE),
            final(self).position() == next_position(old(self).position()),
    {
        proof {
            use_type_invariant(&*self);
        }
        let write_index: usize = self.rover;
        let read_index: usize = self.rover - FRAME_LATENCY;
        let next: usize = self.rover + 1;
        let frame_due = next >= FRAME_SIZE;
        self.rover = if frame_due {
            FRAME_LATENCY
        } else {
            next
        };
        FrameStep { write_index, read_index, frame_due }
    }
}

/// `n` steps from position `p`.
pub open spec fn position_after(p: usize, n: nat) -> usize
    decreases n,
{
    if n == 0 {
        p
    } else {
        next_position(position_after(p, (n - 1) as nat))
    }
}

/// A frame is processed once every hop: from the start of the last hop, the
/// position climbs one slot per sample, reaches the end of the frame after
/// `HOP` samples and starts over.
pub proof fn law_frame_every_hop(n: nat)
    requires
        n <= HOP,
    ensures
        n < HOP ==> position_after(FRAME_LATENCY, n) == FRAME_LATENCY + n,
        n == HOP ==> position_after(FRAME_LATENCY, n) == FRAME_LATENCY,
    decreases n,
{
    if n > 0 {
        law_frame_every_hop((n - 1) as nat);
    }
}

} // verus!
