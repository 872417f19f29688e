//! Control of the streaming spectral-power pipeline: one output block is the
//! mean of `averaging` squared-magnitude frames, and a transient overflow
//! during acquisition skips one averaging iteration without ending the block.
//!
//! The numeric work (acquisition, FFT, accumulation) runs outside the
//! library; these types decide, per acquisition outcome, what that loop does
//! next, and carry the iteration bookkeeping it relies on.

use vstd::prelude::*;

verus! {

/// Number of frequency bins in one spectrum frame, and of complex samples in
/// one acquired block.
pub const NUM_SAMPLES: usize = 2048;

/// What one acquisition attempt produced, as seen by the averaging loop.
#[derive(Clone, Copy, PartialEq, Eq, Structural, Debug)]
pub enum ReadOutcome {
    /// A block of samples arrived; the payload is the sample count reported.
    Received(usize),
    /// The device signalled a transient overflow; the block was lost.
    Overflow,
    /// Any other acquisition failure; the session cannot continue.
    Fatal,
}

/// What the averaging loop does with the outcome of one acquisition attempt.
#[derive(Clone, Copy, PartialEq, Eq, Structural, Debug)]
pub enum BlockStep {
    /// Transform the block and add its squared magnitudes to the accumulator.
    Accumulate,
    /// Drop this iteration and move on; the accumulator is left untouched.
    Skip,
    /// Abort the session.
    Abort,
}

/// Bookkeeping for one output block: how many averaging iterations have run
/// and how many of them contributed a frame to the accumulator.
#[derive(Clone, Copy, PartialEq, Eq, Structural, Debug)]
pub struct BlockAverager {
    /// Nominal number of averaging iterations per block; at least one.
    pub averaging: u32,
    /// Iterations consumed so far in the current block.
    pub completed: u32,
    /// Iterations that actually accumulated a frame (no overflow).
    pub contributed: u32,
}

impl BlockAverager {
    /// Well-formedness: no more iterations consumed than the block asks for,
    /// and no more contributions than iterations.
    pub open spec fn wf(self) -> bool {
        &&& self.averaging >= 1
        &&& self.completed <= self.averaging
        &&& self.contributed <= self.completed
    }

    /// Start a fresh block of `averaging` iterations.
    pub fn new(averaging: u32) -> (averager: BlockAverager)
        requires
            averaging >= 1,
        ensures
            averager.wf(),
            averager.averaging == averaging,
            averager.completed == 0,
            averager.contributed == 0,
    {
        BlockAverager { averaging, completed: 0, contributed: 0 }
    }

    /// Whether the block has consumed all its iterations and the accumulated
    /// sum is ready to be scaled and emitted.
    pub fn is_complete(&self) -> (complete: bool)
        ensures
            complete == (self.completed == self.averaging),
    {
        self.completed == self.averaging
    }

    /// Consume one averaging iteration: a received block is accumulated, a
    /// transient overflow skips the iteration without ending the block, and
    /// any other failure aborts with the bookkeeping untouched.
    pub fn record(&mut self, outcome: ReadOutcome) -> (step: BlockStep)
        requires
            old(self).wf(),
            old(self).completed < old(self).averaging,
        ensures
            final(self).wf(),
            final(self).averaging == old(self).averaging,
            (outcome matches ReadOutcome::Received(_)) ==> {
                &&& step == BlockStep::Accumulate
                &&& final(self).completed == old(self).completed + 1
                &&& final(self).contributed == old(self).contributed + 1
            },
            outcome == ReadOutcome::Overflow ==> {
                &&& step == BlockStep::Skip
                &&& final(self).completed == old(self).completed + 1
                &&& final(self).contributed == old(self).contributed
            },
            outcome == ReadOutcome::Fatal ==> {
                &&& step == BlockStep::Abort
                &&& *final(self) == *old(self)
            },
    {
        match outcome {
            ReadOutcome::Received(_) => {
                self.completed = self.completed + 1;
                self.contributed = self.contributed + 1;
                BlockStep::Accumulate
            },
            ReadOutcome::Overflow => {
                self.completed = self.completed + 1;
                BlockStep::Skip
            },
            ReadOutcome::Fatal => BlockStep::Abort,
        }
    }

    /// The factor every accumulator entry is divided by when the block is
    /// emitted: the nominal iteration count, even when overflows made fewer
    /// iterations contribute. A block with skipped iterations is therefore
    /// biased toward zero; that is the documented behaviour.
    pub fn nominal_divisor(&self) -> (divisor: u32)
        requires
            self.wf(),
        ensures
            divisor == self.averaging,
            divisor >= 1,
    {
        self.averaging
    }
}

} // verus!
