//! The resampling schedule: input is fed in bounded chunks, then the
//! resampler is flushed until it has nothing left.
//!
//! The resampler itself works on machine floats and is the caller's; this
//! module decides which chunk goes in next and keeps what came out.

use crate::buffers::extend_copy;
use vstd::prelude::*;

verus! {

/// The most samples fed to the resampler in one call.
pub const MAX_CHUNK: usize = 4096;

/// The smaller of two numbers.
pub open spec fn min_nat(a: nat, b: nat) -> nat {
    if a <= b {
        a
    } else {
        b
    }
}

/// The number of samples that `len` samples become when going from
/// `from_rate` to `to_rate`, rounded up, and capped at what fits a `usize`.
pub open spec fn expected_output_len(len: nat, from_rate: nat, to_rate: nat) -> nat {
    min_nat(
        ((len * to_rate + from_rate - 1) / from_rate as int) as nat,
        usize::MAX as nat,
    )
}

/// How a buffer is resampled.
#[derive(Clone, Copy, Debug, PartialEq, Eq, Structural)]
pub struct ResamplePlan {
    pub from_rate: u32,
    pub to_rate: u32,
    pub input_len: usize,
    /// The size of the chunks that are fed in.
    pub chunk_size: usize,
    /// About how many samples will come out; the true number is the
    /// resampler's.
    pub expected_output: usize,
}

/// What is to be done to a buffer to bring it to another rate.
#[derive(Clone, Copy, Debug, PartialEq, Eq, Structural)]
pub enum ResampleDecision {
    /// The rates are the same: the buffer stays as it is.
    Unchanged,
    /// The buffer goes through the resampler.
    Resample(ResamplePlan),
    /// A rate of zero.
    InvalidRate,
}

/// What is done to `input_len` samples at `from_rate` to bring them to
/// `to_rate`: nothing where the rates are the same; else they go through
/// the resampler in chunks of at most `MAX_CHUNK`.
pub open spec fn planned_resample(input_len: nat, from_rate: u32, to_rate: u32)
    -> ResampleDecision {
    if from_rate == to_rate {
        ResampleDecision::Unchanged
    } else if from_rate == 0 || to_rate == 0 {
        ResampleDecision::InvalidRate
    } else {
        ResampleDecision::Resample(
            ResamplePlan {
                from_rate,
                to_rate,
                input_len: input_len as usize,
                chunk_size: min_nat(input_len, MAX_CHUNK as nat) as usize,
                expected_output: expected_output_len(input_len, from_rate as nat, to_rate as nat)
                    as usize,
            },
        )
    }
}

/// Decides how `input_len` samples at `from_rate` are brought to `to_rate`.
pub fn plan_resample(input_len: usize, from_rate: u32, to_rate: u32) -> (r: ResampleDecision)
    ensures
        r == planned_resample(input_len as nat, from_rate, to_rate),
{
    if from_rate == to_rate {
        return ResampleDecision::Unchanged;
    }
    if from_rate == 0 || to_rate == 0 {
        return ResampleDecision::InvalidRate;
    }
    let chunk_size: usize = if input_len <= MAX_CHUNK {
        input_len
    } else {
        MAX_CHUNK
    };
    assert(input_len * to_rate <= 0xFFFF_FFFF_FFFF_FFFF * 0xFFFF_FFFF) by (nonlinear_arith)
        requires
            0 <= input_len <= 0xFFFF_FFFF_FFFF_FFFF,
            0 <= to_rate <= 0xFFFF_FFFF,
    ;
    let scaled: u128 = (input_len as u128) * (to_rate as u128) + (from_rate as u128 - 1);
    let exact: u128 = scaled / (from_rate as u128);
    let expected_output: usize = if exact > usize::MAX as u128 {
        usize::MAX
    } else {
        exact as usize
    };
    ResampleDecision::Resample(
        ResamplePlan { from_rate, to_rate, input_len, chunk_size, expected_output },
    )
}

/// Going to another rate and back, the expected length comes out at the
/// length that went in, or above it by less than the ratio of the rates
/// plus one: the duration is kept up to that many samples.
pub proof fn law_round_trip_keeps_length(len: nat, from_rate: nat, to_rate: nat)
    requires
        from_rate > 0,
        to_rate > 0,
    ensures
        ({
            let there = ((len * to_rate + from_rate - 1) / from_rate as int) as nat;
            let back = ((there * from_rate + to_rate - 1) / to_rate as int) as nat;
            len <= back <= len + from_rate / to_rate + 1
        }),
{
    let there = (len * to_rate + from_rate - 1) / from_rate as int;
    let back = (there * from_rate + to_rate - 1) / to_rate as int;
    assert(there * from_rate >= len * to_rate && there * from_rate <= len * to_rate + from_rate
        - 1 && there >= 0) by (nonlinear_arith)
        requires
            from_rate > 0,
            to_rate > 0,
            len >= 0,
            there == (len * to_rate + from_rate - 1) / from_rate as int,
    ;
    assert(back >= len) by (nonlinear_arith)
        requires
            to_rate > 0,
            there * from_rate >= len * to_rate,
            back == (there * from_rate + to_rate - 1) / to_rate as int,
    ;
    let q = from_rate / to_rate;
    assert(from_rate - 1 < (q + 1) * to_rate) by (nonlinear_arith)
        requires
            to_rate > 0,
            from_rate > 0,
            q == from_rate / to_rate,
    ;
    assert(back <= len + q + 1) by (nonlinear_arith)
        requires
            to_rate > 0,
            there * from_rate <= len * to_rate + from_rate - 1,
            from_rate - 1 < (q + 1) * to_rate,
            back == (there * from_rate + to_rate - 1) / to_rate as int,
    ;
}

/// What the caller does next with the resampler.
#[derive(Clone, Copy, Debug, PartialEq, Eq, Structural)]
pub enum ResampleStep {
    /// Feed the input samples from `start` up to, not including, `end`.
    Feed { start: usize, end: usize },
    /// Feed nothing, to drain what the resampler still holds.
    Flush,
    /// Resampling is over.
    Done,
}

/// What one call of the resampler gave. `T` is the sample type.
#[derive(Clone, Debug, PartialEq, Eq)]
pub enum ChunkOutcome<T> {
    /// The samples that came out; there may be none.
    Produced(Vec<T>),
    /// The call failed.
    Failed,
}

/// Where a resampling run stands.
#[derive(Clone, Copy, Debug, PartialEq, Eq, Structural)]
pub enum ResamplePhase {
    Feeding,
    Flushing,
    Finished,
}

/// One resampling run: how much of the input has gone in, and what has come
/// out so far.
pub struct ResampleSession<T> {
    pub plan: ResamplePlan,
    pub offset: usize,
    pub phase: ResamplePhase,
    pub output: Vec<T>,
}

impl<T: Copy> ResampleSession<T> {
    /// The run is in order.
    pub open spec fn wf(&self) -> bool {
        &&& self.offset <= self.plan.input_len
        &&& self.plan.chunk_size == min_nat(self.plan.input_len as nat, MAX_CHUNK as nat)
        &&& self.phase == ResamplePhase::Feeding ==> self.offset < self.plan.input_len
    }

    /// The step that belongs to the state.
    pub open spec fn pending(&self) -> ResampleStep {
        match self.phase {
            ResamplePhase::Feeding => ResampleStep::Feed {
                start: self.offset,
                end: min_nat(
                    (self.offset + self.plan.chunk_size) as nat,
                    self.plan.input_len as nat,
                ) as usize,
            },
            ResamplePhase::Flushing => ResampleStep::Flush,
            ResamplePhase::Finished => ResampleStep::Done,
        }
    }

    /// Starts a run. With input, the first chunk is fed; without, the
    /// resampler is flushed at once.
    pub fn begin(plan: ResamplePlan) -> (r: (Self, ResampleStep))
        requires
            plan.chunk_size == min_nat(plan.input_len as nat, MAX_CHUNK as nat),
        ensures
            r.0.wf(),
            r.0.plan == plan,
            r.0.offset == 0,
            r.0.output@.len() == 0,
            r.0.phase == if plan.input_len > 0 {
                ResamplePhase::Feeding
            } else {
                ResamplePhase::Flushing
            },
            r.1 == r.0.pending(),
    {
        let phase = if plan.input_len > 0 {
            ResamplePhase::Feeding
        } else {
            ResamplePhase::Flushing
        };
        let session = ResampleSession { plan, offset: 0, phase, output: Vec::new() };
        let step = session.step();
        (session, step)
    }

    /// The step that belongs to the state.
    pub fn step(&self) -> (r: ResampleStep)
        requires
            self.wf(),
        ensures
            r == self.pending(),
            r matches ResampleStep::Feed { start, end } ==> start < end <= self.plan.input_len
                && end - start <= MAX_CHUNK,
    {
        match self.phase {
            ResamplePhase::Feeding => {
                let end: usize = if self.plan.chunk_size <= self.plan.input_len - self.offset {
                    self.offset + self.plan.chunk_size
                } else {
                    self.plan.input_len
                };
                ResampleStep::Feed { start: self.offset, end }
            },
            ResamplePhase::Flushing => ResampleStep::Flush,
            ResamplePhase::Finished => ResampleStep::Done,
        }
    }

    /// Takes in what the last call of the resampler gave, and says what comes
    /// next. What came out is kept, in order. While feeding, a chunk that went
    /// through moves on to the next one, or to flushing after the last; a
    /// chunk that failed ends the feeding. While flushing, output keeps the
    /// flushing going; no output, or a failure, ends the run.
    pub fn advance(&mut self, outcome: ChunkOutcome<T>) -> (next: ResampleStep)
        requires
            old(self).wf(),
        ensures
            final(self).wf(),
            final(self).plan == old(self).plan,
            next == final(self).pending(),
            final(self).output@ == old(self).output@ + match outcome {
                ChunkOutcome::Produced(samples) if old(self).phase != ResamplePhase::Finished =>
                    samples@,
                _ => Seq::<T>::empty(),
            },
            match old(self).phase {
                ResamplePhase::Feeding => match outcome {
                    ChunkOutcome::Produced(_) => {
                        &&& final(self).offset == min_nat(
                            (old(self).offset + old(self).plan.chunk_size) as nat,
                            old(self).plan.input_len as nat,
                        )
                        &&& final(self).phase == if final(self).offset < old(self).plan.input_len {
                            ResamplePhase::Feeding
                        } else {
                            ResamplePhase::Flushing
                        }
                    },
                    ChunkOutcome::Failed => final(self).offset == old(self).offset
                        && final(self).phase == ResamplePhase::Flushing,
                },
                ResamplePhase::Flushing => final(self).offset == old(self).offset
                    && final(self).phase == match outcome {
                    ChunkOutcome::Produced(samples) if samples@.len() > 0 =>
                        ResamplePhase::Flushing,
                    _ => ResamplePhase::Finished,
                },
                ResamplePhase::Finished => final(self).offset == old(self).offset
                    && final(self).phase == ResamplePhase::Finished,
            },
    {
        match self.phase {
            ResamplePhase::Feeding => {
                match outcome {
                    ChunkOutcome::Produced(samples) => {
                        extend_copy(&mut self.output, &samples);
                        let end: usize = if self.plan.chunk_size <= self.plan.input_len
                            - self.offset {
                            self.offset + self.plan.chunk_size
                        } else {
                            self.plan.input_len
                        };
                        self.offset = end;
                        if self.offset >= self.plan.input_len {
                            self.phase = ResamplePhase::Flushing;
                        }
                    },
                    ChunkOutcome::Failed => {
                        self.phase = ResamplePhase::Flushing;
                        assert(self.output@ =~= old(self).output@ + Seq::<T>::empty());
                    },
                }
            },
            ResamplePhase::Flushing => {
                match outcome {
                    ChunkOutcome::Produced(samples) => {
                        if samples.len() > 0 {
                            extend_copy(&mut self.output, &samples);
                        } else {
                            assert(self.output@ =~= old(self).output@ + samples@);
                            self.phase = ResamplePhase::Finished;
                        }
                    },
                    ChunkOutcome::Failed => {
                        self.phase = ResamplePhase::Finished;
                        assert(self.output@ =~= old(self).output@ + Seq::<T>::empty());
                    },
                }
            },
            ResamplePhase::Finished => {
                assert(self.output@ =~= old(self).output@ + Seq::<T>::empty());
            },
        }
        self.step()
    }
}

} // verus!
