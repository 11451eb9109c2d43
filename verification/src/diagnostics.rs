//! The diagnostics aggregator: on a fixed cadence it hands the frame rate
//! and the particle count on for display.

use crate::cadence::Cadence;
use crate::timer::carried_over;
use vstd::prelude::*;

verus! {

/// One sample for display. The frame rate is whatever the frame timing
/// source supplies, and is missing while that source has no average yet.
pub struct Reading<R> {
    /// The average frame rate, if the timing source has one.
    pub frame_rate: Option<R>,
    /// How many particles exist.
    pub particle_count: usize,
}

/// Samples the counters once per sampling period.
pub struct DiagnosticsAggregator {
    sampler: Cadence,
}

impl DiagnosticsAggregator {
    /// The sampling clock is in order.
    pub closed spec fn wf(&self) -> bool {
        self.sampler.wf()
    }

    /// The sampling period in nanoseconds.
    pub closed spec fn period(&self) -> nat {
        self.sampler.period()
    }

    /// Nanoseconds since the sampling period last ran out.
    pub closed spec fn elapsed(&self) -> nat {
        self.sampler.elapsed()
    }

    /// An aggregator with the given sampling period; a zero period is
    /// refused.
    pub fn new(period_nanos: u64) -> (made: Option<DiagnosticsAggregator>)
        ensures
            made is Some <==> period_nanos > 0,
            made is Some ==> {
                &&& made->0.wf()
                &&& made->0.period() == period_nanos
                &&& made->0.elapsed() == 0
            },
    {
        match Cadence::new(period_nanos) {
            Some(sampler) => Some(DiagnosticsAggregator { sampler }),
            None => None,
        }
    }

    /// One tick of the aggregator: on the ticks on which the sampling
    /// period runs out it returns the counters as they were handed in, on
    /// the others nothing.
    pub fn sample<R>(
        &mut self,
        delta_nanos: u64,
        frame_rate: Option<R>,
        particle_count: usize,
    ) -> (reading: Option<Reading<R>>)
        requires
            old(self).wf(),
        ensures
            final(self).wf(),
            final(self).period() == old(self).period(),
            final(self).elapsed() == carried_over(
                old(self).elapsed(),
                delta_nanos as nat,
                old(self).period(),
            ),
            reading == if old(self).elapsed() + delta_nanos >= old(self).period() {
                Some(Reading { frame_rate, particle_count })
            } else {
                None
            },
    {
        if self.sampler.advance(delta_nanos) {
            Some(Reading { frame_rate, particle_count })
        } else {
            None
        }
    }
}

} // verus!
