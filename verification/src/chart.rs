//! Samples of the orchestrator's budget over time.

use vstd::prelude::*;

verus! {

/// One sample: the budget at a moment.
#[derive(Clone, Copy, Debug, PartialEq, Eq)]
pub struct ChartTick {
    timestamp: u64,
    cycles: u64,
}

impl ChartTick {
    /// The sample of the given budget at the given moment.
    pub closed spec fn sample(timestamp: u64, cycles: u64) -> ChartTick {
        ChartTick { timestamp, cycles }
    }

    /// The moment of the sample, in nanoseconds since the epoch.
    pub closed spec fn moment(self) -> u64 {
        self.timestamp
    }

    /// The budget at that moment.
    pub closed spec fn amount(self) -> u64 {
        self.cycles
    }

    pub fn new(timestamp: u64, cycles: u64) -> (tick: ChartTick)
        ensures
            tick == ChartTick::sample(timestamp, cycles),
    {
        ChartTick { timestamp, cycles }
    }

    pub fn timestamp(&self) -> (timestamp: u64)
        ensures
            timestamp == self.moment(),
    {
        self.timestamp
    }

    pub fn cycles(&self) -> (cycles: u64)
        ensures
            cycles == self.amount(),
    {
        self.cycles
    }
}

/// A sample is its moment and its budget, and nothing else.
pub proof fn sample_is_moment_and_amount(tick: ChartTick)
    ensures
        tick == ChartTick::sample(tick.moment(), tick.amount()),
        forall|timestamp: u64, cycles: u64|
            #![trigger ChartTick::sample(timestamp, cycles)]
            ChartTick::sample(timestamp, cycles).moment() == timestamp && ChartTick::sample(
                timestamp,
                cycles,
            ).amount() == cycles,
{
}

/// Adds the sample of the given moment after all earlier ones.
pub fn update_chart(chart: &mut Vec<ChartTick>, timestamp: u64, cycles: u64)
    ensures
        final(chart)@ == old(chart)@.push(ChartTick::sample(timestamp, cycles)),
{
    chart.push(ChartTick::new(timestamp, cycles));
}

} // verus!
