//! Heart-rate readings, and the stand-in monitor that produces a rate
//! sweeping up and down between two bounds.

use vstd::prelude::*;

verus! {

/// Lowest rate of the simulated sweep, in beats per minute.
pub const SWEEP_LOW_BPM: u16 = 70;

/// Highest rate of the simulated sweep, in beats per minute.
pub const SWEEP_HIGH_BPM: u16 = 95;

/// One reading of a heart-rate monitor.
#[derive(Clone, Debug)]
pub struct MonitorStatus {
    pub heart_rate_bpm: u16,
    /// The latest RR interval, in milliseconds.
    pub latest_rr_ms: u64,
    /// The RR intervals of this reading, in milliseconds.
    pub rr_intervals_ms: Vec<u64>,
    pub twitch_up: bool,
    pub twitch_down: bool,
    /// Whether the RR data comes from the monitor rather than the rate.
    pub use_real_rr: bool,
}

impl MonitorStatus {
    /// A reading of `bpm` with no RR data.
    pub fn from_bpm(bpm: u16) -> (r: MonitorStatus)
        ensures
            r.heart_rate_bpm == bpm,
            r.latest_rr_ms == 0,
            r.rr_intervals_ms@.len() == 0,
            !r.twitch_up,
            !r.twitch_down,
    {
        MonitorStatus {
            heart_rate_bpm: bpm,
            latest_rr_ms: 0,
            rr_intervals_ms: Vec::new(),
            twitch_up: false,
            twitch_down: false,
            use_real_rr: false,
        }
    }
}

impl Default for MonitorStatus {
    /// A reading of zero with no RR data.
    fn default() -> (r: MonitorStatus)
        ensures
            r.heart_rate_bpm == 0,
            r.latest_rr_ms == 0,
            r.rr_intervals_ms@.len() == 0,
            !r.twitch_up,
            !r.twitch_down,
    {
        MonitorStatus::from_bpm(0)
    }
}

/// A monitor stand-in whose rate climbs by one per step up to the high
/// bound, turns, falls by one per step down to the low bound, and turns again.
/// Each turn takes one step of its own during which the rate holds.
#[derive(Clone, Copy, Debug, PartialEq, Eq, Structural)]
pub struct SimulatedMonitor {
    pub bpm: u16,
    pub rising: bool,
}

impl SimulatedMonitor {
    /// The rate stays within the sweep.
    pub open spec fn wf(self) -> bool {
        SWEEP_LOW_BPM <= self.bpm <= SWEEP_HIGH_BPM
    }

    /// The state after one step.
    pub open spec fn next(self) -> SimulatedMonitor {
        if self.rising {
            if self.bpm < SWEEP_HIGH_BPM {
                SimulatedMonitor { bpm: (self.bpm + 1) as u16, rising: true }
            } else {
                SimulatedMonitor { bpm: self.bpm, rising: false }
            }
        } else {
            if self.bpm > SWEEP_LOW_BPM {
                SimulatedMonitor { bpm: (self.bpm - 1) as u16, rising: false }
            } else {
                SimulatedMonitor { bpm: self.bpm, rising: true }
            }
        }
    }

    /// A monitor at the low bound, rising.
    pub fn new() -> (r: SimulatedMonitor)
        ensures
            r.wf(),
            r.bpm == SWEEP_LOW_BPM,
            r.rising,
    {
        SimulatedMonitor { bpm: SWEEP_LOW_BPM, rising: true }
    }

    /// Advances one step and returns the reading it produces.
    pub fn step(&mut self) -> (r: MonitorStatus)
        requires
            old(self).wf(),
        ensures
            *final(self) == old(self).next(),
            final(self).wf(),
            r.heart_rate_bpm == final(self).bpm,
            r.latest_rr_ms == 0,
            r.rr_intervals_ms@.len() == 0,
    {
        if self.rising {
            if self.bpm < SWEEP_HIGH_BPM {
                self.bpm = self.bpm + 1;
            } else {
                self.rising = false;
            }
        } else {
            if self.bpm > SWEEP_LOW_BPM {
                self.bpm = self.bpm - 1;
            } else {
                self.rising = true;
            }
        }
        MonitorStatus::from_bpm(self.bpm)
    }
}

} // verus!
