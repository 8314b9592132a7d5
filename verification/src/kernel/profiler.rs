//! Timestamp-counter calibration against the timer tick.
//!
//! A calibration samples the counter when the tick changes and again at
//! least 100 ticks later; the counter's frequency is the elapsed cycles
//! scaled to one second. Up to five samples are taken, and the first whose
//! frequency lies between 100 MHz and 10 GHz is kept.

use vstd::prelude::*;

verus! {

const CALIBRATION_TICKS: u64 = 100;
const TIMER_TICKS_PER_SECOND: u64 = 1000;
const MIN_REASONABLE_TSC_FREQUENCY: u64 = 100_000_000;
const MAX_REASONABLE_TSC_FREQUENCY: u64 = 10_000_000_000;

/// Number of calibration samples tried before giving up.
pub const MAX_CALIBRATION_ATTEMPTS: usize = 5;

/// The tick at which a calibration that started at `start_ticks` stops.
pub fn calibration_target_ticks(start_ticks: u64) -> (r: u64)
    ensures
        r == if start_ticks + 100 > u64::MAX {
            u64::MAX
        } else {
            (start_ticks + 100) as u64
        },
{
    start_ticks.saturating_add(CALIBRATION_TICKS)
}

/// The counter frequency two samples give: elapsed cycles times the tick
/// rate over elapsed ticks; `None` when no tick elapsed, the counter went
/// backwards, or the scaling overflows.
pub open spec fn sampled_frequency(start_ticks: u64, tsc_start: u64, end_ticks: u64, tsc_end: u64) -> Option<u64> {
    let ticks = if end_ticks >= start_ticks {
        end_ticks - start_ticks
    } else {
        0
    };
    if ticks == 0 || tsc_end < tsc_start || (tsc_end - tsc_start) * 1000 > u64::MAX {
        None
    } else {
        Some((((tsc_end - tsc_start) * 1000) / ticks) as u64)
    }
}

/// Compute the counter frequency from two tick and counter samples.
pub fn tsc_frequency_from_samples(start_ticks: u64, tsc_start: u64, end_ticks: u64, tsc_end: u64) -> (r: Option<u64>)
    ensures
        r == sampled_frequency(start_ticks, tsc_start, end_ticks, tsc_end),
{
    let actual_ticks = end_ticks.saturating_sub(start_ticks);
    if actual_ticks == 0 {
        return None;
    }
    let elapsed_cycles = match tsc_end.checked_sub(tsc_start) {
        Some(cycles) => cycles,
        None => return None,
    };
    let scaled_cycles = match elapsed_cycles.checked_mul(TIMER_TICKS_PER_SECOND) {
        Some(scaled) => scaled,
        None => return None,
    };
    Some(scaled_cycles / actual_ticks)
}

/// Whether a measured frequency is plausible for a timestamp counter.
pub fn is_reasonable_tsc_frequency(candidate: u64) -> (r: bool)
    ensures
        r == (100_000_000 <= candidate <= 10_000_000_000),
{
    MIN_REASONABLE_TSC_FREQUENCY <= candidate && candidate <= MAX_REASONABLE_TSC_FREQUENCY
}

/// The outcome of the calibration so far: the samples tried and the
/// frequency kept, zero until one is.
pub struct TscCalibration {
    attempts: usize,
    frequency: u64,
}

impl TscCalibration {
    /// Samples tried and the frequency kept.
    pub closed spec fn state(&self) -> (usize, u64) {
        (self.attempts, self.frequency)
    }

    /// No sample tried, no frequency known.
    pub fn new() -> (r: Self)
        ensures
            r.state() == (0usize, 0u64),
    {
        Self { attempts: 0, frequency: 0 }
    }

    /// Whether another sample should be taken: none was kept yet and fewer
    /// than five were tried.
    pub fn wants_sample(&self) -> (r: bool)
        ensures
            r == (self.state().1 == 0 && self.state().0 < 5),
    {
        self.frequency == 0 && self.attempts < MAX_CALIBRATION_ATTEMPTS
    }

    /// Account for one sample: a failed measurement or an implausible
    /// frequency is dropped, a plausible one is kept.
    pub fn record_sample(&mut self, sample: Option<u64>)
        requires
            old(self).state().0 < 5,
            old(self).state().1 == 0,
        ensures
            final(self).state().0 == old(self).state().0 + 1,
            final(self).state().1 == match sample {
                Some(candidate) => if 100_000_000 <= candidate <= 10_000_000_000 {
                    candidate
                } else {
                    0
                },
                None => 0,
            },
    {
        self.attempts = self.attempts + 1;
        match sample {
            Some(candidate) => {
                if is_reasonable_tsc_frequency(candidate) {
                    self.frequency = candidate;
                }
            },
            None => {},
        }
    }
}

/// Return the calibrated timestamp counter frequency in hertz, zero until a
/// calibration kept one.
pub fn get_tsc_frequency(calibration: &TscCalibration) -> (r: u64)
    ensures
        r == calibration.state().1,
{
    calibration.frequency
}

} // verus!
