//! Timing telemetry of the exchange: how far two consecutive ticks lie
//! apart, reported once in a while. Nothing depends on it.

use crate::link::Notice;
use vstd::prelude::*;

verus! {

/// A cycle is reported when its number is a multiple of this.
pub const TELEMETRY_PERIOD: u32 = 100;

/// What cycle number `cycle` reports when its tick comes at `at` and the
/// tick before it came at `last_tick`: the time between the two, for every
/// hundredth cycle that has a tick before it. A clock that ran backwards
/// yields no report.
pub open spec fn spec_interval_notice(cycle: u32, last_tick: Option<u64>, at: u64) -> Notice {
    match last_tick {
        Some(before) if cycle % TELEMETRY_PERIOD == 0 && before <= at => Notice::Telemetry {
            cycle,
            elapsed_us: (at - before) as u64,
        },
        _ => Notice::Silent,
    }
}

/// The telemetry of one cycle of the exchange.
pub fn interval_notice(cycle: u32, last_tick: Option<u64>, at: u64) -> (notice: Notice)
    ensures
        notice == spec_interval_notice(cycle, last_tick, at),
{
    match last_tick {
        Some(before) => {
            if cycle % TELEMETRY_PERIOD == 0 && before <= at {
                Notice::Telemetry { cycle, elapsed_us: at - before }
            } else {
                Notice::Silent
            }
        },
        None => Notice::Silent,
    }
}

} // verus!
