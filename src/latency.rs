use vstd::prelude::*;
use crate::settings::{Settings, ms_to_ns};

verus! {

/// Latency, in nanoseconds, that the bin adds on top of what upstream reports.
/// Until the video frame rate is known, or while captions are bypassed, the
/// full transcription budget is reserved; a captioning topology adds only the
/// accumulation cut-off, and nothing at all for a roll-up style.
pub open spec fn spec_added_latency(settings: Settings, framerate_known: bool) -> int {
    if settings.passthrough || !framerate_known {
        settings.spec_max_size_time()
    } else {
        settings.spec_accumulate_budget()
    }
}

pub fn added_latency(settings: &Settings, framerate_known: bool) -> (r: u64)
    ensures
        r == spec_added_latency(*settings, framerate_known),
{
    if settings.passthrough || !framerate_known {
        settings.max_size_time()
    } else {
        settings.accumulate_budget()
    }
}

/// Minimum latency reported downstream for an upstream minimum of
/// `upstream_min` nanoseconds; `None` where the sum is not a valid clock
/// time (the largest `u64` stands for "no time").
pub open spec fn spec_reported_min_latency(upstream_min: u64, settings: Settings, framerate_known: bool) -> Option<u64> {
    let total = upstream_min + spec_added_latency(settings, framerate_known);
    if total < u64::MAX {
        Some(total as u64)
    } else {
        None
    }
}

pub fn reported_min_latency(upstream_min: u64, settings: &Settings, framerate_known: bool) -> (r:
    Option<u64>)
    ensures
        r == spec_reported_min_latency(upstream_min, *settings, framerate_known),
{
    let added = added_latency(settings, framerate_known);
    match upstream_min.checked_add(added) {
        Some(total) => if total < u64::MAX {
            Some(total)
        } else {
            None
        },
        None => None,
    }
}

} // verus!
