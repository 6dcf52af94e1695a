//! The decisions of the audio output: whether a decoded track joins the
//! live queue, and which device to try opening next.

use vstd::prelude::*;

verus! {

/// Whether a track went into the live queue of the open device, or the
/// device had to be opened anew for it.
#[derive(Debug, Clone, Copy, PartialEq, Eq, Structural)]
pub enum QueryTrackResult {
    Queued,
    NotQueued,
}

/// A device must be (re)opened when none is open or the open one runs at
/// another sample rate than the track's.
pub open spec fn needs_reopen(open_rate: Option<u32>, track_rate: u32) -> bool {
    open_rate != Some(track_rate)
}

/// What feeding a track of `track_rate` does, given the rate of the open
/// device, if any: it joins the live queue, or a new device is needed.
pub fn plan_query(open_rate: Option<u32>, track_rate: u32) -> (r: QueryTrackResult)
    ensures
        r == (if needs_reopen(open_rate, track_rate) {
            QueryTrackResult::NotQueued
        } else {
            QueryTrackResult::Queued
        }),
{
    match open_rate {
        Some(rate) => if rate == track_rate {
            QueryTrackResult::Queued
        } else {
            QueryTrackResult::NotQueued
        },
        None => QueryTrackResult::NotQueued,
    }
}

/// Which output device to try opening.
#[derive(Debug, Clone, Copy, PartialEq, Eq, Structural)]
pub enum DeviceAttempt {
    /// The system's default device, at the requested rate.
    Default,
    /// The enumerated output device at this index, falling back to a rate it takes.
    Device(usize),
    /// Nothing left to try.
    GiveUp,
}

/// The order in which devices are tried: the default first, then each of
/// the `devices` enumerated devices in turn, then none.
pub open spec fn attempt_after(last: DeviceAttempt, devices: usize) -> DeviceAttempt {
    match last {
        DeviceAttempt::Default => if devices > 0 {
            DeviceAttempt::Device(0)
        } else {
            DeviceAttempt::GiveUp
        },
        DeviceAttempt::Device(i) => if i + 1 < devices {
            DeviceAttempt::Device((i + 1) as usize)
        } else {
            DeviceAttempt::GiveUp
        },
        DeviceAttempt::GiveUp => DeviceAttempt::GiveUp,
    }
}

/// The device to try once `last` would not open.
pub fn next_attempt(last: DeviceAttempt, devices: usize) -> (r: DeviceAttempt)
    ensures
        r == attempt_after(last, devices),
{
    match last {
        DeviceAttempt::Default => if devices > 0 {
            DeviceAttempt::Device(0)
        } else {
            DeviceAttempt::GiveUp
        },
        DeviceAttempt::Device(i) => if i < devices && i + 1 < devices {
            DeviceAttempt::Device(i + 1)
        } else {
            DeviceAttempt::GiveUp
        },
        DeviceAttempt::GiveUp => DeviceAttempt::GiveUp,
    }
}

} // verus!
