//! Persisted entries: one row of the table of locations.

use vstd::prelude::*;
use crate::frame::{FrameView, LocationFrame};

verus! {

/// One persisted location record. The readings are bit patterns of
/// doubles; `generated` and `received` are seconds since the epoch. Nothing
/// relates the two times: a device's clock may run ahead of the server's.
#[derive(Clone, Copy, Debug, PartialEq, Eq, Structural)]
pub struct LocationEntry {
    pub latitude: u64,
    pub longitude: u64,
    pub signal: u64,
    pub battery: u64,
    pub generated: i64,
    pub received: i64,
}

/// The entry that records `frame` as received at `received`.
pub open spec fn recorded(frame: FrameView, received: i64) -> LocationEntry {
    LocationEntry {
        latitude: frame.latitude,
        longitude: frame.longitude,
        signal: frame.signal,
        battery: frame.battery,
        generated: frame.timestamp as i64,
        received,
    }
}

impl LocationEntry {
    /// Records `frame` as received at `received`.
    pub fn record(frame: &LocationFrame, received: i64) -> (entry: LocationEntry)
        ensures
            entry == recorded(frame@, received),
            entry.generated == frame@.timestamp,
    {
        let generated: i64 = frame.timestamp() as i64;
        LocationEntry {
            latitude: frame.latitude_bits(),
            longitude: frame.longitude_bits(),
            signal: frame.signal_bits(),
            battery: frame.battery_bits(),
            generated,
            received,
        }
    }
}

} // verus!
