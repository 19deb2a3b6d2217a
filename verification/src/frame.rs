//! Inbound frames: one location reading as a device sent it, and the
//! decoder that admits it.

use vstd::prelude::*;
use crate::calendar::{is_instant, timestamp_is_instant};
use crate::wire::{field, read_words, FRAME_BYTES};

verus! {

/// Why a byte sequence was not admitted as a frame.
#[derive(Clone, Copy, Debug, PartialEq, Eq, Structural)]
pub enum DecodeError {
    /// The bytes do not hold the five fields of a frame.
    Malformed,
    /// The timestamp names no instant of the calendar.
    InvalidTimestamp,
}

/// What a frame holds: the bit patterns of its four readings and the
/// device's timestamp in seconds since the epoch.
pub struct FrameView {
    pub latitude: u64,
    pub longitude: u64,
    pub signal: u64,
    pub battery: u64,
    pub timestamp: u64,
}

/// One inbound location reading. Every frame carries a timestamp that
/// names an instant of the calendar: neither constructor gives one that
/// does not.
#[derive(Clone, Copy, Debug, PartialEq, Eq)]
pub struct LocationFrame {
    latitude: u64,
    longitude: u64,
    signal: u64,
    battery: u64,
    timestamp: u64,
}

impl View for LocationFrame {
    type V = FrameView;

    closed spec fn view(&self) -> FrameView {
        FrameView {
            latitude: self.latitude,
            longitude: self.longitude,
            signal: self.signal,
            battery: self.battery,
            timestamp: self.timestamp,
        }
    }
}

/// Whether `v` is what some frame holds.
pub open spec fn valid_frame(v: FrameView) -> bool {
    is_instant(v.timestamp)
}

/// The frame that five fields make, or the reason why they make none.
pub open spec fn admitted(
    latitude: u64,
    longitude: u64,
    signal: u64,
    battery: u64,
    timestamp: u64,
) -> Result<FrameView, DecodeError> {
    if is_instant(timestamp) {
        Ok(FrameView { latitude, longitude, signal, battery, timestamp })
    } else {
        Err(DecodeError::InvalidTimestamp)
    }
}

/// The frame that a byte sequence spells, or the reason why it spells none.
/// Bytes beyond the fortieth are not looked at.
pub open spec fn decoded(bytes: Seq<u8>) -> Result<FrameView, DecodeError> {
    if bytes.len() < FRAME_BYTES {
        Err(DecodeError::Malformed)
    } else {
        admitted(
            field(bytes, 0) as u64,
            field(bytes, 1) as u64,
            field(bytes, 2) as u64,
            field(bytes, 3) as u64,
            field(bytes, 4) as u64,
        )
    }
}

impl LocationFrame {
    #[verifier::type_invariant]
    closed spec fn well_formed(self) -> bool {
        is_instant(self.timestamp)
    }

    /// Makes a frame of the bit patterns of four readings and a timestamp,
    /// and refuses a timestamp that names no instant.
    pub fn new(
        latitude: u64,
        longitude: u64,
        signal: u64,
        battery: u64,
        timestamp: u64,
    ) -> (made: Result<LocationFrame, DecodeError>)
        ensures
            match made {
                Ok(frame) => admitted(latitude, longitude, signal, battery, timestamp)
                    == Ok::<FrameView, DecodeError>(frame@),
                Err(e) => admitted(latitude, longitude, signal, battery, timestamp)
                    == Err::<FrameView, DecodeError>(e),
            },
    {
        if timestamp_is_instant(timestamp) {
            Ok(LocationFrame { latitude, longitude, signal, battery, timestamp })
        } else {
            Err(DecodeError::InvalidTimestamp)
        }
    }

    /// Bit pattern of the latitude.
    pub fn latitude_bits(&self) -> (bits: u64)
        ensures
            bits == self@.latitude,
    {
        self.latitude
    }

    /// Bit pattern of the longitude.
    pub fn longitude_bits(&self) -> (bits: u64)
        ensures
            bits == self@.longitude,
    {
        self.longitude
    }

    /// Bit pattern of the signal strength.
    pub fn signal_bits(&self) -> (bits: u64)
        ensures
            bits == self@.signal,
    {
        self.signal
    }

    /// Bit pattern of the battery level.
    pub fn battery_bits(&self) -> (bits: u64)
        ensures
            bits == self@.battery,
    {
        self.battery
    }

    /// The device's timestamp, which names an instant of the calendar.
    pub fn timestamp(&self) -> (secs: u64)
        ensures
            secs == self@.timestamp,
            valid_frame(self@),
    {
        proof {
            use_type_invariant(self);
        }
        self.timestamp
    }
}

/// Decodes one frame from the bytes of a request body.
pub fn decode(bytes: &[u8]) -> (outcome: Result<LocationFrame, DecodeError>)
    ensures
        match outcome {
            Ok(frame) => decoded(bytes@) == Ok::<FrameView, DecodeError>(frame@),
            Err(e) => decoded(bytes@) == Err::<FrameView, DecodeError>(e),
        },
{
    match read_words(bytes) {
        Ok(w) => LocationFrame::new(w.latitude, w.longitude, w.signal, w.battery, w.timestamp),
        Err(_) => Err(DecodeError::Malformed),
    }
}

} // verus!
