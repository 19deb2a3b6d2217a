//! Verified core of a location-telemetry service: decoding of inbound
//! frames, the append-only table of entries, and the replies that the
//! two endpoints give.

pub mod calendar;
pub mod wire;
pub mod frame;
pub mod entry;
pub mod store;
pub mod laws;
pub mod text;
pub mod service;

pub use entry::LocationEntry;
pub use frame::{decode, DecodeError, LocationFrame};
pub use store::{LocationStore, RecordId, StoreError};
