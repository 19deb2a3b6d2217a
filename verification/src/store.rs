//! The table of locations: append-only, each row keyed by the identifier
//! that the table gave it. Identifiers are 1, 2, 3 and so on, in the order
//! of insertion.

use vstd::prelude::*;
use crate::calendar::wall_clock;
use crate::entry::{recorded, LocationEntry};
use crate::frame::{FrameView, LocationFrame};

verus! {

/// The identifier of a persisted entry.
#[derive(Clone, Copy, Debug, PartialEq, Eq, PartialOrd, Ord, Hash, Structural)]
pub struct RecordId(pub i64);

/// Why the table could not serve a request.
#[derive(Debug, PartialEq, Eq)]
pub enum StoreError {
    /// The table holds no row to return.
    NotFound,
    /// The table could not carry the operation out; the text says why.
    Io(String),
}

/// The largest identifier that the table can give.
pub const LAST_ID: i64 = 9_223_372_036_854_775_807;

/// What the table says when every identifier has been given.
pub open spec fn exhausted_cause() -> Seq<char> {
    "identifiers exhausted"@
}

/// Whether the table can take one more row.
pub open spec fn has_room(table: Seq<LocationEntry>) -> bool {
    table.len() < LAST_ID
}

/// The identifier that the next insertion into `table` returns.
pub open spec fn next_id(table: Seq<LocationEntry>) -> int {
    table.len() as int + 1
}

/// The row of `table` with the identifier `id`.
pub open spec fn row(table: Seq<LocationEntry>, id: int) -> LocationEntry
    recommends
        1 <= id <= table.len(),
{
    table[id - 1]
}

/// The table after `frame`, received at `received`, was inserted.
pub open spec fn after_insert(
    table: Seq<LocationEntry>,
    frame: FrameView,
    received: i64,
) -> Seq<LocationEntry> {
    table.push(recorded(frame, received))
}

/// The row with the highest identifier, if the table has a row.
pub open spec fn newest(table: Seq<LocationEntry>) -> Option<LocationEntry> {
    if table.len() == 0 {
        None
    } else {
        Some(row(table, table.len() as int))
    }
}

/// What an insertion of `frame`, received at `received`, returns and
/// leaves behind.
pub open spec fn insertion(
    before: Seq<LocationEntry>,
    frame: FrameView,
    received: i64,
    outcome: Result<RecordId, StoreError>,
    after: Seq<LocationEntry>,
) -> bool {
    if has_room(before) {
        &&& outcome == Ok::<RecordId, StoreError>(RecordId(next_id(before) as i64))
        &&& after == after_insert(before, frame, received)
    } else {
        &&& outcome matches Err(StoreError::Io(cause))
        &&& cause@ == exhausted_cause()
        &&& after == before
    }
}

/// A table of location entries held in memory.
pub struct LocationStore {
    rows: Vec<LocationEntry>,
}

impl View for LocationStore {
    type V = Seq<LocationEntry>;

    closed spec fn view(&self) -> Seq<LocationEntry> {
        self.rows@
    }
}

impl LocationStore {
    /// A table without rows.
    pub fn new() -> (store: LocationStore)
        ensures
            store@ == Seq::<LocationEntry>::empty(),
    {
        LocationStore { rows: Vec::new() }
    }

    /// The number of rows.
    pub fn len(&self) -> (count: usize)
        ensures
            count == self@.len(),
    {
        self.rows.len()
    }

    /// Inserts `frame` as received at `received` and returns the new row's
    /// identifier. A table that has given its last identifier refuses and
    /// stays as it was.
    pub fn insert_at(
        &mut self,
        frame: LocationFrame,
        received: i64,
    ) -> (outcome: Result<RecordId, StoreError>)
        ensures
            insertion(old(self)@, frame@, received, outcome, final(self)@),
    {
        let count: usize = self.rows.len();
        if count as u64 >= LAST_ID as u64 {
            return Err(StoreError::Io("identifiers exhausted".to_owned()));
        }
        self.rows.push(LocationEntry::record(&frame, received));
        let id: i64 = count as i64 + 1;
        Ok(RecordId(id))
    }

    /// Inserts `frame` as received now: the clock is read once, before the
    /// table is touched.
    pub fn insert(&mut self, frame: LocationFrame) -> (outcome: Result<RecordId, StoreError>)
        ensures
            exists|received: i64| insertion(old(self)@, frame@, received, outcome, final(self)@),
    {
        let received: i64 = wall_clock();
        self.insert_at(frame, received)
    }

    /// The row with the highest identifier; `NotFound` when the table has
    /// no row.
    pub fn latest(&self) -> (outcome: Result<LocationEntry, StoreError>)
        ensures
            outcome == match newest(self@) {
                Some(entry) => Ok::<LocationEntry, StoreError>(entry),
                None => Err::<LocationEntry, StoreError>(StoreError::NotFound),
            },
    {
        let count: usize = self.rows.len();
        if count == 0 {
            Err(StoreError::NotFound)
        } else {
            Ok(self.rows[count - 1])
        }
    }
}

} // verus!
