//! What holds of the decoder and of the table of locations, whatever the
//! bytes and whatever is inserted.

use vstd::prelude::*;
use crate::entry::{recorded, LocationEntry};
use crate::calendar::is_instant;
use crate::frame::{decoded, valid_frame, DecodeError, FrameView};
use crate::service::posted;
use crate::store::{after_insert, insertion, newest, next_id, row, RecordId, StoreError};
use crate::wire::{field, lemma_le_word_fits, FRAME_BYTES};

verus! {

/// A body that lacks a field, or ends within one, is malformed.
pub proof fn law_short_body_is_malformed(body: Seq<u8>)
    requires
        body.len() < FRAME_BYTES,
    ensures
        decoded(body) == Err::<FrameView, DecodeError>(DecodeError::Malformed),
{
}

/// A body whose fifth field names no instant of the calendar is refused
/// for its timestamp.
pub proof fn law_timestamp_out_of_range_is_refused(body: Seq<u8>)
    requires
        body.len() >= FRAME_BYTES,
        !is_instant(field(body, 4) as u64),
    ensures
        decoded(body) == Err::<FrameView, DecodeError>(DecodeError::InvalidTimestamp),
{
}

/// A body of forty bytes or more whose fifth field names an instant is a
/// frame, and each field of the frame is the number that the wire spells:
/// no bit of a reading is lost.
pub proof fn law_whole_body_is_admitted(body: Seq<u8>)
    requires
        body.len() >= FRAME_BYTES,
        is_instant(field(body, 4) as u64),
    ensures
        decoded(body) matches Ok(frame) && {
            &&& valid_frame(frame)
            &&& frame.latitude == field(body, 0)
            &&& frame.longitude == field(body, 1)
            &&& frame.signal == field(body, 2)
            &&& frame.battery == field(body, 3)
            &&& frame.timestamp == field(body, 4)
        },
{
    lemma_le_word_fits(body, 0);
    lemma_le_word_fits(body, 8);
    lemma_le_word_fits(body, 16);
    lemma_le_word_fits(body, 24);
    lemma_le_word_fits(body, 32);
}

/// A POST whose body is no frame is answered with an error and leaves the
/// table as it was.
pub proof fn law_refused_body_stores_nothing(
    before: Seq<LocationEntry>,
    body: Seq<u8>,
    received: i64,
    reply: Result<String, (u16, String)>,
    after: Seq<LocationEntry>,
)
    requires
        posted(before, body, received, reply, after),
        decoded(body) is Err,
    ensures
        reply is Err,
        after == before,
{
}

/// The latest row, read right after a frame was inserted, holds the
/// frame's four readings bit for bit, and its time of generation is the
/// frame's timestamp in seconds since the epoch.
pub proof fn law_latest_returns_inserted(
    before: Seq<LocationEntry>,
    frame: FrameView,
    received: i64,
    outcome: Result<RecordId, StoreError>,
    after: Seq<LocationEntry>,
)
    requires
        valid_frame(frame),
        insertion(before, frame, received, outcome, after),
        outcome is Ok,
    ensures
        newest(after) matches Some(entry) && {
            &&& entry.latitude == frame.latitude
            &&& entry.longitude == frame.longitude
            &&& entry.signal == frame.signal
            &&& entry.battery == frame.battery
            &&& entry.generated == frame.timestamp
            &&& entry.received == received
        },
{
}

/// Of two insertions made one after the other, the second returns the
/// greater identifier.
pub proof fn law_identifiers_increase(
    start: Seq<LocationEntry>,
    first: FrameView,
    first_received: i64,
    first_outcome: Result<RecordId, StoreError>,
    between: Seq<LocationEntry>,
    second: FrameView,
    second_received: i64,
    second_outcome: Result<RecordId, StoreError>,
    end: Seq<LocationEntry>,
)
    requires
        insertion(start, first, first_received, first_outcome, between),
        insertion(between, second, second_received, second_outcome, end),
        first_outcome is Ok,
        second_outcome is Ok,
    ensures
        first_outcome->Ok_0.0 < second_outcome->Ok_0.0,
{
}

/// An insertion that succeeds adds one row, files it under the identifier
/// that it returns, and leaves every earlier row under its identifier.
pub proof fn law_insertion_adds_one_row(
    before: Seq<LocationEntry>,
    frame: FrameView,
    received: i64,
    outcome: Result<RecordId, StoreError>,
    after: Seq<LocationEntry>,
)
    requires
        insertion(before, frame, received, outcome, after),
        outcome is Ok,
    ensures
        after.len() == before.len() + 1,
        outcome->Ok_0.0 == after.len(),
        row(after, outcome->Ok_0.0 as int) == recorded(frame, received),
        forall|id: int| 1 <= id <= before.len() ==> row(after, id) == row(before, id),
{
}

/// An insertion that fails leaves the table as it was.
pub proof fn law_failed_insertion_changes_nothing(
    before: Seq<LocationEntry>,
    frame: FrameView,
    received: i64,
    outcome: Result<RecordId, StoreError>,
    after: Seq<LocationEntry>,
)
    requires
        insertion(before, frame, received, outcome, after),
        outcome is Err,
    ensures
        after == before,
{
}

/// The table after the frames of `batch`, each with its time of receipt,
/// were inserted in order.
pub open spec fn after_batch(
    table: Seq<LocationEntry>,
    batch: Seq<(FrameView, i64)>,
) -> Seq<LocationEntry>
    decreases batch.len(),
{
    if batch.len() == 0 {
        table
    } else {
        after_insert(after_batch(table, batch.drop_last()), batch.last().0, batch.last().1)
    }
}

/// Insertions made in any one order add exactly one row each: the table
/// grows by the number of frames, the frame inserted as the `k`-th is filed
/// under the `k`-th new identifier, and the rows that were there stay.
pub proof fn law_batch_adds_each_once(table: Seq<LocationEntry>, batch: Seq<(FrameView, i64)>)
    ensures
        after_batch(table, batch).len() == table.len() + batch.len(),
        forall|k: int|
            0 <= k < batch.len() ==> #[trigger] row(
                after_batch(table, batch),
                next_id(table) + k,
            ) == recorded(batch[k].0, batch[k].1),
        forall|id: int|
            1 <= id <= table.len() ==> #[trigger] row(after_batch(table, batch), id) == row(
                table,
                id,
            ),
    decreases batch.len(),
{
    if batch.len() > 0 {
        law_batch_adds_each_once(table, batch.drop_last());
        let prior = after_batch(table, batch.drop_last());
        let all = after_batch(table, batch);
        assert forall|k: int| 0 <= k < batch.len() implies #[trigger] row(all, next_id(table) + k)
            == recorded(batch[k].0, batch[k].1) by {
            if k < batch.len() - 1 {
                assert(row(prior, next_id(table) + k) == recorded(
                    batch.drop_last()[k].0,
                    batch.drop_last()[k].1,
                ));
            }
        }
        assert forall|id: int| 1 <= id <= table.len() implies #[trigger] row(all, id) == row(
            table,
            id,
        ) by {
            assert(row(prior, id) == row(table, id));
        }
    }
}

} // verus!
