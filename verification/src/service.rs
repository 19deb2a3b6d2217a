//! The two endpoints over a table of locations: what each replies, and
//! with which status an error leaves the service.

use vstd::prelude::*;
use crate::entry::LocationEntry;
use crate::frame::{decode, decoded, DecodeError};
use crate::store::{
    after_insert, exhausted_cause, has_room, insertion, newest, next_id, LocationStore, RecordId,
    StoreError,
};
use crate::text::{decimal, to_decimal};

verus! {

/// Status of a reply to a body that is no frame.
pub const BAD_REQUEST: u16 = 400;

/// Status of a reply when the table has nothing to return.
pub const NOT_FOUND: u16 = 404;

/// Status of a reply when the table failed.
pub const INTERNAL_SERVER_ERROR: u16 = 500;

/// What the service says of a body that is no frame.
pub open spec fn decode_cause(e: DecodeError) -> Seq<char> {
    match e {
        DecodeError::Malformed => "Malformed frame"@,
        DecodeError::InvalidTimestamp => "Failed to decode frame"@,
    }
}

/// What the service says when the table has no row.
pub open spec fn not_found_cause() -> Seq<char> {
    "no rows returned by a query that expected to return at least one row"@
}

/// The status that an error of the table leaves with.
pub open spec fn store_status(e: StoreError) -> u16 {
    match e {
        StoreError::NotFound => NOT_FOUND,
        StoreError::Io(_) => INTERNAL_SERVER_ERROR,
    }
}

/// What the service says of an error of the table.
pub open spec fn store_cause(e: StoreError) -> Seq<char> {
    match e {
        StoreError::NotFound => not_found_cause(),
        StoreError::Io(cause) => cause@,
    }
}

/// The reply to a body that is no frame: status 400 and the reason.
pub fn decode_failure(e: DecodeError) -> (reply: (u16, String))
    ensures
        reply.0 == BAD_REQUEST,
        reply.1@ == decode_cause(e),
{
    match e {
        DecodeError::Malformed => (BAD_REQUEST, "Malformed frame".to_owned()),
        DecodeError::InvalidTimestamp => (BAD_REQUEST, "Failed to decode frame".to_owned()),
    }
}

/// The reply to an error of the table: status 404 when it has no row,
/// status 500 with the cause when it failed.
pub fn store_failure(e: StoreError) -> (reply: (u16, String))
    ensures
        reply.0 == store_status(e),
        reply.1@ == store_cause(e),
{
    match e {
        StoreError::NotFound => (
            NOT_FOUND,
            "no rows returned by a query that expected to return at least one row".to_owned(),
        ),
        StoreError::Io(cause) => (INTERNAL_SERVER_ERROR, cause),
    }
}

/// The body of the reply to an insertion: the new row's identifier in
/// decimal.
pub fn inserted_body(id: RecordId) -> (body: String)
    ensures
        body@ == decimal(id.0 as int),
{
    to_decimal(id.0)
}

/// What a POST of `body`, received at `received`, replies and leaves
/// behind.
pub open spec fn posted(
    before: Seq<LocationEntry>,
    body: Seq<u8>,
    received: i64,
    reply: Result<String, (u16, String)>,
    after: Seq<LocationEntry>,
) -> bool {
    match decoded(body) {
        Err(e) => {
            &&& reply matches Err(refusal)
            &&& refusal.0 == BAD_REQUEST
            &&& refusal.1@ == decode_cause(e)
            &&& after == before
        },
        Ok(frame) => if has_room(before) {
            &&& reply matches Ok(text)
            &&& text@ == decimal(next_id(before))
            &&& after == after_insert(before, frame, received)
        } else {
            &&& reply matches Err(refusal)
            &&& refusal.0 == INTERNAL_SERVER_ERROR
            &&& refusal.1@ == exhausted_cause()
            &&& after == before
        },
    }
}

fn insertion_reply(outcome: Result<RecordId, StoreError>) -> (reply: Result<String, (u16, String)>)
    ensures
        match outcome {
            Ok(id) => reply matches Ok(text) && text@ == decimal(id.0 as int),
            Err(e) => {
                &&& reply matches Err(refusal)
                &&& refusal.0 == store_status(e)
                &&& refusal.1@ == store_cause(e)
            },
        },
{
    match outcome {
        Ok(id) => Ok(inserted_body(id)),
        Err(e) => Err(store_failure(e)),
    }
}

/// Handles a POST whose body arrived at `received`: decodes the frame,
/// inserts it, and replies with the new identifier. A body that is no
/// frame leaves the table untouched.
pub fn add_location_at(
    store: &mut LocationStore,
    body: &[u8],
    received: i64,
) -> (reply: Result<String, (u16, String)>)
    ensures
        posted(old(store)@, body@, received, reply, final(store)@),
{
    match decode(body) {
        Err(e) => Err(decode_failure(e)),
        Ok(frame) => insertion_reply(store.insert_at(frame, received)),
    }
}

/// Handles a POST: as `add_location_at`, with the time of receipt read
/// from the clock.
pub fn add_location(
    store: &mut LocationStore,
    body: &[u8],
) -> (reply: Result<String, (u16, String)>)
    ensures
        exists|received: i64| posted(old(store)@, body@, received, reply, final(store)@),
{
    match decode(body) {
        Err(e) => {
            let reply = Err(decode_failure(e));
            assert(posted(old(store)@, body@, 0, reply, store@));
            reply
        },
        Ok(frame) => {
            let outcome = store.insert(frame);
            let reply = insertion_reply(outcome);
            proof {
                let received = choose|received: i64|
                    insertion(old(store)@, frame@, received, outcome, store@);
                assert(posted(old(store)@, body@, received, reply, store@));
            }
            reply
        },
    }
}

/// Handles a GET: the latest entry, or status 404 when the table has no
/// row.
pub fn get_location(store: &LocationStore) -> (reply: Result<LocationEntry, (u16, String)>)
    ensures
        match newest(store@) {
            Some(entry) => reply == Ok::<LocationEntry, (u16, String)>(entry),
            None => {
                &&& reply matches Err(refusal)
                &&& refusal.0 == NOT_FOUND
                &&& refusal.1@ == not_found_cause()
            },
        },
{
    match store.latest() {
        Ok(entry) => Ok(entry),
        Err(e) => Err(store_failure(e)),
    }
}

} // verus!
