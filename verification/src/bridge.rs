//! The bridge from the native callback to the events of the consumer: it decodes the raw records
//! of one batch, in the order in which the service delivered them.

use vstd::prelude::*;
use vstd::string::StringSliceAdditionalSpecFns;
use vstd::utf8::{decode_utf8, encode_utf8_decode_utf8, valid_utf8};
use crate::event::{Error, Event, EventView};
use crate::flags::{recognized, translate, translate_flags, StreamFlags};

verus! {

/// The error with which std refuses bytes that are not UTF-8. Nothing is known of its content.
#[verifier::external_type_specification]
#[verifier::external_body]
pub struct ExUtf8Error(core::str::Utf8Error);

/// `core::str::from_utf8` turns bytes into text without copying them. It succeeds on the byte
/// sequences that are valid UTF-8 and on no others, and the text that it gives consists of
/// exactly the bytes that it was given.
pub assume_specification[ core::str::from_utf8 ](v: &[u8]) -> (res: Result<
    &str,
    core::str::Utf8Error,
>)
    ensures
        res is Ok <==> valid_utf8(v@),
        res matches Ok(s) ==> s.spec_bytes() == v@,
;

/// One raw change record, as the service delivers it.
#[derive(Debug, PartialEq, Eq)]
pub struct RawRecord {
    /// The bytes of the path, without the terminating zero.
    pub path: Vec<u8>,
    /// The raw flags.
    pub flags: u32,
    /// The id of the event. It is carried along and decides nothing.
    pub id: u64,
}

/// What a batch of raw records gives.
#[derive(Debug, PartialEq, Eq)]
pub struct Batch {
    /// The events to publish, in this order.
    pub events: Vec<Event>,
    /// Why decoding ended before the end of the batch, if it did.
    pub failure: Option<Error>,
}

/// What a record with the path bytes `path` and the raw flags `flags` stands for: an event with
/// the decoded path and the translated flags, unless the path is not UTF-8 or, that being in
/// order, the flags hold an unknown bit.
pub open spec fn decoded(path: Seq<u8>, flags: u32) -> Result<EventView, Error> {
    if !valid_utf8(path) {
        Err(Error::InvalidPath)
    } else if !recognized(flags) {
        Err(Error::UnknownFlags(flags))
    } else {
        Ok(EventView { op: Ok(translate(flags)), path: Some(decode_utf8(path)) })
    }
}

/// Decodes one raw record.
pub fn decode_record(record: &RawRecord) -> (r: Result<Event, Error>)
    ensures
        match r {
            Ok(event) => decoded(record.path@, record.flags) == Ok::<EventView, Error>(event@),
            Err(e) => decoded(record.path@, record.flags) == Err::<EventView, Error>(e),
        },
{
    let text = match core::str::from_utf8(record.path.as_slice()) {
        Ok(text) => text,
        Err(_) => {
            return Err(Error::InvalidPath);
        },
    };
    let flags = match StreamFlags::from_bits(record.flags) {
        Some(flags) => flags,
        None => {
            return Err(Error::UnknownFlags(record.flags));
        },
    };
    proof {
        encode_utf8_decode_utf8(text@);
    }
    Ok(Event { op: Ok(translate_flags(flags)), path: Some(text.to_owned()) })
}

/// Decodes a batch of raw records, in their order, up to the first that cannot be decoded: the
/// events of the records before it are to be published, and `failure` says what is wrong with
/// it. Where every record can be decoded, there is one event for each and no failure.
pub fn callback(records: &[RawRecord]) -> (batch: Batch)
    ensures
        batch.events@.len() <= records@.len(),
        forall|i: int|
            0 <= i < batch.events@.len() ==> decoded(
                #[trigger] records@[i].path@,
                records@[i].flags,
            ) == Ok::<EventView, Error>(batch.events@[i]@),
        batch.failure is None ==> batch.events@.len() == records@.len(),
        batch.failure matches Some(e) ==> batch.events@.len() < records@.len() && decoded(
            records@[batch.events@.len() as int].path@,
            records@[batch.events@.len() as int].flags,
        ) == Err::<EventView, Error>(e),
{
    let mut events: Vec<Event> = Vec::new();
    let mut p: usize = 0;
    while p < records.len()
        invariant
            p <= records@.len(),
            events@.len() == p,
            forall|i: int|
                0 <= i < p ==> decoded(#[trigger] records@[i].path@, records@[i].flags) == Ok::<
                    EventView,
                    Error,
                >(events@[i]@),
        decreases records@.len() - p,
    {
        match decode_record(&records[p]) {
            Ok(event) => {
                events.push(event);
            },
            Err(e) => {
                return Batch { events, failure: Some(e) };
            },
        }
        p += 1;
    }
    Batch { events, failure: None }
}

} // verus!
