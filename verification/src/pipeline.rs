//! The path of one payload: from the broker through the decoder into
//! storage, and what became of it.

use crate::decode::{decode_reading, decoded, DecodeError, DecodeErrorView};
use crate::operations::{
    insert_electricity_meter_message, law_first_reading_wins, law_recording_twice_stores_once,
    outcome_view, recorded, InsertError, InsertErrorView,
};
use crate::store::{Capacity, Store, Tables};
use crate::timestamp::Timestamp;
use vstd::prelude::*;

verus! {

/// What became of a payload. Nothing of it stops the session: a payload
/// that is not stored is dropped.
#[derive(Clone, Debug, PartialEq)]
pub enum Delivery {
    /// The reading was stored.
    Inserted,
    /// A reading with this timestamp was stored before; nothing was
    /// written.
    Duplicate,
    /// The payload is not a reading.
    DecodeFailed(DecodeError),
    /// No connection to storage was to be had; the text is the pool's
    /// message.
    PoolExhausted(String),
    /// Storage failed while the reading was written.
    PersistFailed(InsertError),
}

/// The content of a [`Delivery`].
pub enum DeliveryView {
    Inserted,
    Duplicate,
    DecodeFailed(DecodeErrorView),
    PoolExhausted(Seq<char>),
    PersistFailed(InsertErrorView),
}

impl View for Delivery {
    type V = DeliveryView;

    open spec fn view(&self) -> DeliveryView {
        match self {
            Delivery::Inserted => DeliveryView::Inserted,
            Delivery::Duplicate => DeliveryView::Duplicate,
            Delivery::DecodeFailed(error) => DeliveryView::DecodeFailed(error@),
            Delivery::PoolExhausted(message) => DeliveryView::PoolExhausted(message@),
            Delivery::PersistFailed(error) => DeliveryView::PersistFailed(error@),
        }
    }
}

/// The kinds of outcome that a payload can have.
#[derive(Clone, Copy, Debug, PartialEq, Eq, Structural)]
pub enum Outcome {
    Inserted,
    Duplicate,
    DecodeFailed,
    PoolExhausted,
    PersistFailed,
}

impl DeliveryView {
    /// The kind of the outcome.
    pub open spec fn outcome(self) -> Outcome {
        match self {
            DeliveryView::Inserted => Outcome::Inserted,
            DeliveryView::Duplicate => Outcome::Duplicate,
            DeliveryView::DecodeFailed(_) => Outcome::DecodeFailed,
            DeliveryView::PoolExhausted(_) => Outcome::PoolExhausted,
            DeliveryView::PersistFailed(_) => Outcome::PersistFailed,
        }
    }
}

impl Delivery {
    /// The kind of the outcome.
    pub fn outcome(&self) -> (outcome: Outcome)
        ensures
            outcome == self@.outcome(),
    {
        match self {
            Delivery::Inserted => Outcome::Inserted,
            Delivery::Duplicate => Outcome::Duplicate,
            Delivery::DecodeFailed(_) => Outcome::DecodeFailed,
            Delivery::PoolExhausted(_) => Outcome::PoolExhausted,
            Delivery::PersistFailed(_) => Outcome::PersistFailed,
        }
    }

    /// What the result of the write transaction means for the payload.
    pub fn of_insert(result: Result<bool, InsertError>) -> (delivery: Delivery)
        ensures
            delivery@ == persisted(outcome_view(result)),
    {
        match result {
            Ok(true) => Delivery::Inserted,
            Ok(false) => Delivery::Duplicate,
            Err(error) => Delivery::PersistFailed(error),
        }
    }
}

/// What the result of the write transaction means for the payload.
pub open spec fn persisted(result: Result<bool, InsertErrorView>) -> DeliveryView {
    match result {
        Ok(true) => DeliveryView::Inserted,
        Ok(false) => DeliveryView::Duplicate,
        Err(error) => DeliveryView::PersistFailed(error),
    }
}

/// What a payload does to the tables, and what becomes of it: a payload
/// that does not decode leaves the tables alone, a reading is recorded.
pub open spec fn delivered(tables: Tables, capacity: Capacity, payload: Seq<char>) -> (Tables, DeliveryView) {
    match decoded(payload) {
        Err(error) => (tables, DeliveryView::DecodeFailed(error)),
        Ok(reading) => (
            recorded(tables, capacity, reading).0,
            persisted(recorded(tables, capacity, reading).1),
        ),
    }
}

/// Decodes a payload and records the reading in the store.
pub fn process_payload(store: &mut Store, payload: &str) -> (delivery: Delivery)
    requires
        old(store).wf(),
    ensures
        final(store).wf(),
        final(store).capacity() == old(store).capacity(),
        (final(store)@, delivery@) == delivered(old(store)@, old(store).capacity(), payload@),
        old(store)@.whole() ==> final(store)@.whole(),
{
    match decode_reading(payload) {
        Err(error) => Delivery::DecodeFailed(error),
        Ok(message) => Delivery::of_insert(insert_electricity_meter_message(store, &message)),
    }
}

/// A payload that does not decode is isolated: it leaves the tables
/// untouched, and the payload that comes after it fares as if the bad one
/// had never arrived.
pub proof fn law_decode_failure_is_isolated(
    tables: Tables,
    capacity: Capacity,
    bad: Seq<char>,
    next: Seq<char>,
)
    requires
        decoded(bad) is Err,
    ensures
        delivered(tables, capacity, bad) == (tables, DeliveryView::DecodeFailed(decoded(bad)->Err_0)),
        delivered(delivered(tables, capacity, bad).0, capacity, next) == delivered(tables, capacity, next),
{
}

/// Redelivery is absorbed: a payload that was stored, or found to be a
/// duplicate, is a duplicate when the broker delivers it again, and the
/// tables stay as the first delivery left them.
pub proof fn law_redelivery_is_absorbed(tables: Tables, capacity: Capacity, payload: Seq<char>)
    ensures
        ({
            let (after, first) = delivered(tables, capacity, payload);
            first == DeliveryView::Inserted || first == DeliveryView::Duplicate ==> delivered(
                after,
                capacity,
                payload,
            ) == (after, DeliveryView::Duplicate)
        }),
{
    if decoded(payload) is Ok {
        law_recording_twice_stores_once(tables, capacity, decoded(payload)->Ok_0);
    }
}

/// Of two payloads with the same timestamp, in whichever order they
/// arrive, the first to be stored stays and the other is a duplicate: one
/// record set is stored for the two.
pub proof fn law_same_timestamp_stores_once(
    tables: Tables,
    capacity: Capacity,
    first: Seq<char>,
    second: Seq<char>,
)
    requires
        decoded(first) matches Ok(one) && decoded(second) matches Ok(other) && Timestamp::of_text(
            one.timestamp,
        ) == Timestamp::of_text(other.timestamp),
    ensures
        ({
            let (after, outcome) = delivered(tables, capacity, first);
            outcome == DeliveryView::Inserted || outcome == DeliveryView::Duplicate ==> delivered(
                after,
                capacity,
                second,
            ) == (after, DeliveryView::Duplicate)
        }),
{
    law_first_reading_wins(tables, capacity, decoded(first)->Ok_0, decoded(second)->Ok_0);
}

} // verus!
