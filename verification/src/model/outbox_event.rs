//! Events written to the outbox for later handling.

use vstd::prelude::*;
use crate::model::ids::OutboxEventId;
use crate::model::Timestamp;
use crate::text::str_equal;

verus! {

/// The kinds of outbox events.
#[derive(Debug, Clone, Copy, PartialEq, Eq, Structural)]
pub enum OutboxEventType {
    RatesPersisted,
}

/// The stored name of each event type.
pub open spec fn outbox_event_type_name(t: OutboxEventType) -> Seq<char> {
    match t {
        OutboxEventType::RatesPersisted => "RatesPersisted"@,
    }
}

/// The event type with a stored name, if there is one.
pub open spec fn outbox_event_type_from_name(s: Seq<char>) -> Option<OutboxEventType> {
    if s == "RatesPersisted"@ {
        Some(OutboxEventType::RatesPersisted)
    } else {
        None
    }
}

impl OutboxEventType {
    /// The event type whose stored name is `s`.
    pub fn opt_from_str(s: &str) -> (r: Option<OutboxEventType>)
        ensures
            r == outbox_event_type_from_name(s@),
    {
        if str_equal(s, "RatesPersisted") {
            Some(OutboxEventType::RatesPersisted)
        } else {
            None
        }
    }

    /// The stored name of the event type.
    pub fn to_text(&self) -> (s: String)
        ensures
            s@ == outbox_event_type_name(*self),
    {
        match self {
            OutboxEventType::RatesPersisted => "RatesPersisted".to_owned(),
        }
    }
}

/// Reading back the stored name of an event type gives that event type.
pub proof fn lemma_outbox_event_type_round_trip(t: OutboxEventType)
    ensures
        outbox_event_type_from_name(outbox_event_type_name(t)) == Some(t),
{
}

/// An event in the outbox.
pub struct OutboxEvent {
    pub id: OutboxEventId,
    pub event_type: OutboxEventType,
    pub created_at: Timestamp,
    pub handled_at: Option<Timestamp>,
}

} // verus!
