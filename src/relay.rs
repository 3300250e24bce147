//! The decisions of the ingestion path: which events are admitted, what an
//! insert's outcome means for the event, and what each streaming session is
//! sent next.
//!
//! Only events that the store accepted are distributed, so every event a
//! subscriber sees carries the identity the store gave it.
use vstd::prelude::*;
use crate::bus::Bus;
use crate::shot::ShotEvent;

verus! {

/// Why an incoming event is refused.
#[derive(Clone, Copy, Debug, PartialEq, Eq, Structural)]
pub enum IngestError {
    /// The event already carries an identity; only the store assigns one.
    IdentityPresent,
}

/// How an insert into the store failed.
#[derive(Clone, Copy, Debug, PartialEq, Eq, Structural)]
pub enum InsertFailure {
    /// The store refused the row (a constraint, a type, a statement error).
    Rejected,
    /// The connection to the store is gone.
    ConnectionLost,
}

/// What became of an event after its insert.
#[derive(Clone, Copy, Debug, PartialEq, Eq, Structural)]
pub enum Admission {
    /// Stored and handed to the bus under this sequence number.
    Published(u64),
    /// Stored, but the bus has no sequence number left for it.
    BusExhausted,
    /// The store refused it; it is dropped and the listener goes on.
    Dropped,
    /// The connection is lost; the owning process should stop.
    Fatal,
}

/// Admits an event read from the ingestion socket: producers send events
/// that have no identity yet.
pub fn accept_event(e: ShotEvent) -> (r: Result<ShotEvent, IngestError>)
    ensures
        e.id is None ==> r == Ok::<ShotEvent, IngestError>(e),
        e.id is Some ==> r == Err::<ShotEvent, IngestError>(IngestError::IdentityPresent),
{
    if e.id.is_some() {
        Err(IngestError::IdentityPresent)
    } else {
        Ok(e)
    }
}

/// Settles an admitted event once its insert is done: an event that the
/// store accepted takes the identity it returned and is published on `bus`;
/// a refused one is dropped; a lost connection is fatal. The bus changes
/// only by that one publish.
pub fn settle_insert(bus: &mut Bus, e: ShotEvent, outcome: Result<u128, InsertFailure>) -> (r:
    Admission)
    requires
        old(bus)@.wf(),
        e.id is None,
    ensures
        final(bus)@.wf(),
        match outcome {
            Ok(id) => {
                let (after, seq) = old(bus)@.published(e.spec_with_identity(id));
                &&& final(bus)@ == after
                &&& r == match seq {
                    Some(s) => Admission::Published(s),
                    None => Admission::BusExhausted,
                }
            },
            Err(InsertFailure::Rejected) => final(bus)@ == old(bus)@ && r == Admission::Dropped,
            Err(InsertFailure::ConnectionLost) => final(bus)@ == old(bus)@ && r == Admission::Fatal,
        },
{
    match outcome {
        Ok(id) => match bus.publish(e.with_identity(id)) {
            Some(s) => Admission::Published(s),
            None => Admission::BusExhausted,
        },
        Err(InsertFailure::Rejected) => Admission::Dropped,
        Err(InsertFailure::ConnectionLost) => Admission::Fatal,
    }
}

/// Takes the oldest event waiting for session `h`, to be written to the
/// peer; `None` when nothing waits or `h` is not attached.
pub fn next_event(bus: &mut Bus, h: u64) -> (r: Option<ShotEvent>)
    requires
        old(bus)@.wf(),
    ensures
        final(bus)@.wf(),
        final(bus)@ == old(bus)@.received(h).0,
        match old(bus)@.received(h).1 {
            Some(d) => r == Some(d.event),
            None => r is None,
        },
{
    match bus.receive(h) {
        Some(d) => Some(d.event),
        None => None,
    }
}

} // verus!
