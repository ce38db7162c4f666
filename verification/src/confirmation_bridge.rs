//! The confirmation bridge's boundary shapes: bounded, fixed error
//! messages and the kinds of event it emits.
use crate::ids::{is_v4, random_id_value};
use vstd::prelude::*;

verus! {

pub const CONFIRMATION_EVENT_NAME: &'static str = "hank://confirmation";

pub const CONFIRMATION_SCHEMA_VERSION: u64 = 1;

/// A confirmation error as the desktop shell receives it.
#[derive(Debug, Clone)]
pub enum ConfirmationBridgeError {
    Ledger(String),
    EventInvalid,
    EmitFailed,
}

impl ConfirmationBridgeError {
    /// The human-readable description of the error: the ledger's own
    /// bounded message, or a fixed one.
    pub fn message(&self) -> (r: String)
        ensures
            r@ == (match self {
                ConfirmationBridgeError::Ledger(m) => m@,
                ConfirmationBridgeError::EventInvalid => "confirmation event is invalid"@,
                ConfirmationBridgeError::EmitFailed => "confirmation event could not be emitted"@,
            }),
    {
        match self {
            ConfirmationBridgeError::Ledger(m) => m.clone(),
            ConfirmationBridgeError::EventInvalid => "confirmation event is invalid".to_string(),
            ConfirmationBridgeError::EmitFailed => "confirmation event could not be emitted".to_string(),
        }
    }
}

#[derive(Debug, Clone, Copy, PartialEq, Eq, Structural)]
pub enum ConfirmationEventKind {
    RequestSubmitted,
}

/// The sequence numbers of submission events: handed out one after
/// another from zero, wrapping past the largest.
pub struct ConfirmationSequence {
    next: u64,
}

impl ConfirmationSequence {
    /// The number the next event takes.
    pub closed spec fn upcoming(&self) -> u64 {
        self.next
    }

    pub fn new() -> (r: Self)
        ensures
            r.upcoming() == 0,
    {
        ConfirmationSequence { next: 0 }
    }

    /// Hands out the next number.
    pub fn next_event_sequence(&mut self) -> (r: u64)
        ensures
            r == old(self).upcoming(),
            final(self).upcoming() == (if r == u64::MAX { 0 } else { (r + 1) as u64 }),
    {
        let r = self.next;
        self.next = self.next.wrapping_add(1);
        r
    }
}

/// A submission event: the current schema, a fresh event id, the request
/// it announces and its sequence number.
#[derive(Debug, Clone, Copy, PartialEq, Eq, Structural)]
pub struct ConfirmationEvent {
    pub schema_version: u64,
    pub event_id: u128,
    pub request_id: u128,
    pub sequence: u64,
    pub kind: ConfirmationEventKind,
}

impl ConfirmationEvent {
    /// The event announcing a submitted request. Its id is drawn at random,
/// with the version-4 shape.
    pub fn request_submitted(request_id: u128, sequence: u64) -> (r: Self)
        ensures
            r.schema_version == CONFIRMATION_SCHEMA_VERSION,
            r.request_id == request_id,
            r.sequence == sequence,
            r.kind == ConfirmationEventKind::RequestSubmitted,
            is_v4(r.event_id),
    {
        ConfirmationEvent {
            schema_version: CONFIRMATION_SCHEMA_VERSION,
            event_id: random_id_value(),
            request_id,
            sequence,
            kind: ConfirmationEventKind::RequestSubmitted,
        }
    }
}

} // verus!
