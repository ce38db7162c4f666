//! Transport-neutral framing and session lifecycle for tool-protocol
//! traffic.
use vstd::prelude::*;

verus! {

/// The largest frame a transport accepts.
pub const MAX_FRAME: usize = 64;

#[derive(Debug, Clone, Copy, PartialEq, Eq, Structural)]
pub enum ProtocolVersion {
    V1,
    Unknown,
}

#[derive(Debug, Clone, Copy, PartialEq, Eq, Structural)]
pub enum FrameKind {
    Request,
    Cancel,
    Close,
}

/// A set of capability bits.
#[derive(Debug, Clone, Copy, PartialEq, Eq, Structural)]
pub struct CapabilitySet(u8);

impl CapabilitySet {
    /// The bits of the set.
    pub closed spec fn bits(&self) -> u8 {
        self.0
    }

    /// The capability to read.
    pub fn read() -> (r: CapabilitySet)
        ensures
            r.bits() == 1,
    {
        CapabilitySet(1)
    }

    /// The capability to cancel.
    pub fn cancel() -> (r: CapabilitySet)
        ensures
            r.bits() == 2,
    {
        CapabilitySet(2)
    }

    /// Every bit of `other` is set in `self`.
    pub fn contains(self, other: Self) -> (r: bool)
        ensures
            r == (self.bits() & other.bits() == other.bits()),
    {
        self.0 & other.0 == other.0
    }
}

impl core::ops::BitOr for CapabilitySet {
    type Output = Self;

    fn bitor(self, rhs: Self) -> (r: Self) {
        CapabilitySet(self.0 | rhs.0)
    }
}

impl vstd::std_specs::ops::BitOrSpecImpl for CapabilitySet {
    open spec fn obeys_bitor_spec() -> bool {
        true
    }

    open spec fn bitor_req(self, rhs: Self) -> bool {
        true
    }

    closed spec fn bitor_spec(self, rhs: Self) -> Self {
        CapabilitySet(self.0 | rhs.0)
    }
}

/// The union of two sets holds exactly the bits of either.
pub proof fn lemma_union_bits(a: CapabilitySet, b: CapabilitySet)
    ensures
        vstd::std_specs::ops::BitOrSpec::bitor_spec(a, b).bits() == a.bits() | b.bits(),
{
}

#[derive(Debug, Clone, Copy, PartialEq, Eq, Structural)]
pub enum TransportError {
    UnsupportedVersion,
    FrameTooLarge,
    InvalidCorrelation,
    Backpressure,
    ReconnectDenied,
}

#[derive(Debug, Clone, PartialEq, Eq, Structural)]
pub struct Envelope {
    pub version: ProtocolVersion,
    pub correlation_id: u64,
    pub kind: FrameKind,
    pub size: usize,
    caps: CapabilitySet,
}

impl Envelope {
    pub closed spec fn caps_of(&self) -> CapabilitySet {
        self.caps
    }

    pub closed spec fn version_of(&self) -> ProtocolVersion {
        self.version
    }

    pub closed spec fn id_of(&self) -> u64 {
        self.correlation_id
    }

    pub closed spec fn kind_of(&self) -> FrameKind {
        self.kind
    }

    pub closed spec fn size_of(&self) -> usize {
        self.size
    }

    /// An envelope; correlation zero is refused.
    pub fn new(v: ProtocolVersion, id: u64, k: FrameKind, size: usize, caps: CapabilitySet) -> (r:
        Result<Self, TransportError>)
        ensures
            r is Err <==> id == 0,
            r matches Err(e) ==> e == TransportError::InvalidCorrelation,
            r matches Ok(env) ==> env.version_of() == v && env.id_of() == id && env.kind_of() == k
                && env.size_of() == size && env.caps_of() == caps,
    {
        if id == 0 {
            return Err(TransportError::InvalidCorrelation);
        }
        Ok(Envelope { version: v, correlation_id: id, kind: k, size, caps })
    }

    pub fn correlation_id(&self) -> (r: u64)
        ensures
            r == self.id_of(),
    {
        self.correlation_id
    }

    pub fn capabilities(&self) -> (r: CapabilitySet)
        ensures
            r == self.caps_of(),
    {
        self.caps
    }
}

/// Why a transport refuses an envelope, if it does: first the version,
/// then the frame size, then the correlation.
pub open spec fn accept_fault(e: Envelope) -> Option<TransportError> {
    if e.version_of() != ProtocolVersion::V1 {
        Some(TransportError::UnsupportedVersion)
    } else if e.size_of() > MAX_FRAME {
        Some(TransportError::FrameTooLarge)
    } else if e.id_of() == 0 {
        Some(TransportError::InvalidCorrelation)
    } else {
        None
    }
}

pub struct Transport;

impl Transport {
    /// Hands back the envelope unchanged if it is a supported, bounded,
    /// correlated frame.
    pub fn accept(e: Envelope) -> (r: Result<Envelope, TransportError>)
        ensures
            match accept_fault(e) {
                None => r == Ok::<Envelope, TransportError>(e),
                Some(f) => r == Err::<Envelope, TransportError>(f),
            },
    {
        if e.version != ProtocolVersion::V1 {
            return Err(TransportError::UnsupportedVersion);
        }
        if e.size > MAX_FRAME {
            return Err(TransportError::FrameTooLarge);
        }
        if e.correlation_id == 0 {
            return Err(TransportError::InvalidCorrelation);
        }
        Ok(e)
    }
}

#[derive(Debug, Clone, Copy, PartialEq, Eq, Structural)]
pub enum SessionState {
    Active,
    Cancelled,
    Closed,
}

/// A session with a bounded queue of outstanding frames.
pub struct Session {
    state: SessionState,
    queue: usize,
    limit: usize,
}

/// The state a session is in after a cancel.
pub open spec fn cancelled_state(st: SessionState) -> SessionState {
    if st == SessionState::Active {
        SessionState::Cancelled
    } else {
        st
    }
}

/// A session takes another frame only while active and below its limit.
pub open spec fn may_enqueue(s: Session) -> bool {
    s.state_of() == SessionState::Active && s.queue_of() < s.limit_of()
}

impl Session {
    pub closed spec fn state_of(&self) -> SessionState {
        self.state
    }

    pub closed spec fn queue_of(&self) -> nat {
        self.queue as nat
    }

    pub closed spec fn limit_of(&self) -> nat {
        self.limit as nat
    }

    /// An active session holding `queue` frames out of `limit`.
    pub fn new(queue: usize, limit: usize) -> (r: Self)
        ensures
            r.state_of() == SessionState::Active,
            r.queue_of() == queue,
            r.limit_of() == limit,
    {
        Session { state: SessionState::Active, queue, limit }
    }

    /// Cancels an active session; a cancelled or closed one is unchanged.
    pub fn cancel(&mut self) -> (r: SessionState)
        ensures
            final(self).state_of() == cancelled_state(old(self).state_of()),
            final(self).queue_of() == old(self).queue_of(),
            final(self).limit_of() == old(self).limit_of(),
            r == final(self).state_of(),
    {
        if self.state == SessionState::Active {
            self.state = SessionState::Cancelled;
        }
        self.state
    }

    /// Closes the session, whatever its state.
    pub fn close(&mut self) -> (r: SessionState)
        ensures
            final(self).state_of() == SessionState::Closed,
            final(self).queue_of() == old(self).queue_of(),
            final(self).limit_of() == old(self).limit_of(),
            r == SessionState::Closed,
    {
        self.state = SessionState::Closed;
        self.state
    }

    /// Queues one frame on an active session below its limit.
    pub fn enqueue(&mut self) -> (r: Result<(), TransportError>)
        ensures
            r is Ok <==> may_enqueue(*old(self)),
            r matches Err(e) ==> e == TransportError::Backpressure,
            final(self).state_of() == old(self).state_of(),
            final(self).limit_of() == old(self).limit_of(),
            final(self).queue_of() == (if r is Ok {
                old(self).queue_of() + 1
            } else {
                old(self).queue_of()
            }),
    {
        if self.state != SessionState::Active || self.queue >= self.limit {
            return Err(TransportError::Backpressure);
        }
        self.queue = self.queue + 1;
        Ok(())
    }

    /// A session is never resumed.
    pub fn reconnect(&self) -> (r: Result<(), TransportError>)
        ensures
            r == Err::<(), TransportError>(TransportError::ReconnectDenied),
    {
        Err(TransportError::ReconnectDenied)
    }
}

/// Whatever a transport accepts is a supported, bounded, correlated frame,
/// and accepting it again changes nothing.
pub proof fn law_accepted_frames_are_well_formed(e: Envelope)
    requires
        accept_fault(e) is None,
    ensures
        e.version_of() == ProtocolVersion::V1,
        e.size_of() <= MAX_FRAME,
        e.id_of() != 0,
        accept_fault(e) is None,
{
}

/// Once a session has been cancelled or closed it never queues a frame
/// again, and cancelling a closed session leaves it closed.
pub proof fn law_no_frames_after_cancel_or_close(s: Session, t: Session)
    requires
        t.state_of() == cancelled_state(s.state_of()) || t.state_of() == SessionState::Closed,
    ensures
        !may_enqueue(t),
        cancelled_state(SessionState::Closed) == SessionState::Closed,
{
}

/// Enqueueing never lets a session's queue pass its limit.
pub proof fn law_queue_stays_within_limit(s: Session, t: Session)
    requires
        s.queue_of() <= s.limit_of(),
        t.limit_of() == s.limit_of(),
        t.queue_of() == (if may_enqueue(s) {
            s.queue_of() + 1
        } else {
            s.queue_of()
        }),
    ensures
        t.queue_of() <= t.limit_of(),
{
}

} // verus!
