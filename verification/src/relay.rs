//! Relaying one payload to the registered peers.
//!
//! The radio is driven from outside this crate. A `RelaySession` decides what
//! it is asked to do next: peers are served one at a time, in the order of the
//! registry, and the status of each send is awaited before the next one
//! starts. A send that merely failed is passed over; a structural error ends
//! the session at once.

use vstd::prelude::*;
use crate::payload::TelemetryPayload;

verus! {

/// The fixed, ordered set of peers that telemetry is relayed to, each named by
/// its six-byte hardware address.
#[derive(Clone, Debug, PartialEq, Eq)]
pub struct PeerRegistry {
    pub addresses: Vec<[u8; 6]>,
}

impl View for PeerRegistry {
    type V = Seq<[u8; 6]>;

    open spec fn view(&self) -> Seq<[u8; 6]> {
        self.addresses@
    }
}

impl PeerRegistry {
    /// The registry of the given peers, in the given order.
    pub fn new(addresses: Vec<[u8; 6]>) -> (registry: PeerRegistry)
        ensures
            registry@ == addresses@,
    {
        PeerRegistry { addresses }
    }

    /// The registry of a node that relays nothing.
    pub fn empty() -> (registry: PeerRegistry)
        ensures
            registry@ == Seq::<[u8; 6]>::empty(),
    {
        PeerRegistry { addresses: Vec::new() }
    }

    pub fn len(&self) -> (n: usize)
        ensures
            n == self@.len(),
    {
        self.addresses.len()
    }

    pub fn is_empty(&self) -> (empty: bool)
        ensures
            empty == (self@.len() == 0),
    {
        self.addresses.len() == 0
    }

    /// The address at `index`, if the registry has that many peers.
    pub fn get(&self, index: usize) -> (address: Option<[u8; 6]>)
        ensures
            address == if index < self@.len() {
                Some(self@[index as int])
            } else {
                None
            },
    {
        if index < self.addresses.len() {
            Some(self.addresses[index])
        } else {
            None
        }
    }
}

/// How one send ended, as the radio reported it locally.
#[derive(Clone, Copy, Debug, PartialEq, Eq, Structural)]
pub enum SendStatus {
    /// The radio transmitted the payload.
    Delivered,
    /// The radio could not queue or transmit the payload.
    SendFailed,
    /// A second instance of the radio driver was created.
    DuplicateInstance,
    /// The wireless stack was not set up.
    InitializationError,
    /// Any other error of the wireless stack.
    InternalError,
}

impl SendStatus {
    /// A fatal status reveals a defect in how the node was set up: the session
    /// must not go on after it.
    pub open spec fn fatal(self) -> bool {
        !(self is Delivered) && !(self is SendFailed)
    }

    pub fn is_fatal(&self) -> (fatal: bool)
        ensures
            fatal == self.fatal(),
    {
        match self {
            SendStatus::Delivered => false,
            SendStatus::SendFailed => false,
            SendStatus::DuplicateInstance => true,
            SendStatus::InitializationError => true,
            SendStatus::InternalError => true,
        }
    }
}

/// How a session ended.
#[derive(Clone, Copy, Debug, PartialEq, Eq, Structural)]
pub enum RelayOutcome {
    /// Every peer was sent to once; `failed` of the sends did not go through.
    Completed { failed: usize },
    /// The send to the peer at `index` ended with the fatal `status`; the
    /// peers after it were not sent to.
    Aborted { index: usize, status: SendStatus },
}

/// What the session asks of the radio.
#[derive(Clone, Copy, Debug, PartialEq, Eq)]
pub enum RelayAction {
    /// Send `payload` to `peer`, wait for the send to end, and report its
    /// status with `record`.
    Send { peer: [u8; 6], payload: TelemetryPayload },
    /// Nothing is left to send: release the radio.
    Release(RelayOutcome),
}

/// The progress of relaying one payload.
#[derive(Clone, Copy, Debug, PartialEq, Eq)]
pub struct RelaySession {
    /// What is sent to each peer.
    pub payload: TelemetryPayload,
    /// How many sends have ended; also the index of the peer to send to next.
    pub served: usize,
    /// How many of the sends that ended had failed.
    pub failed: usize,
    /// The fatal status that ended the session, if one did.
    pub fault: Option<SendStatus>,
}

impl RelaySession {
    /// Sessions count the failures among the sends that ended, and stop at a
    /// fatal status only.
    pub open spec fn well_formed(self) -> bool {
        &&& self.failed <= self.served
        &&& self.fault matches Some(status) ==> status.fatal()
    }

    /// What the session asks for in this state.
    pub open spec fn action(self, peers: Seq<[u8; 6]>) -> RelayAction {
        match self.fault {
            Some(status) => RelayAction::Release(
                RelayOutcome::Aborted { index: self.served, status },
            ),
            None => if self.served < peers.len() {
                RelayAction::Send { peer: peers[self.served as int], payload: self.payload }
            } else {
                RelayAction::Release(RelayOutcome::Completed { failed: self.failed })
            },
        }
    }

    /// The state after the pending send ended with `status`. A status that
    /// arrives while no send is pending changes nothing.
    pub open spec fn recorded(self, peers: Seq<[u8; 6]>, status: SendStatus) -> RelaySession {
        if self.fault is Some || self.served >= peers.len() {
            self
        } else if status.fatal() {
            RelaySession { fault: Some(status), ..self }
        } else if status is SendFailed {
            RelaySession {
                served: (self.served + 1) as usize,
                failed: (self.failed + 1) as usize,
                ..self
            }
        } else {
            RelaySession { served: (self.served + 1) as usize, ..self }
        }
    }

    /// A session that has sent nothing yet.
    pub fn begin(payload: TelemetryPayload) -> (session: RelaySession)
        ensures
            session == (RelaySession { payload, served: 0, failed: 0, fault: None }),
            session.well_formed(),
    {
        RelaySession { payload, served: 0, failed: 0, fault: None }
    }

    /// What to do next.
    pub fn next_action(&self, peers: &PeerRegistry) -> (action: RelayAction)
        ensures
            action == self.action(peers@),
    {
        match self.fault {
            Some(status) => RelayAction::Release(
                RelayOutcome::Aborted { index: self.served, status },
            ),
            None => {
                if self.served < peers.len() {
                    RelayAction::Send {
                        peer: peers.addresses[self.served],
                        payload: self.payload,
                    }
                } else {
                    RelayAction::Release(RelayOutcome::Completed { failed: self.failed })
                }
            },
        }
    }

    /// Takes note of how the pending send ended.
    pub fn record(&mut self, peers: &PeerRegistry, status: SendStatus)
        requires
            old(self).well_formed(),
        ensures
            *final(self) == old(self).recorded(peers@, status),
            final(self).well_formed(),
    {
        if self.fault.is_some() || self.served >= peers.len() {
            return ;
        }
        if status.is_fatal() {
            self.fault = Some(status);
        } else {
            if status == SendStatus::SendFailed {
                self.failed = self.failed + 1;
            }
            self.served = self.served + 1;
        }
    }
}

/// The peers that are sent to, in order, when a session is driven from
/// `session` on and the sends end with `statuses`, one after the other.
pub open spec fn sends(
    session: RelaySession,
    peers: Seq<[u8; 6]>,
    statuses: Seq<SendStatus>,
) -> Seq<[u8; 6]>
    decreases statuses.len(),
{
    match session.action(peers) {
        RelayAction::Send { peer, .. } => if statuses.len() == 0 {
            seq![peer]
        } else {
            seq![peer] + sends(
                session.recorded(peers, statuses[0]),
                peers,
                statuses.drop_first(),
            )
        },
        RelayAction::Release(_) => Seq::empty(),
    }
}

/// The state of a session after the sends asked for from `session` on ended
/// with `statuses`.
pub open spec fn settled(
    session: RelaySession,
    peers: Seq<[u8; 6]>,
    statuses: Seq<SendStatus>,
) -> RelaySession
    decreases statuses.len(),
{
    if statuses.len() == 0 {
        session
    } else {
        settled(session.recorded(peers, statuses[0]), peers, statuses.drop_first())
    }
}

/// How many of `statuses` are `SendFailed`.
pub open spec fn failures(statuses: Seq<SendStatus>) -> nat
    decreases statuses.len(),
{
    if statuses.len() == 0 {
        0
    } else {
        (if statuses[0] is SendFailed {
            1nat
        } else {
            0nat
        }) + failures(statuses.drop_first())
    }
}

/// Whether none of the first `count` statuses is fatal.
pub open spec fn none_fatal(statuses: Seq<SendStatus>, count: int) -> bool {
    forall|i: int| 0 <= i < count && i < statuses.len() ==> !(#[trigger] statuses[i]).fatal()
}

proof fn lemma_failures_bound(statuses: Seq<SendStatus>)
    ensures
        failures(statuses) <= statuses.len(),
    decreases statuses.len(),
{
    if statuses.len() > 0 {
        lemma_failures_bound(statuses.drop_first());
    }
}

/// From any state without a fault, sends that all end without a fatal status
/// reach the remaining peers one by one, in registry order.
proof fn lemma_sends_without_fault(
    session: RelaySession,
    peers: Seq<[u8; 6]>,
    statuses: Seq<SendStatus>,
)
    requires
        session.well_formed(),
        session.fault is None,
        peers.len() <= usize::MAX,
        session.served + statuses.len() == peers.len(),
        none_fatal(statuses, statuses.len() as int),
    ensures
        sends(session, peers, statuses) == peers.subrange(
            session.served as int,
            peers.len() as int,
        ),
        settled(session, peers, statuses) == (RelaySession {
            served: peers.len() as usize,
            failed: (session.failed + failures(statuses)) as usize,
            ..session
        }),
    decreases statuses.len(),
{
    lemma_failures_bound(statuses);
    if statuses.len() == 0 {
        assert(peers.subrange(session.served as int, peers.len() as int) =~= Seq::empty());
    } else {
        let next = session.recorded(peers, statuses[0]);
        let rest = statuses.drop_first();
        assert(!statuses[0].fatal());
        assert forall|i: int| 0 <= i < rest.len() implies !(#[trigger] rest[i]).fatal() by {
            assert(rest[i] == statuses[i + 1]);
        }
        lemma_failures_bound(rest);
        lemma_sends_without_fault(next, peers, rest);
        assert(seq![peers[session.served as int]] + peers.subrange(
            next.served as int,
            peers.len() as int,
        ) =~= peers.subrange(session.served as int, peers.len() as int));
    }
}

/// From any state without a fault, the first fatal status ends the session:
/// the peers up to the one whose send it ended were sent to, and no other.
proof fn lemma_sends_until_fault(
    session: RelaySession,
    peers: Seq<[u8; 6]>,
    statuses: Seq<SendStatus>,
    first: int,
)
    requires
        session.well_formed(),
        session.fault is None,
        peers.len() <= usize::MAX,
        0 <= first < statuses.len(),
        session.served + first < peers.len(),
        none_fatal(statuses, first),
        statuses[first].fatal(),
    ensures
        sends(session, peers, statuses) == peers.subrange(
            session.served as int,
            session.served + first + 1,
        ),
        settled(session, peers, statuses).fault == Some(statuses[first]),
        settled(session, peers, statuses).served == session.served + first,
    decreases statuses.len(),
{
    let next = session.recorded(peers, statuses[0]);
    let rest = statuses.drop_first();
    if first == 0 {
        lemma_faulted_is_final(next, peers, rest);
        assert(seq![peers[session.served as int]] + Seq::<[u8; 6]>::empty() =~= peers.subrange(
            session.served as int,
            session.served + 1,
        ));
    } else {
        assert(!statuses[0].fatal());
        assert forall|i: int| 0 <= i < first - 1 && i < rest.len() implies !(
        #[trigger] rest[i]).fatal() by {
            assert(rest[i] == statuses[i + 1]);
        }
        assert(rest[first - 1] == statuses[first]);
        lemma_sends_until_fault(next, peers, rest, first - 1);
        assert(seq![peers[session.served as int]] + peers.subrange(
            next.served as int,
            next.served + first,
        ) =~= peers.subrange(session.served as int, session.served + first + 1));
    }
}

/// Once a fatal status was recorded, nothing more is sent and nothing changes.
proof fn lemma_faulted_is_final(
    session: RelaySession,
    peers: Seq<[u8; 6]>,
    statuses: Seq<SendStatus>,
)
    requires
        session.fault is Some,
    ensures
        sends(session, peers, statuses) == Seq::<[u8; 6]>::empty(),
        settled(session, peers, statuses) == session,
    decreases statuses.len(),
{
    if statuses.len() > 0 {
        lemma_faulted_is_final(session, peers, statuses.drop_first());
    }
}

/// With one status per peer and none of them fatal, every peer is sent to
/// exactly once, in registry order, whichever sends failed; the session then
/// releases the radio and reports how many sends failed.
pub proof fn lemma_every_peer_served_once(
    payload: TelemetryPayload,
    peers: Seq<[u8; 6]>,
    statuses: Seq<SendStatus>,
)
    requires
        peers.len() <= usize::MAX,
        statuses.len() == peers.len(),
        none_fatal(statuses, statuses.len() as int),
    ensures
        ({
            let start = RelaySession { payload, served: 0, failed: 0, fault: None };
            &&& sends(start, peers, statuses) == peers
            &&& settled(start, peers, statuses).action(peers) == RelayAction::Release(
                RelayOutcome::Completed { failed: failures(statuses) as usize },
            )
        }),
{
    let start = RelaySession { payload, served: 0, failed: 0, fault: None };
    lemma_sends_without_fault(start, peers, statuses);
    assert(peers.subrange(0, peers.len() as int) =~= peers);
}

/// The first fatal status ends the session at once: the peers before the one
/// it came from and that one were sent to, in registry order, the peers after
/// it were not, and the session releases the radio reporting that status.
pub proof fn lemma_fatal_status_aborts(
    payload: TelemetryPayload,
    peers: Seq<[u8; 6]>,
    statuses: Seq<SendStatus>,
    first: int,
)
    requires
        peers.len() <= usize::MAX,
        0 <= first < statuses.len(),
        first < peers.len(),
        none_fatal(statuses, first),
        statuses[first].fatal(),
    ensures
        ({
            let start = RelaySession { payload, served: 0, failed: 0, fault: None };
            &&& sends(start, peers, statuses) == peers.take(first + 1)
            &&& settled(start, peers, statuses).action(peers) == RelayAction::Release(
                RelayOutcome::Aborted { index: first as usize, status: statuses[first] },
            )
        }),
{
    let start = RelaySession { payload, served: 0, failed: 0, fault: None };
    lemma_sends_until_fault(start, peers, statuses, first);
    assert(peers.subrange(0, first + 1) =~= peers.take(first + 1));
}

} // verus!
