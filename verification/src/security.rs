//! Pairing negotiation on a fresh connection.
//!
//! After a security request has been issued, the events of the connection are
//! read one by one, in the order in which they arrive. A completed pairing
//! ends the wait with success at whatever security level was reached, a failed
//! pairing or a disconnect ends it with failure, and every other event is
//! passed over. Nothing bounds the wait: a peer that never resolves the
//! pairing is waited for until the link drops.

use vstd::prelude::*;

verus! {

/// Protection that a pairing gave the link.
#[derive(Clone, Copy, Debug, PartialEq, Eq, Structural)]
pub enum SecurityLevel {
    NoEncryption,
    Encrypted,
    EncryptedAuthenticated,
}

/// What a connection reports while it is alive.
#[derive(Clone, Copy, Debug, PartialEq, Eq, Structural)]
pub enum ConnectionEvent {
    Disconnected { reason: u8 },
    PhyUpdated,
    ConnectionParamsUpdated,
    DataLengthUpdated,
    RequestConnectionParams,
    PassKeyDisplay(u32),
    PassKeyConfirm(u32),
    PassKeyInput,
    PairingComplete { security_level: SecurityLevel, bonded: bool },
    PairingFailed,
}

/// Why a link could not be secured.
#[derive(Clone, Copy, Debug, PartialEq, Eq, Structural)]
pub enum SecurityError {
    PairingFailed,
    Disconnected,
}

/// What one event means for the negotiation.
#[derive(Clone, Copy, Debug, PartialEq, Eq, Structural)]
pub enum SecurityStep {
    /// Pairing completed; the reached level is reported, not judged.
    Secured(SecurityLevel),
    Failed(SecurityError),
    /// The event does not decide the negotiation.
    KeepWaiting,
}

/// Where a negotiation stands after a run of events.
#[derive(Clone, Copy, Debug, PartialEq, Eq, Structural)]
pub enum SecurityOutcome {
    Secured(SecurityLevel),
    Failed(SecurityError),
    /// No event so far has decided the negotiation.
    Unresolved,
}

/// A negotiation after a run of events: where it stands, and how many of the
/// events were read to get there.
#[derive(Clone, Copy, Debug, PartialEq, Eq, Structural)]
pub struct Negotiation {
    pub outcome: SecurityOutcome,
    pub consumed: usize,
}

pub open spec fn security_verdict(event: ConnectionEvent) -> SecurityStep {
    match event {
        ConnectionEvent::PairingComplete { security_level, .. } => SecurityStep::Secured(
            security_level,
        ),
        ConnectionEvent::PairingFailed => SecurityStep::Failed(SecurityError::PairingFailed),
        ConnectionEvent::Disconnected { .. } => SecurityStep::Failed(SecurityError::Disconnected),
        _ => SecurityStep::KeepWaiting,
    }
}

/// Whether `event` ends a negotiation.
pub open spec fn is_terminal(event: ConnectionEvent) -> bool {
    security_verdict(event) != SecurityStep::KeepWaiting
}

/// The outcome that a deciding step stands for.
pub open spec fn outcome_of(step: SecurityStep) -> SecurityOutcome {
    match step {
        SecurityStep::Secured(level) => SecurityOutcome::Secured(level),
        SecurityStep::Failed(error) => SecurityOutcome::Failed(error),
        SecurityStep::KeepWaiting => SecurityOutcome::Unresolved,
    }
}

/// No event of `events` ends a negotiation.
pub open spec fn unresolved(events: Seq<ConnectionEvent>) -> bool {
    forall|j: int| 0 <= j < events.len() ==> !is_terminal(#[trigger] events[j])
}

/// The event at `i` is the first of `events` that ends a negotiation.
pub open spec fn resolves_at(events: Seq<ConnectionEvent>, i: int) -> bool {
    &&& 0 <= i < events.len()
    &&& is_terminal(events[i])
    &&& unresolved(events.take(i))
}

/// Where the negotiation stands once `events` have arrived.
pub open spec fn negotiated_outcome(events: Seq<ConnectionEvent>) -> SecurityOutcome {
    if unresolved(events) {
        SecurityOutcome::Unresolved
    } else {
        outcome_of(security_verdict(events[choose|i: int| resolves_at(events, i)]))
    }
}

/// How many of `events` are read: all of them while nothing is decided, else
/// those up to and including the one that decides.
pub open spec fn events_read(events: Seq<ConnectionEvent>) -> nat {
    if unresolved(events) {
        events.len()
    } else {
        ((choose|i: int| resolves_at(events, i)) + 1) as nat
    }
}

/// Judges one connection event.
pub fn security_step(event: &ConnectionEvent) -> (step: SecurityStep)
    ensures
        step == security_verdict(*event),
{
    match event {
        ConnectionEvent::PairingComplete { security_level, .. } => SecurityStep::Secured(
            *security_level,
        ),
        ConnectionEvent::PairingFailed => SecurityStep::Failed(SecurityError::PairingFailed),
        ConnectionEvent::Disconnected { .. } => SecurityStep::Failed(SecurityError::Disconnected),
        _ => SecurityStep::KeepWaiting,
    }
}

/// Runs a negotiation over the events that have arrived, oldest first.
///
/// Events are read in order up to and including the first that decides the
/// negotiation; the later ones are left unread.
pub fn secure(events: &Vec<ConnectionEvent>) -> (result: Negotiation)
    ensures
        result.outcome == negotiated_outcome(events@),
        result.consumed == events_read(events@),
        unresolved(events@) ==> result.outcome == SecurityOutcome::Unresolved && result.consumed
            == events.len(),
        forall|i: int|
            resolves_at(events@, i) ==> result.outcome == outcome_of(security_verdict(events@[i]))
                && result.consumed == i + 1,
{
    let mut k: usize = 0;
    while k < events.len()
        invariant
            k <= events.len(),
            unresolved(events@.take(k as int)),
        decreases events.len() - k,
    {
        let step = security_step(&events[k]);
        match step {
            SecurityStep::Secured(level) => {
                proof {
                    lemma_resolution_is_unique(events@, k as int);
                }
                return Negotiation { outcome: SecurityOutcome::Secured(level), consumed: k + 1 };
            },
            SecurityStep::Failed(error) => {
                proof {
                    lemma_resolution_is_unique(events@, k as int);
                }
                return Negotiation { outcome: SecurityOutcome::Failed(error), consumed: k + 1 };
            },
            SecurityStep::KeepWaiting => {
                assert(events@.take(k as int + 1) =~= events@.take(k as int).push(events@[k as int]));
                k += 1;
            },
        }
    }
    proof {
        assert(events@.take(k as int) =~= events@);
        lemma_unresolved_never_resolves(events@);
    }
    Negotiation { outcome: SecurityOutcome::Unresolved, consumed: k }
}

/// A run of events is decided at one place at most, and a run that is decided
/// somewhere is not unresolved.
pub proof fn lemma_resolution_is_unique(events: Seq<ConnectionEvent>, i: int)
    requires
        resolves_at(events, i),
    ensures
        !unresolved(events),
        forall|j: int| resolves_at(events, j) ==> j == i,
        negotiated_outcome(events) == outcome_of(security_verdict(events[i])),
        events_read(events) == i + 1,
{
    assert forall|j: int| resolves_at(events, j) implies j == i by {
        if j < i {
            assert(events.take(i)[j] == events[j]);
        } else if i < j {
            assert(events.take(j)[i] == events[i]);
        }
    }
}

/// A run in which nothing decides the negotiation is decided nowhere.
pub proof fn lemma_unresolved_never_resolves(events: Seq<ConnectionEvent>)
    requires
        unresolved(events),
    ensures
        forall|i: int| !resolves_at(events, i),
{
}

/// Events that decide nothing are passed over: a run that starts with such
/// events is decided where the rest of it is, by the same event.
pub proof fn law_undecided_events_are_skipped(
    skipped: Seq<ConnectionEvent>,
    rest: Seq<ConnectionEvent>,
    i: int,
)
    requires
        unresolved(skipped),
        resolves_at(rest, i),
    ensures
        resolves_at(skipped + rest, skipped.len() + i),
        negotiated_outcome(skipped + rest) == negotiated_outcome(rest),
        events_read(skipped + rest) == skipped.len() + events_read(rest),
{
    let all = skipped + rest;
    let at = skipped.len() + i;
    assert(all[at] == rest[i]);
    assert forall|j: int| 0 <= j < all.take(at).len() implies !is_terminal(
        #[trigger] all.take(at)[j],
    ) by {
        if j < skipped.len() {
            assert(all.take(at)[j] == skipped[j]);
        } else {
            assert(all.take(at)[j] == rest.take(i)[j - skipped.len()]);
        }
    }
    lemma_resolution_is_unique(all, at);
    lemma_resolution_is_unique(rest, i);
}

/// An event that decides the negotiation decides it at once: what follows it
/// is never read.
pub proof fn law_deciding_event_ends_the_wait(
    first: ConnectionEvent,
    later: Seq<ConnectionEvent>,
)
    requires
        is_terminal(first),
    ensures
        negotiated_outcome(seq![first] + later) == outcome_of(security_verdict(first)),
        events_read(seq![first] + later) == 1,
{
    let all = seq![first] + later;
    assert(all[0] == first);
    assert(all.take(0) =~= Seq::<ConnectionEvent>::empty());
    lemma_resolution_is_unique(all, 0);
}

/// While nothing has decided the negotiation, every event has been read and
/// the wait goes on, however many events there were.
pub proof fn law_wait_is_unbounded(events: Seq<ConnectionEvent>)
    requires
        unresolved(events),
    ensures
        negotiated_outcome(events) == SecurityOutcome::Unresolved,
        events_read(events) == events.len(),
{
}

} // verus!
