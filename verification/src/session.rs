//! The report session on a secured connection.
//!
//! A session goes through four preparations in a fixed order: a GATT client is
//! created, the HID service is looked up, the report characteristic is looked up
//! within it, and notifications are subscribed to. When any of them fails the
//! session is over; none is tried again. After that two loops run side by side
//! until the link drops: one reads the characteristic, reports the value and
//! waits ten seconds before it reads again; the other reports every
//! notification that the peer pushes.

use crate::config::HID_SERVICE;
use crate::config::READ_PERIOD_SECS;
use crate::config::REPORT_CHARACTERISTIC;
use vstd::prelude::*;

verus! {

/// Where the polled-read loop stands.
#[derive(Clone, Copy, Debug, PartialEq, Eq, Structural)]
pub enum ReadLoop {
    /// A read is in flight.
    Reading,
    /// The last value was reported; the next read waits for the timer.
    Waiting,
}

/// Where a session stands.
#[derive(Clone, Copy, Debug, PartialEq, Eq, Structural)]
pub enum SessionPhase {
    CreatingClient,
    DiscoveringService,
    DiscoveringCharacteristic,
    Subscribing,
    /// Both loops run.
    Streaming(ReadLoop),
    /// The session is over and nothing runs.
    Closed,
}

/// A subscription to the notifications of one characteristic. It lasts as
/// long as the connection it was made on, and no longer.
#[derive(Clone, Copy, Debug, PartialEq, Eq, Structural)]
pub struct Subscription {
    /// 16-bit UUID of the characteristic.
    pub characteristic: u16,
    pub notifications: bool,
}

/// Why a session ended.
#[derive(Clone, Copy, Debug, PartialEq, Eq, Structural)]
pub enum SessionError {
    ClientCreation,
    ServiceDiscovery,
    /// The lookup succeeded and found no HID service.
    ServiceMissing,
    CharacteristicDiscovery,
    Subscription,
    Read,
    Disconnected,
}

/// What happened on the link since the last action.
#[derive(Clone, Debug, PartialEq, Eq)]
pub enum SessionEvent {
    ClientCreated,
    /// The service lookup returned this many instances.
    ServicesFound { count: usize },
    CharacteristicFound,
    Subscribed,
    ReadCompleted { value: u8 },
    ReadTimerElapsed,
    Notification(Vec<u8>),
    /// The operation in flight returned an error.
    Failed,
    Disconnected,
}

/// What is to be done next.
#[derive(Clone, Debug, PartialEq, Eq)]
pub enum SessionAction {
    CreateClient,
    DiscoverService { uuid: u16 },
    /// Look the characteristic up in the service instance with this index.
    DiscoverCharacteristic { service_index: usize, uuid: u16 },
    Subscribe { notifications: bool, indications: bool },
    /// Listen for notifications from now on, and read the characteristic.
    StartLoops,
    /// Report the value read, and wake the read loop after the given time.
    ReportRead { value: u8, next_read_in_secs: u64 },
    /// Read the characteristic.
    Read,
    /// Report the payload of a notification.
    ReportNotification(Vec<u8>),
    /// Stop both loops and give the connection up.
    TearDown(SessionError),
    /// The event does not concern the session as it stands.
    Ignore,
}

/// Whether the polled-read loop runs in `phase`.
pub open spec fn read_loop_runs(phase: SessionPhase) -> bool {
    phase is Streaming
}

/// Whether the notification loop runs in `phase`.
pub open spec fn notification_loop_runs(phase: SessionPhase) -> bool {
    phase is Streaming
}

/// The subscription that is in force in `phase`: the one to the report
/// characteristic while the loops run, and none before or after.
pub open spec fn subscription_in(phase: SessionPhase) -> Option<Subscription> {
    if phase is Streaming {
        Some(Subscription { characteristic: REPORT_CHARACTERISTIC, notifications: true })
    } else {
        None
    }
}

/// The error that a failure of the operation in flight stands for.
pub open spec fn failure_in(phase: SessionPhase) -> SessionError {
    match phase {
        SessionPhase::CreatingClient => SessionError::ClientCreation,
        SessionPhase::DiscoveringService => SessionError::ServiceDiscovery,
        SessionPhase::DiscoveringCharacteristic => SessionError::CharacteristicDiscovery,
        SessionPhase::Subscribing => SessionError::Subscription,
        SessionPhase::Streaming(_) => SessionError::Read,
        SessionPhase::Closed => SessionError::Disconnected,
    }
}

/// The phase that follows `phase` on `event`.
pub open spec fn next_phase(phase: SessionPhase, event: SessionEvent) -> SessionPhase {
    match (phase, event) {
        (SessionPhase::Closed, _) => SessionPhase::Closed,
        (_, SessionEvent::Disconnected) => SessionPhase::Closed,
        (_, SessionEvent::Failed) => SessionPhase::Closed,
        (SessionPhase::CreatingClient, SessionEvent::ClientCreated) => {
            SessionPhase::DiscoveringService
        },
        (SessionPhase::DiscoveringService, SessionEvent::ServicesFound { count }) => if count
            == 0 {
            SessionPhase::Closed
        } else {
            SessionPhase::DiscoveringCharacteristic
        },
        (SessionPhase::DiscoveringCharacteristic, SessionEvent::CharacteristicFound) => {
            SessionPhase::Subscribing
        },
        (SessionPhase::Subscribing, SessionEvent::Subscribed) => SessionPhase::Streaming(
            ReadLoop::Reading,
        ),
        (SessionPhase::Streaming(ReadLoop::Reading), SessionEvent::ReadCompleted { .. }) => {
            SessionPhase::Streaming(ReadLoop::Waiting)
        },
        (SessionPhase::Streaming(ReadLoop::Waiting), SessionEvent::ReadTimerElapsed) => {
            SessionPhase::Streaming(ReadLoop::Reading)
        },
        _ => phase,
    }
}

/// The action that `event` calls for in `phase`.
pub open spec fn next_action(phase: SessionPhase, event: SessionEvent) -> SessionAction {
    match (phase, event) {
        (SessionPhase::Closed, _) => SessionAction::Ignore,
        (_, SessionEvent::Disconnected) => SessionAction::TearDown(SessionError::Disconnected),
        (_, SessionEvent::Failed) => SessionAction::TearDown(failure_in(phase)),
        (SessionPhase::CreatingClient, SessionEvent::ClientCreated) => {
            SessionAction::DiscoverService { uuid: HID_SERVICE }
        },
        (SessionPhase::DiscoveringService, SessionEvent::ServicesFound { count }) => if count
            == 0 {
            SessionAction::TearDown(SessionError::ServiceMissing)
        } else {
            SessionAction::DiscoverCharacteristic { service_index: 0, uuid: REPORT_CHARACTERISTIC }
        },
        (SessionPhase::DiscoveringCharacteristic, SessionEvent::CharacteristicFound) => {
            SessionAction::Subscribe { notifications: true, indications: false }
        },
        (SessionPhase::Subscribing, SessionEvent::Subscribed) => SessionAction::StartLoops,
        (SessionPhase::Streaming(ReadLoop::Reading), SessionEvent::ReadCompleted { value }) => {
            SessionAction::ReportRead { value, next_read_in_secs: READ_PERIOD_SECS }
        },
        (SessionPhase::Streaming(ReadLoop::Waiting), SessionEvent::ReadTimerElapsed) => {
            SessionAction::Read
        },
        (SessionPhase::Streaming(_), SessionEvent::Notification(payload)) => {
            SessionAction::ReportNotification(payload)
        },
        _ => SessionAction::Ignore,
    }
}

/// Opens a session on a secured connection.
pub fn open_session() -> (start: (SessionPhase, SessionAction))
    ensures
        start.0 == SessionPhase::CreatingClient,
        start.1 == SessionAction::CreateClient,
{
    (SessionPhase::CreatingClient, SessionAction::CreateClient)
}

/// Takes a session one event further.
pub fn session_step(phase: SessionPhase, event: SessionEvent) -> (next: (
    SessionPhase,
    SessionAction,
))
    ensures
        next.0 == next_phase(phase, event),
        next.1 == next_action(phase, event),
{
    match phase {
        SessionPhase::Closed => (SessionPhase::Closed, SessionAction::Ignore),
        _ => match event {
            SessionEvent::Disconnected => (
                SessionPhase::Closed,
                SessionAction::TearDown(SessionError::Disconnected),
            ),
            SessionEvent::Failed => (
                SessionPhase::Closed,
                SessionAction::TearDown(failure_of(phase)),
            ),
            SessionEvent::ClientCreated => match phase {
                SessionPhase::CreatingClient => (
                    SessionPhase::DiscoveringService,
                    SessionAction::DiscoverService { uuid: HID_SERVICE },
                ),
                _ => (phase, SessionAction::Ignore),
            },
            SessionEvent::ServicesFound { count } => match phase {
                SessionPhase::DiscoveringService => if count == 0 {
                    (SessionPhase::Closed, SessionAction::TearDown(SessionError::ServiceMissing))
                } else {
                    (
                        SessionPhase::DiscoveringCharacteristic,
                        SessionAction::DiscoverCharacteristic {
                            service_index: 0,
                            uuid: REPORT_CHARACTERISTIC,
                        },
                    )
                },
                _ => (phase, SessionAction::Ignore),
            },
            SessionEvent::CharacteristicFound => match phase {
                SessionPhase::DiscoveringCharacteristic => (
                    SessionPhase::Subscribing,
                    SessionAction::Subscribe { notifications: true, indications: false },
                ),
                _ => (phase, SessionAction::Ignore),
            },
            SessionEvent::Subscribed => match phase {
                SessionPhase::Subscribing => (
                    SessionPhase::Streaming(ReadLoop::Reading),
                    SessionAction::StartLoops,
                ),
                _ => (phase, SessionAction::Ignore),
            },
            SessionEvent::ReadCompleted { value } => match phase {
                SessionPhase::Streaming(ReadLoop::Reading) => (
                    SessionPhase::Streaming(ReadLoop::Waiting),
                    SessionAction::ReportRead { value, next_read_in_secs: READ_PERIOD_SECS },
                ),
                _ => (phase, SessionAction::Ignore),
            },
            SessionEvent::ReadTimerElapsed => match phase {
                SessionPhase::Streaming(ReadLoop::Waiting) => (
                    SessionPhase::Streaming(ReadLoop::Reading),
                    SessionAction::Read,
                ),
                _ => (phase, SessionAction::Ignore),
            },
            SessionEvent::Notification(payload) => match phase {
                SessionPhase::Streaming(_) => (phase, SessionAction::ReportNotification(payload)),
                _ => (phase, SessionAction::Ignore),
            },
        },
    }
}

/// The subscription that is in force in `phase`, if one is.
pub fn subscription(phase: SessionPhase) -> (active: Option<Subscription>)
    ensures
        active == subscription_in(phase),
{
    match phase {
        SessionPhase::Streaming(_) => Some(
            Subscription { characteristic: REPORT_CHARACTERISTIC, notifications: true },
        ),
        _ => None,
    }
}

/// The error that a failure of the operation in flight stands for.
pub fn failure_of(phase: SessionPhase) -> (error: SessionError)
    ensures
        error == failure_in(phase),
{
    match phase {
        SessionPhase::CreatingClient => SessionError::ClientCreation,
        SessionPhase::DiscoveringService => SessionError::ServiceDiscovery,
        SessionPhase::DiscoveringCharacteristic => SessionError::CharacteristicDiscovery,
        SessionPhase::Subscribing => SessionError::Subscription,
        SessionPhase::Streaming(_) => SessionError::Read,
        SessionPhase::Closed => SessionError::Disconnected,
    }
}

/// A disconnect ends a session in one step, whatever it was doing, and
/// neither loop runs afterwards.
pub proof fn law_disconnect_stops_both_loops(phase: SessionPhase)
    ensures
        next_phase(phase, SessionEvent::Disconnected) == SessionPhase::Closed,
        phase !is Closed ==> next_action(phase, SessionEvent::Disconnected)
            == SessionAction::TearDown(SessionError::Disconnected),
        !read_loop_runs(SessionPhase::Closed),
        !notification_loop_runs(SessionPhase::Closed),
{
}

/// A subscription is made once in a session, by the step that starts the
/// loops, and is gone as soon as the session is over.
pub proof fn law_subscription_lasts_as_long_as_the_loops(phase: SessionPhase, event: SessionEvent)
    ensures
        subscription_in(phase).is_none() && subscription_in(next_phase(phase, event)).is_some()
            ==> phase is Subscribing && event is Subscribed,
        subscription_in(phase).is_some() <==> read_loop_runs(phase) && notification_loop_runs(
            phase,
        ),
        subscription_in(SessionPhase::Closed).is_none(),
{
}

/// A preparation that fails ends the session; it is not tried again.
pub proof fn law_failure_ends_the_session(phase: SessionPhase)
    requires
        phase !is Closed,
    ensures
        next_phase(phase, SessionEvent::Failed) == SessionPhase::Closed,
        next_action(phase, SessionEvent::Failed) == SessionAction::TearDown(failure_in(phase)),
{
}

/// A session that is over stays over and asks for nothing.
pub proof fn law_closed_session_stays_closed(event: SessionEvent)
    ensures
        next_phase(SessionPhase::Closed, event) == SessionPhase::Closed,
        next_action(SessionPhase::Closed, event) == SessionAction::Ignore,
{
}

/// The loops start only when the subscription has succeeded, and then both
/// start together.
pub proof fn law_loops_start_after_subscription(phase: SessionPhase, event: SessionEvent)
    requires
        !read_loop_runs(phase),
        read_loop_runs(next_phase(phase, event)) || notification_loop_runs(
            next_phase(phase, event),
        ),
    ensures
        phase is Subscribing,
        event is Subscribed,
        next_action(phase, event) == SessionAction::StartLoops,
        read_loop_runs(next_phase(phase, event)),
        notification_loop_runs(next_phase(phase, event)),
{
}

/// The two loops do not wait for each other: a notification is reported
/// wherever the read loop stands, and leaves the read loop where it is.
pub proof fn law_notifications_leave_the_read_loop(reads: ReadLoop, payload: Vec<u8>)
    ensures
        next_phase(SessionPhase::Streaming(reads), SessionEvent::Notification(payload))
            == SessionPhase::Streaming(reads),
        next_action(SessionPhase::Streaming(reads), SessionEvent::Notification(payload))
            == SessionAction::ReportNotification(payload),
{
}

/// The read loop reads, reports and waits in turn: a read that completes is
/// reported and followed by a wait of the read period, and the end of the wait
/// by the next read.
pub proof fn law_reads_are_spaced_by_the_read_period(value: u8)
    ensures
        next_phase(SessionPhase::Streaming(ReadLoop::Reading), SessionEvent::ReadCompleted { value })
            == SessionPhase::Streaming(ReadLoop::Waiting),
        next_action(
            SessionPhase::Streaming(ReadLoop::Reading),
            SessionEvent::ReadCompleted { value },
        ) == (SessionAction::ReportRead { value, next_read_in_secs: READ_PERIOD_SECS }),
        next_phase(SessionPhase::Streaming(ReadLoop::Waiting), SessionEvent::ReadTimerElapsed)
            == SessionPhase::Streaming(ReadLoop::Reading),
        next_action(SessionPhase::Streaming(ReadLoop::Waiting), SessionEvent::ReadTimerElapsed)
            == SessionAction::Read,
{
}

} // verus!
