//! The main acquisition loop: scan, connect, secure, run the report session,
//! and start over whenever one of them fails.
//!
//! The loop is a state machine. Whoever drives it performs the action that a
//! step returns and reports what came of it as the next event. Every failure
//! leads back to the start of the loop at once, without a pause. One event is
//! fatal: that the host stack's own runner has ended, after which nothing is
//! done any more.

use crate::address::Address;
use crate::config::CONNECTIONS_MAX;
use crate::config::SCAN_TIMEOUT_SECS;
use crate::connect::accept_only;
use crate::connect::connect_config;
use crate::connect::ConnectConfig;
use crate::handoff::DiscoveredDevice;
use crate::scan::scan_config;
use crate::scan::scan_defaults;
use crate::scan::ScanConfig;
use crate::security::security_step;
use crate::security::security_verdict;
use crate::security::ConnectionEvent;
use crate::security::SecurityError;
use crate::security::SecurityStep;
use crate::session::next_action;
use crate::session::next_phase;
use crate::session::notification_loop_runs;
use crate::session::read_loop_runs;
use crate::session::session_step;
use crate::session::SessionAction;
use crate::session::SessionError;
use crate::session::SessionEvent;
use crate::session::SessionPhase;
use vstd::prelude::*;

verus! {

/// Why an attempt to acquire a keyboard was given up.
#[derive(Clone, Copy, Debug, PartialEq, Eq, Structural)]
pub enum Failure {
    ScanError,
    Timeout,
    ConnectError,
    Security(SecurityError),
    Session(SessionError),
}

/// Where the loop stands.
#[derive(Clone, Copy, Debug, PartialEq, Eq)]
pub enum Stage {
    /// At the top of the loop: nothing is open.
    Idle,
    /// The host stack was asked for a scan session.
    OpeningScan,
    /// A scan session is open and the handoff slot is waited on.
    AwaitingDevice,
    /// The scan session is closed and a connection to this device is attempted.
    Connecting(Address),
    /// A connection is open and its pairing is waited for.
    Securing,
    /// A secured connection is open and the report session runs on it.
    InSession(SessionPhase),
    /// The host stack's runner has ended.
    Halted,
}

/// What happened since the last action.
#[derive(Clone, Debug, PartialEq, Eq)]
pub enum Event {
    /// The loop is entered, or entered again.
    Start,
    ScanOpened,
    ScanFailed,
    /// A device was picked up from the handoff slot.
    DeviceFound(DiscoveredDevice),
    /// The wait for a device ran out.
    ScanTimedOut,
    Connected,
    ConnectFailed,
    Connection(ConnectionEvent),
    Session(SessionEvent),
    /// The host stack's runner has ended.
    RunnerExited,
}

/// What is to be done next.
#[derive(Clone, Debug, PartialEq, Eq)]
pub enum Action {
    /// Open a scan session.
    OpenScan(ScanConfig),
    /// Wait for a device in the handoff slot, no longer than this.
    AwaitDevice { timeout_secs: u64 },
    /// Close the scan session, then attempt a connection, once.
    Connect(ConnectConfig),
    /// Request pairing on the connection, then read its next event.
    RequestSecurity,
    /// Read the next event of the connection.
    AwaitConnectionEvent,
    Session(SessionAction),
    /// Close whatever is open, report the failure, and start over.
    Abandon(Failure),
    /// Stop for good.
    Halt,
    /// The event does not concern the loop as it stands.
    Ignore,
}

/// How loudly something is reported.
#[derive(Clone, Copy, Debug, PartialEq, Eq, Structural)]
pub enum Severity {
    Info,
    Warning,
    Error,
}

/// How loudly a failure is reported: a scan that timed out is a warning,
/// every other failure an error.
pub open spec fn failure_severity(failure: Failure) -> Severity {
    if failure == Failure::Timeout {
        Severity::Warning
    } else {
        Severity::Error
    }
}

/// How loudly an action is reported: the failure it gives up on as that
/// failure is, the end of the loop as an error, and every ordinary move as
/// information.
pub open spec fn action_severity(action: Action) -> Severity {
    match action {
        Action::Abandon(failure) => failure_severity(failure),
        Action::Halt => Severity::Error,
        _ => Severity::Info,
    }
}

/// How loudly an action is reported.
pub fn severity(action: &Action) -> (level: Severity)
    ensures
        level == action_severity(*action),
{
    match action {
        Action::Abandon(Failure::Timeout) => Severity::Warning,
        Action::Abandon(_) => Severity::Error,
        Action::Halt => Severity::Error,
        _ => Severity::Info,
    }
}

/// Whether a scan session is open in `stage`.
pub open spec fn scan_session_open(stage: Stage) -> bool {
    stage is AwaitingDevice
}

/// Whether a connection is open in `stage`.
pub open spec fn connection_open(stage: Stage) -> bool {
    stage is Securing || stage is InSession
}

/// Whether the connection that is open in `stage` has been secured.
pub open spec fn connection_secured(stage: Stage) -> bool {
    stage is InSession
}

/// How many links the stage keeps towards a keyboard, attempted or open.
pub open spec fn device_links(stage: Stage) -> nat {
    if stage is Connecting || connection_open(stage) {
        1
    } else {
        0
    }
}

/// How many scan sessions the stage keeps open.
pub open spec fn scan_links(stage: Stage) -> nat {
    if scan_session_open(stage) {
        1
    } else {
        0
    }
}

/// A stage is sound when the session it holds, if it holds one, is not over.
pub open spec fn sound(stage: Stage) -> bool {
    stage matches Stage::InSession(phase) ==> phase !is Closed
}

/// The stage that is reached from `start` by a run of events, oldest first.
pub open spec fn stage_after(start: Stage, events: Seq<Event>) -> Stage
    decreases events.len(),
{
    if events.len() == 0 {
        start
    } else {
        next_stage(stage_after(start, events.drop_last()), events.last())
    }
}

/// The failure that the end of a session stands for.
pub open spec fn session_failure(action: SessionAction) -> Failure {
    match action {
        SessionAction::TearDown(error) => Failure::Session(error),
        _ => Failure::Session(SessionError::Disconnected),
    }
}

/// The stage that follows `stage` on `event`.
pub open spec fn next_stage(stage: Stage, event: Event) -> Stage {
    match (stage, event) {
        (Stage::Halted, _) => Stage::Halted,
        (_, Event::RunnerExited) => Stage::Halted,
        (Stage::Idle, Event::Start) => Stage::OpeningScan,
        (Stage::OpeningScan, Event::ScanOpened) => Stage::AwaitingDevice,
        (Stage::OpeningScan, Event::ScanFailed) => Stage::Idle,
        (Stage::AwaitingDevice, Event::DeviceFound(device)) => Stage::Connecting(device.address),
        (Stage::AwaitingDevice, Event::ScanTimedOut) => Stage::Idle,
        (Stage::Connecting(_), Event::Connected) => Stage::Securing,
        (Stage::Connecting(_), Event::ConnectFailed) => Stage::Idle,
        (Stage::Securing, Event::Connection(event)) => match security_verdict(event) {
            SecurityStep::Secured(_) => Stage::InSession(SessionPhase::CreatingClient),
            SecurityStep::Failed(_) => Stage::Idle,
            SecurityStep::KeepWaiting => Stage::Securing,
        },
        (Stage::InSession(phase), Event::Session(event)) => if next_phase(phase, event)
            is Closed {
            Stage::Idle
        } else {
            Stage::InSession(next_phase(phase, event))
        },
        _ => stage,
    }
}

/// The action that `event` calls for in `stage`.
pub open spec fn reaction(stage: Stage, event: Event) -> Action {
    match (stage, event) {
        (Stage::Halted, _) => Action::Halt,
        (_, Event::RunnerExited) => Action::Halt,
        (Stage::Idle, Event::Start) => Action::OpenScan(scan_defaults()),
        (Stage::OpeningScan, Event::ScanOpened) => Action::AwaitDevice {
            timeout_secs: SCAN_TIMEOUT_SECS,
        },
        (Stage::OpeningScan, Event::ScanFailed) => Action::Abandon(Failure::ScanError),
        (Stage::AwaitingDevice, Event::DeviceFound(device)) => Action::Connect(
            accept_only(device.address),
        ),
        (Stage::AwaitingDevice, Event::ScanTimedOut) => Action::Abandon(Failure::Timeout),
        (Stage::Connecting(_), Event::Connected) => Action::RequestSecurity,
        (Stage::Connecting(_), Event::ConnectFailed) => Action::Abandon(Failure::ConnectError),
        (Stage::Securing, Event::Connection(event)) => match security_verdict(event) {
            SecurityStep::Secured(_) => Action::Session(SessionAction::CreateClient),
            SecurityStep::Failed(error) => Action::Abandon(Failure::Security(error)),
            SecurityStep::KeepWaiting => Action::AwaitConnectionEvent,
        },
        (Stage::InSession(phase), Event::Session(event)) => if next_phase(phase, event)
            is Closed {
            Action::Abandon(session_failure(next_action(phase, event)))
        } else {
            Action::Session(next_action(phase, event))
        },
        _ => Action::Ignore,
    }
}

/// Takes the loop one event further.
pub fn step(stage: Stage, event: Event) -> (next: (Stage, Action))
    ensures
        next.0 == next_stage(stage, event),
        next.1 == reaction(stage, event),
{
    match stage {
        Stage::Halted => (Stage::Halted, Action::Halt),
        _ => match event {
            Event::RunnerExited => (Stage::Halted, Action::Halt),
            Event::Start => match stage {
                Stage::Idle => (Stage::OpeningScan, Action::OpenScan(scan_config())),
                _ => (stage, Action::Ignore),
            },
            Event::ScanOpened => match stage {
                Stage::OpeningScan => (
                    Stage::AwaitingDevice,
                    Action::AwaitDevice { timeout_secs: SCAN_TIMEOUT_SECS },
                ),
                _ => (stage, Action::Ignore),
            },
            Event::ScanFailed => match stage {
                Stage::OpeningScan => (Stage::Idle, Action::Abandon(Failure::ScanError)),
                _ => (stage, Action::Ignore),
            },
            Event::DeviceFound(device) => match stage {
                Stage::AwaitingDevice => (
                    Stage::Connecting(device.address),
                    Action::Connect(connect_config(device.address)),
                ),
                _ => (stage, Action::Ignore),
            },
            Event::ScanTimedOut => match stage {
                Stage::AwaitingDevice => (Stage::Idle, Action::Abandon(Failure::Timeout)),
                _ => (stage, Action::Ignore),
            },
            Event::Connected => match stage {
                Stage::Connecting(_) => (Stage::Securing, Action::RequestSecurity),
                _ => (stage, Action::Ignore),
            },
            Event::ConnectFailed => match stage {
                Stage::Connecting(_) => (Stage::Idle, Action::Abandon(Failure::ConnectError)),
                _ => (stage, Action::Ignore),
            },
            Event::Connection(event) => match stage {
                Stage::Securing => match security_step(&event) {
                    SecurityStep::Secured(_) => (
                        Stage::InSession(SessionPhase::CreatingClient),
                        Action::Session(SessionAction::CreateClient),
                    ),
                    SecurityStep::Failed(error) => (
                        Stage::Idle,
                        Action::Abandon(Failure::Security(error)),
                    ),
                    SecurityStep::KeepWaiting => (Stage::Securing, Action::AwaitConnectionEvent),
                },
                _ => (stage, Action::Ignore),
            },
            Event::Session(event) => match stage {
                Stage::InSession(phase) => {
                    let (phase, action) = session_step(phase, event);
                    match phase {
                        SessionPhase::Closed => match action {
                            SessionAction::TearDown(error) => (
                                Stage::Idle,
                                Action::Abandon(Failure::Session(error)),
                            ),
                            _ => (
                                Stage::Idle,
                                Action::Abandon(Failure::Session(SessionError::Disconnected)),
                            ),
                        },
                        _ => (Stage::InSession(phase), Action::Session(action)),
                    }
                },
                _ => (stage, Action::Ignore),
            },
        },
    }
}

/// Whether one of the two loops of a report session runs in `stage`.
pub open spec fn report_loops_run(stage: Stage) -> bool {
    stage matches Stage::InSession(phase) && (read_loop_runs(phase) || notification_loop_runs(
        phase,
    ))
}

/// A scan session and a connection are never open together.
pub proof fn law_scan_and_connection_exclude_each_other(stage: Stage)
    ensures
        !(scan_session_open(stage) && connection_open(stage)),
{
}

/// There is one link to a keyboard at most and one scan session at most, and
/// together they stay within the links that the host stack reserves.
pub proof fn law_links_stay_within_budget(stage: Stage)
    ensures
        device_links(stage) <= 1,
        scan_links(stage) <= 1,
        device_links(stage) + scan_links(stage) <= CONNECTIONS_MAX,
{
}

/// A session that is over does not linger: from a sound stage every event
/// leads to a sound stage.
pub proof fn law_step_keeps_the_stage_sound(stage: Stage, event: Event)
    requires
        sound(stage),
    ensures
        sound(next_stage(stage, event)),
{
}

/// Whatever happens, in whatever order, the loop that started at its top
/// stands at a sound stage.
pub proof fn law_every_reachable_stage_is_sound(events: Seq<Event>)
    ensures
        sound(stage_after(Stage::Idle, events)),
    decreases events.len(),
{
    if events.len() > 0 {
        law_every_reachable_stage_is_sound(events.drop_last());
        law_step_keeps_the_stage_sound(
            stage_after(Stage::Idle, events.drop_last()),
            events.last(),
        );
    }
}

/// Once the host stack's runner has ended, the loop is stopped whatever else
/// happens afterwards.
pub proof fn law_halt_is_final(before: Seq<Event>, after: Seq<Event>)
    ensures
        stage_after(Stage::Idle, before.push(Event::RunnerExited) + after) == Stage::Halted,
    decreases after.len(),
{
    let halted = before.push(Event::RunnerExited);
    if after.len() == 0 {
        assert(halted + after =~= halted);
        assert(halted.drop_last() =~= before);
    } else {
        assert((halted + after).drop_last() =~= halted + after.drop_last());
        law_halt_is_final(before, after.drop_last());
    }
}

/// The handoff slot is waited on only while a scan session is open and no
/// connection is.
pub proof fn law_slot_is_awaited_only_while_scanning(stage: Stage, event: Event)
    requires
        reaction(stage, event) is AwaitDevice,
    ensures
        scan_session_open(next_stage(stage, event)),
        !connection_open(next_stage(stage, event)),
        reaction(stage, event) == (Action::AwaitDevice { timeout_secs: SCAN_TIMEOUT_SECS }),
{
}

/// A connection is attempted only out of a scan that found a device, with the
/// scan session closed first, and towards that device alone.
pub proof fn law_connection_follows_a_found_device(stage: Stage, event: Event)
    requires
        reaction(stage, event) is Connect,
    ensures
        stage is AwaitingDevice,
        event is DeviceFound,
        !scan_session_open(next_stage(stage, event)),
        next_stage(stage, event) == Stage::Connecting(event->DeviceFound_0.address),
        reaction(stage, event) == Action::Connect(accept_only(event->DeviceFound_0.address)),
{
}

/// A connection comes to be open only as the outcome of a connection attempt.
pub proof fn law_connection_opens_after_an_attempt(stage: Stage, event: Event)
    requires
        !connection_open(stage),
        connection_open(next_stage(stage, event)),
    ensures
        stage is Connecting,
        event is Connected,
{
}

/// A connection counts as secured only from the step in which its pairing
/// completed, and a report session runs on secured connections only.
pub proof fn law_sessions_run_on_secured_connections(stage: Stage, event: Event)
    ensures
        connection_secured(stage) ==> connection_open(stage),
        report_loops_run(stage) ==> connection_secured(stage),
        !connection_secured(stage) && connection_secured(next_stage(stage, event)) ==> stage
            is Securing && event matches Event::Connection(
            ConnectionEvent::PairingComplete { .. },
        ),
{
}

/// Every failure leads back to the top of the loop in one step, with nothing
/// left open, and from there the next scan is opened at once.
pub proof fn law_every_failure_restarts_the_loop(stage: Stage, event: Event)
    requires
        reaction(stage, event) is Abandon,
    ensures
        next_stage(stage, event) == Stage::Idle,
        !scan_session_open(Stage::Idle),
        !connection_open(Stage::Idle),
        next_stage(Stage::Idle, Event::Start) == Stage::OpeningScan,
        reaction(Stage::Idle, Event::Start) == Action::OpenScan(scan_defaults()),
{
}

/// Nothing but the end of the host stack's runner stops the loop, and once it
/// is stopped it stays so.
pub proof fn law_only_the_runner_halts_the_loop(stage: Stage, event: Event)
    ensures
        next_stage(stage, event) is Halted <==> stage is Halted || event is RunnerExited,
        reaction(stage, event) is Halt <==> stage is Halted || event is RunnerExited,
{
}

/// A scan that opens is waited on for the scan timeout and no longer; when the
/// wait runs out the scan ends as a timeout and its session is given up. A
/// second report of the timeout finds nothing to give up.
pub proof fn law_timeout_ends_the_scan()
    ensures
        reaction(Stage::OpeningScan, Event::ScanOpened) == (Action::AwaitDevice {
            timeout_secs: SCAN_TIMEOUT_SECS,
        }),
        next_stage(Stage::AwaitingDevice, Event::ScanTimedOut) == Stage::Idle,
        reaction(Stage::AwaitingDevice, Event::ScanTimedOut) == Action::Abandon(Failure::Timeout),
        next_stage(Stage::Idle, Event::ScanTimedOut) == Stage::Idle,
        reaction(Stage::Idle, Event::ScanTimedOut) == Action::Ignore,
{
}

/// A scan session that cannot be opened ends the attempt like a timeout does.
pub proof fn law_scan_error_restarts_the_loop()
    ensures
        next_stage(Stage::OpeningScan, Event::ScanFailed) == Stage::Idle,
        reaction(Stage::OpeningScan, Event::ScanFailed) == Action::Abandon(Failure::ScanError),
{
}

/// A failed connection attempt ends the attempt at once and is not repeated:
/// no second attempt is made before another scan has found a device.
pub proof fn law_connect_failure_is_not_retried(target: Address, event: Event)
    ensures
        next_stage(Stage::Connecting(target), Event::ConnectFailed) == Stage::Idle,
        reaction(Stage::Connecting(target), Event::ConnectFailed) == Action::Abandon(
            Failure::ConnectError,
        ),
        !(reaction(Stage::Idle, event) is Connect),
        !(next_stage(Stage::Idle, event) is Connecting),
{
}

/// While a pairing is waited for, an event that does not decide it changes
/// nothing, and the event that decides it ends the wait in that step.
pub proof fn law_pairing_is_decided_by_the_first_deciding_event(event: ConnectionEvent)
    ensures
        security_verdict(event) is KeepWaiting ==> next_stage(
            Stage::Securing,
            Event::Connection(event),
        ) == Stage::Securing && reaction(Stage::Securing, Event::Connection(event))
            == Action::AwaitConnectionEvent,
        security_verdict(event) is Secured ==> next_stage(
            Stage::Securing,
            Event::Connection(event),
        ) == Stage::InSession(SessionPhase::CreatingClient),
        security_verdict(event) matches SecurityStep::Failed(error) ==> next_stage(
            Stage::Securing,
            Event::Connection(event),
        ) == Stage::Idle && reaction(Stage::Securing, Event::Connection(event))
            == Action::Abandon(Failure::Security(error)),
{
}

/// A disconnect in the middle of a session stops both loops and reaches the
/// top of the loop in that same step.
pub proof fn law_disconnect_ends_the_session(phase: SessionPhase)
    requires
        phase !is Closed,
    ensures
        next_stage(Stage::InSession(phase), Event::Session(SessionEvent::Disconnected))
            == Stage::Idle,
        reaction(Stage::InSession(phase), Event::Session(SessionEvent::Disconnected))
            == Action::Abandon(Failure::Session(SessionError::Disconnected)),
        !report_loops_run(Stage::Idle),
{
}

} // verus!
