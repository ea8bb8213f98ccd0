use hid_central::acquisition::severity;
use hid_central::acquisition::step;
use hid_central::acquisition::Action;
use hid_central::acquisition::Event;
use hid_central::acquisition::Failure;
use hid_central::acquisition::Severity;
use hid_central::acquisition::Stage;
use hid_central::address::Address;
use hid_central::advert::AdvEventKind;
use hid_central::advert::AdvertisementReport;
use hid_central::config::CONNECTIONS_MAX;
use hid_central::config::L2CAP_CHANNELS_MAX;
use hid_central::config::LIVENESS_PERIOD_SECS;
use hid_central::connect::ConnectConfig;
use hid_central::handoff::DiscoveredDevice;
use hid_central::scan::BleHandler;
use hid_central::scan::ScanConfig;
use hid_central::security::ConnectionEvent;
use hid_central::security::SecurityError;
use hid_central::security::SecurityLevel;
use hid_central::session::ReadLoop;
use hid_central::session::SessionAction;
use hid_central::session::SessionError;
use hid_central::session::SessionEvent;
use hid_central::session::SessionPhase;

fn target() -> Address {
    Address::random([0xff, 0xee, 0xdd, 0xcc, 0xbb, 0xaa])
}

fn found() -> Event {
    Event::DeviceFound(DiscoveredDevice { address: target() })
}

fn stages() -> Vec<Stage> {
    vec![
        Stage::Idle,
        Stage::OpeningScan,
        Stage::AwaitingDevice,
        Stage::Connecting(target()),
        Stage::Securing,
        Stage::InSession(SessionPhase::CreatingClient),
        Stage::InSession(SessionPhase::DiscoveringService),
        Stage::InSession(SessionPhase::DiscoveringCharacteristic),
        Stage::InSession(SessionPhase::Subscribing),
        Stage::InSession(SessionPhase::Streaming(ReadLoop::Reading)),
        Stage::InSession(SessionPhase::Streaming(ReadLoop::Waiting)),
        Stage::Halted,
    ]
}

fn events() -> Vec<Event> {
    vec![
        Event::Start,
        Event::ScanOpened,
        Event::ScanFailed,
        found(),
        Event::ScanTimedOut,
        Event::Connected,
        Event::ConnectFailed,
        Event::Connection(ConnectionEvent::PhyUpdated),
        Event::Connection(ConnectionEvent::PairingComplete {
            security_level: SecurityLevel::Encrypted,
            bonded: false,
        }),
        Event::Connection(ConnectionEvent::PairingFailed),
        Event::Connection(ConnectionEvent::Disconnected { reason: 8 }),
        Event::Session(SessionEvent::ClientCreated),
        Event::Session(SessionEvent::ServicesFound { count: 0 }),
        Event::Session(SessionEvent::ServicesFound { count: 1 }),
        Event::Session(SessionEvent::CharacteristicFound),
        Event::Session(SessionEvent::Subscribed),
        Event::Session(SessionEvent::ReadCompleted { value: 1 }),
        Event::Session(SessionEvent::ReadTimerElapsed),
        Event::Session(SessionEvent::Notification(vec![4])),
        Event::Session(SessionEvent::Failed),
        Event::Session(SessionEvent::Disconnected),
        Event::RunnerExited,
    ]
}

fn run(from: Stage, events: Vec<Event>) -> (Stage, Vec<Action>) {
    let mut stage = from;
    let mut actions = Vec::new();
    for event in events {
        let (next, action) = step(stage, event);
        stage = next;
        actions.push(action);
    }
    (stage, actions)
}

#[test]
fn budgets_are_as_configured() {
    assert_eq!(CONNECTIONS_MAX, 2);
    assert_eq!(L2CAP_CHANNELS_MAX, 3);
    assert_eq!(LIVENESS_PERIOD_SECS, 5);
}

#[test]
fn loop_opens_a_scan_first() {
    assert_eq!(
        step(Stage::Idle, Event::Start),
        (
            Stage::OpeningScan,
            Action::OpenScan(ScanConfig { active: true, interval_secs: 3, window_secs: 2 }),
        )
    );
}

#[test]
fn opened_scan_waits_fifteen_seconds_for_a_device() {
    assert_eq!(
        step(Stage::OpeningScan, Event::ScanOpened),
        (Stage::AwaitingDevice, Action::AwaitDevice { timeout_secs: 15 })
    );
}

#[test]
fn scan_that_cannot_be_opened_restarts_the_loop() {
    assert_eq!(
        step(Stage::OpeningScan, Event::ScanFailed),
        (Stage::Idle, Action::Abandon(Failure::ScanError))
    );
}

#[test]
fn timeout_restarts_the_loop_and_is_idempotent() {
    assert_eq!(
        step(Stage::AwaitingDevice, Event::ScanTimedOut),
        (Stage::Idle, Action::Abandon(Failure::Timeout))
    );
    assert_eq!(step(Stage::Idle, Event::ScanTimedOut), (Stage::Idle, Action::Ignore));
    assert_eq!(
        run(Stage::Idle, vec![Event::Start, Event::ScanOpened, Event::ScanTimedOut, Event::ScanTimedOut, Event::Start]).0,
        Stage::OpeningScan
    );
}

#[test]
fn found_device_is_connected_to_and_to_nothing_else() {
    assert_eq!(
        step(Stage::AwaitingDevice, found()),
        (
            Stage::Connecting(target()),
            Action::Connect(ConnectConfig { filter_accept_list: [target()] }),
        )
    );
}

#[test]
fn connect_failure_is_a_connect_error_without_retry() {
    assert_eq!(
        step(Stage::Connecting(target()), Event::ConnectFailed),
        (Stage::Idle, Action::Abandon(Failure::ConnectError))
    );
    for event in events() {
        let (stage, action) = step(Stage::Idle, event);
        assert!(!matches!(stage, Stage::Connecting(_)));
        assert!(!matches!(action, Action::Connect(_)));
    }
}

#[test]
fn connection_is_secured_next() {
    assert_eq!(
        step(Stage::Connecting(target()), Event::Connected),
        (Stage::Securing, Action::RequestSecurity)
    );
}

#[test]
fn pairing_is_waited_for_across_other_events() {
    let (stage, actions) = run(
        Stage::Securing,
        vec![
            Event::Connection(ConnectionEvent::PhyUpdated),
            Event::Connection(ConnectionEvent::DataLengthUpdated),
            Event::Connection(ConnectionEvent::PairingComplete {
                security_level: SecurityLevel::NoEncryption,
                bonded: false,
            }),
        ],
    );
    assert_eq!(stage, Stage::InSession(SessionPhase::CreatingClient));
    assert_eq!(
        actions,
        vec![
            Action::AwaitConnectionEvent,
            Action::AwaitConnectionEvent,
            Action::Session(SessionAction::CreateClient),
        ]
    );
}

#[test]
fn failed_pairing_restarts_the_loop() {
    assert_eq!(
        step(Stage::Securing, Event::Connection(ConnectionEvent::PairingFailed)),
        (Stage::Idle, Action::Abandon(Failure::Security(SecurityError::PairingFailed)))
    );
    assert_eq!(
        step(Stage::Securing, Event::Connection(ConnectionEvent::Disconnected { reason: 0x13 })),
        (Stage::Idle, Action::Abandon(Failure::Security(SecurityError::Disconnected)))
    );
}

#[test]
fn session_failures_restart_the_loop() {
    assert_eq!(
        step(Stage::InSession(SessionPhase::DiscoveringService), Event::Session(SessionEvent::ServicesFound { count: 0 })),
        (Stage::Idle, Action::Abandon(Failure::Session(SessionError::ServiceMissing)))
    );
    assert_eq!(
        step(Stage::InSession(SessionPhase::Subscribing), Event::Session(SessionEvent::Failed)),
        (Stage::Idle, Action::Abandon(Failure::Session(SessionError::Subscription)))
    );
    assert_eq!(
        step(Stage::InSession(SessionPhase::Closed), Event::Session(SessionEvent::Subscribed)),
        (Stage::Idle, Action::Abandon(Failure::Session(SessionError::Disconnected)))
    );
}

#[test]
fn mid_session_disconnect_reaches_the_loop_in_one_step() {
    for reads in [ReadLoop::Reading, ReadLoop::Waiting] {
        assert_eq!(
            step(
                Stage::InSession(SessionPhase::Streaming(reads)),
                Event::Session(SessionEvent::Disconnected)
            ),
            (Stage::Idle, Action::Abandon(Failure::Session(SessionError::Disconnected)))
        );
    }
    assert_eq!(
        step(Stage::Idle, Event::Start).0,
        Stage::OpeningScan
    );
}

#[test]
fn every_abandon_leads_to_the_top_of_the_loop() {
    for stage in stages() {
        for event in events() {
            let (next, action) = step(stage, event);
            if matches!(action, Action::Abandon(_)) {
                assert_eq!(next, Stage::Idle);
            }
        }
    }
}

#[test]
fn runner_exit_is_fatal_everywhere() {
    for stage in stages() {
        assert_eq!(step(stage, Event::RunnerExited), (Stage::Halted, Action::Halt));
    }
    for event in events() {
        assert_eq!(step(Stage::Halted, event), (Stage::Halted, Action::Halt));
    }
    for stage in stages() {
        for event in events() {
            let (next, _) = step(stage, event.clone());
            assert_eq!(
                next == Stage::Halted,
                stage == Stage::Halted || event == Event::RunnerExited
            );
        }
    }
}

#[test]
fn events_out_of_turn_change_nothing() {
    assert_eq!(step(Stage::Idle, Event::Connected), (Stage::Idle, Action::Ignore));
    assert_eq!(step(Stage::Idle, found()), (Stage::Idle, Action::Ignore));
    assert_eq!(step(Stage::Securing, found()), (Stage::Securing, Action::Ignore));
    assert_eq!(step(Stage::Securing, Event::Start), (Stage::Securing, Action::Ignore));
    assert_eq!(
        step(Stage::Connecting(target()), Event::ScanTimedOut),
        (Stage::Connecting(target()), Action::Ignore)
    );
    assert_eq!(
        step(Stage::AwaitingDevice, Event::Connection(ConnectionEvent::PairingFailed)),
        (Stage::AwaitingDevice, Action::Ignore)
    );
}

#[test]
fn timeouts_warn_and_other_failures_are_errors() {
    assert_eq!(severity(&Action::Abandon(Failure::Timeout)), Severity::Warning);
    assert_eq!(severity(&Action::Abandon(Failure::ScanError)), Severity::Error);
    assert_eq!(severity(&Action::Abandon(Failure::ConnectError)), Severity::Error);
    assert_eq!(
        severity(&Action::Abandon(Failure::Security(SecurityError::PairingFailed))),
        Severity::Error
    );
    assert_eq!(
        severity(&Action::Abandon(Failure::Session(SessionError::Disconnected))),
        Severity::Error
    );
    assert_eq!(severity(&Action::Halt), Severity::Error);
    assert_eq!(severity(&Action::RequestSecurity), Severity::Info);
    assert_eq!(severity(&Action::AwaitDevice { timeout_secs: 15 }), Severity::Info);
    assert_eq!(severity(&Action::Session(SessionAction::Read)), Severity::Info);
    assert_eq!(severity(&Action::Ignore), Severity::Info);
}

#[test]
fn keyboard_is_acquired_end_to_end() {
    // The advertisement: one list of 16-bit service UUIDs that holds the HID
    // service, from AA:BB:CC:DD:EE:FF, a random address.
    let mut handler = BleHandler::new();
    let (stage, action) = step(Stage::Idle, Event::Start);
    assert!(matches!(action, Action::OpenScan(_)));
    let (stage, action) = step(stage, Event::ScanOpened);
    assert_eq!(action, Action::AwaitDevice { timeout_secs: 15 });
    handler.handle_reports(&vec![Some(AdvertisementReport {
        source_address: target(),
        event_kind: AdvEventKind::AdvInd,
        raw_payload: vec![0x03, 0x03, 0x12, 0x18],
    })]);
    let device = handler.take_device().unwrap();
    assert_eq!(device.address, target());

    let (stage, action) = step(stage, Event::DeviceFound(device));
    assert_eq!(action, Action::Connect(ConnectConfig { filter_accept_list: [target()] }));
    let (stage, action) = step(stage, Event::Connected);
    assert_eq!(action, Action::RequestSecurity);
    let (stage, action) = step(
        stage,
        Event::Connection(ConnectionEvent::PairingComplete {
            security_level: SecurityLevel::EncryptedAuthenticated,
            bonded: false,
        }),
    );
    assert_eq!(action, Action::Session(SessionAction::CreateClient));

    let (stage, actions) = run(
        stage,
        vec![
            Event::Session(SessionEvent::ClientCreated),
            Event::Session(SessionEvent::ServicesFound { count: 1 }),
            Event::Session(SessionEvent::CharacteristicFound),
            Event::Session(SessionEvent::Subscribed),
            Event::Session(SessionEvent::ReadCompleted { value: 0 }),
            Event::Session(SessionEvent::Notification(vec![0x04])),
            Event::Session(SessionEvent::ReadTimerElapsed),
            Event::Session(SessionEvent::ReadCompleted { value: 4 }),
        ],
    );
    assert_eq!(stage, Stage::InSession(SessionPhase::Streaming(ReadLoop::Waiting)));
    assert_eq!(
        actions,
        vec![
            Action::Session(SessionAction::DiscoverService { uuid: 0x1812 }),
            Action::Session(SessionAction::DiscoverCharacteristic { service_index: 0, uuid: 0x2a4d }),
            Action::Session(SessionAction::Subscribe { notifications: true, indications: false }),
            Action::Session(SessionAction::StartLoops),
            Action::Session(SessionAction::ReportRead { value: 0, next_read_in_secs: 10 }),
            Action::Session(SessionAction::ReportNotification(vec![0x04])),
            Action::Session(SessionAction::Read),
            Action::Session(SessionAction::ReportRead { value: 4, next_read_in_secs: 10 }),
        ]
    );
    let notifications: Vec<&Action> = actions
        .iter()
        .filter(|a| matches!(a, Action::Session(SessionAction::ReportNotification(_))))
        .collect();
    assert_eq!(notifications, vec![&Action::Session(SessionAction::ReportNotification(vec![4]))]);
}
