use ble_central::central::{
    BleCentral, Command, Event, GattCharacteristic, PeripheralAdvert, Phase,
};
use ble_central::packet::NotificationPacket;
use ble_central::config::BleConfig;
use ble_central::errors::BleError;
use ble_central::identity::TargetIdentity;
use ble_central::session::SessionState;

const SERVICE: u128 = 42;
const CHARACTERISTIC: u128 = 77;

fn machine(scan_retries: u32) -> BleCentral {
    BleCentral {
        identity: TargetIdentity {
            service_uuid: SERVICE,
            characteristic_uuid: CHARACTERISTIC,
        },
        config: BleConfig {
            scan_retries,
            scan_interval_ms: 100,
            notify_timeout_ms: 200,
            reconnect_backoff_ms: 300,
        },
        session: SessionState::empty(),
        phase: Phase::AcquiringAdapter,
    }
}

fn advert(peripheral: u64, services: Option<Vec<u128>>) -> PeripheralAdvert {
    PeripheralAdvert { peripheral, services }
}

/// Drives a fresh supervisor to the streaming phase.
fn streaming_machine() -> BleCentral {
    let mut m = machine(3);
    let cmd = m.step(Event::AdaptersListed(vec![1]));
    assert!(matches!(cmd, Command::StartScan { adapter: 1, service_uuid: SERVICE }));
    let cmd = m.step(Event::OperationSucceeded);
    assert!(matches!(cmd, Command::ListPeripherals { adapter: 1 }));
    let cmd = m.step(Event::PeripheralsListed(vec![advert(9, Some(vec![SERVICE]))]));
    assert!(matches!(cmd, Command::StopScan { adapter: 1 }));
    let cmd = m.step(Event::OperationSucceeded);
    assert!(matches!(cmd, Command::Connect { peripheral: 9 }));
    let cmd = m.step(Event::OperationSucceeded);
    assert!(matches!(cmd, Command::DiscoverServices { peripheral: 9 }));
    let cmd = m.step(Event::OperationSucceeded);
    assert!(matches!(cmd, Command::ListCharacteristics { peripheral: 9 }));
    let cmd = m.step(Event::CharacteristicsListed(vec![
        GattCharacteristic { id: 4, uuid: 11 },
        GattCharacteristic { id: 5, uuid: CHARACTERISTIC },
    ]));
    assert!(matches!(cmd, Command::OpenStream { peripheral: 9 }));
    let cmd = m.step(Event::OperationSucceeded);
    assert!(matches!(
        cmd,
        Command::Subscribe { peripheral: 9, characteristic: 5 }
    ));
    let cmd = m.step(Event::OperationSucceeded);
    assert!(matches!(cmd, Command::AwaitPacket { timeout_ms: 200 }));
    assert_eq!(m.phase, Phase::Streaming);
    m
}

#[test]
fn no_adapter_fails_and_backs_off() {
    let mut m = machine(3);
    let cmd = m.step(Event::AdaptersListed(vec![]));
    match cmd {
        Command::FailThenBackoff { error, backoff_ms } => {
            assert_eq!(error, BleError::NoAdapter);
            assert_eq!(backoff_ms, 300);
        }
        other => panic!("expected a failure report, got {other:?}"),
    }
    assert_eq!(m.phase, Phase::BackingOff);
    let cmd = m.step(Event::Slept);
    assert!(matches!(cmd, Command::ListAdapters));
    assert_eq!(m.phase, Phase::AcquiringAdapter);
}

#[test]
fn adapter_is_replaced_on_each_acquisition() {
    let mut m = machine(3);
    m.step(Event::AdaptersListed(vec![1]));
    assert_eq!(m.session.adapter, Some(1));
    m.step(Event::TransportFailed(String::from("radio gone")));
    m.step(Event::Slept);
    m.step(Event::AdaptersListed(vec![8, 1]));
    assert_eq!(m.session.adapter, Some(8));
}

#[test]
fn match_on_later_poll_stops_scan_once() {
    let mut m = machine(3);
    m.step(Event::AdaptersListed(vec![1]));
    m.step(Event::OperationSucceeded);
    let mut stop_scans: u32 = 0;
    // Poll 1: nothing discovered yet.
    let cmd = m.step(Event::PeripheralsListed(vec![]));
    assert!(matches!(cmd, Command::Sleep { ms: 100 }));
    let cmd = m.step(Event::Slept);
    assert!(matches!(cmd, Command::ListPeripherals { adapter: 1 }));
    // Poll 2: peripherals, but none advertising the service.
    let cmd = m.step(Event::PeripheralsListed(vec![
        advert(2, None),
        advert(3, Some(vec![7, 8])),
    ]));
    assert!(matches!(cmd, Command::Sleep { ms: 100 }));
    let cmd = m.step(Event::Slept);
    assert!(matches!(cmd, Command::ListPeripherals { adapter: 1 }));
    // Poll 3: two matches; the first one wins.
    let cmd = m.step(Event::PeripheralsListed(vec![
        advert(2, None),
        advert(4, Some(vec![9, SERVICE])),
        advert(6, Some(vec![SERVICE])),
    ]));
    if matches!(cmd, Command::StopScan { .. }) {
        stop_scans += 1;
    }
    assert_eq!(m.session.peripheral, Some(4));
    // The budget of three polls is exhausted; no further poll happens.
    let cmd = m.step(Event::OperationSucceeded);
    assert!(matches!(cmd, Command::Connect { peripheral: 4 }));
    assert_eq!(stop_scans, 1);
}

#[test]
fn exhausted_scan_fails_with_no_peripheral_after_cleanup() {
    let mut m = machine(2);
    m.step(Event::AdaptersListed(vec![1]));
    m.step(Event::OperationSucceeded);
    let cmd = m.step(Event::PeripheralsListed(vec![advert(2, None)]));
    assert!(matches!(cmd, Command::Sleep { ms: 100 }));
    let cmd = m.step(Event::Slept);
    assert!(matches!(cmd, Command::ListPeripherals { adapter: 1 }));
    let cmd = m.step(Event::PeripheralsListed(vec![]));
    assert!(matches!(cmd, Command::Sleep { ms: 100 }));
    // Both polls are spent: the scan is stopped before the stage fails.
    let cmd = m.step(Event::Slept);
    assert!(matches!(cmd, Command::StopScan { adapter: 1 }));
    let cmd = m.step(Event::OperationSucceeded);
    match cmd {
        Command::FailThenBackoff { error, backoff_ms } => {
            assert_eq!(error, BleError::NoPeripheral);
            assert_eq!(backoff_ms, 300);
        }
        other => panic!("expected a failure report, got {other:?}"),
    }
}

#[test]
fn zero_poll_budget_stops_scan_immediately() {
    let mut m = machine(0);
    m.step(Event::AdaptersListed(vec![1]));
    let cmd = m.step(Event::OperationSucceeded);
    assert!(matches!(cmd, Command::StopScan { adapter: 1 }));
    let cmd = m.step(Event::OperationSucceeded);
    assert!(matches!(
        cmd,
        Command::FailThenBackoff { error: BleError::NoPeripheral, backoff_ms: 300 }
    ));
}

#[test]
fn missing_characteristic_fails_before_any_subscribe() {
    let mut m = machine(3);
    m.step(Event::AdaptersListed(vec![1]));
    m.step(Event::OperationSucceeded);
    m.step(Event::PeripheralsListed(vec![advert(9, Some(vec![SERVICE]))]));
    m.step(Event::OperationSucceeded);
    m.step(Event::OperationSucceeded);
    m.step(Event::OperationSucceeded);
    let cmd = m.step(Event::CharacteristicsListed(vec![
        GattCharacteristic { id: 4, uuid: 11 },
        GattCharacteristic { id: 5, uuid: 12 },
    ]));
    match cmd {
        Command::FailThenBackoff { error, backoff_ms } => {
            assert_eq!(error, BleError::NoCharacteristic(CHARACTERISTIC));
            assert_eq!(backoff_ms, 300);
        }
        other => panic!("expected a failure report, got {other:?}"),
    }
    // The failure came from the session: handles are cleared for rediscovery.
    assert_eq!(m.session.peripheral, None);
    assert_eq!(m.session.characteristic, None);
    assert_eq!(m.phase, Phase::BackingOff);
}

#[test]
fn foreign_packet_is_ignored() {
    let mut m = streaming_machine();
    let cmd = m.step(Event::PacketReceived(NotificationPacket {
        characteristic_uuid: 11,
        payload: b"{\"x\":1}".to_vec(),
    }));
    assert!(matches!(cmd, Command::AwaitPacket { timeout_ms: 200 }));
    assert_eq!(m.phase, Phase::Streaming);
}

#[test]
fn malformed_payload_is_logged_and_session_survives() {
    let mut m = streaming_machine();
    let cmd = m.step(Event::PacketReceived(NotificationPacket {
        characteristic_uuid: CHARACTERISTIC,
        payload: b"tru".to_vec(),
    }));
    match cmd {
        Command::LogMalformedThenAwait { text, timeout_ms } => {
            assert_eq!(text, "tru");
            assert_eq!(timeout_ms, 200);
        }
        other => panic!("expected a malformed-payload report, got {other:?}"),
    }
    // Invalid UTF-8 is decoded with replacement characters, not fatally.
    let cmd = m.step(Event::PacketReceived(NotificationPacket {
        characteristic_uuid: CHARACTERISTIC,
        payload: vec![0xFF, 0xFE],
    }));
    match cmd {
        Command::LogMalformedThenAwait { text, timeout_ms } => {
            assert_eq!(text, "\u{FFFD}\u{FFFD}");
            assert_eq!(timeout_ms, 200);
        }
        other => panic!("expected a malformed-payload report, got {other:?}"),
    }
    // The next valid packet is still decoded and emitted.
    let cmd = m.step(Event::PacketReceived(NotificationPacket {
        characteristic_uuid: CHARACTERISTIC,
        payload: b"[1,2]".to_vec(),
    }));
    match cmd {
        Command::EmitThenAwait { value, timeout_ms } => {
            assert_eq!(value, serde_json::from_str::<serde_json::Value>("[1,2]").unwrap());
            assert_eq!(timeout_ms, 200);
        }
        other => panic!("expected an emission, got {other:?}"),
    }
    assert_eq!(m.phase, Phase::Streaming);
}

#[test]
fn idle_timeout_clears_session_and_restarts() {
    let mut m = streaming_machine();
    let cmd = m.step(Event::PacketTimeout);
    assert!(matches!(
        cmd,
        Command::FailThenBackoff { error: BleError::SessionEnded, backoff_ms: 300 }
    ));
    assert_eq!(m.session.peripheral, None);
    assert_eq!(m.session.characteristic, None);
    assert_eq!(m.session.adapter, Some(1));
    assert_eq!(m.phase, Phase::BackingOff);
    let cmd = m.step(Event::Slept);
    assert!(matches!(cmd, Command::ListAdapters));
    assert_eq!(m.phase, Phase::AcquiringAdapter);
}

#[test]
fn stream_closure_ends_session() {
    let mut m = streaming_machine();
    let cmd = m.step(Event::StreamClosed);
    assert!(matches!(
        cmd,
        Command::FailThenBackoff { error: BleError::SessionEnded, backoff_ms: 300 }
    ));
}

#[test]
fn transport_failure_during_connect_keeps_peripheral() {
    let mut m = machine(3);
    m.step(Event::AdaptersListed(vec![1]));
    m.step(Event::OperationSucceeded);
    m.step(Event::PeripheralsListed(vec![advert(9, Some(vec![SERVICE]))]));
    m.step(Event::OperationSucceeded);
    let cmd = m.step(Event::TransportFailed(String::from("connect refused")));
    match cmd {
        Command::FailThenBackoff { error, backoff_ms } => {
            assert_eq!(error, BleError::TransportError(String::from("connect refused")));
            assert_eq!(backoff_ms, 300);
        }
        other => panic!("expected a failure report, got {other:?}"),
    }
    // Only session failures clear the peripheral; a connect failure does not.
    assert_eq!(m.session.peripheral, Some(9));
}

#[test]
fn shutdown_mid_stream_unsubscribes_then_disconnects() {
    let mut m = streaming_machine();
    let cmd = m.step(Event::ShutdownRequested);
    assert!(matches!(
        cmd,
        Command::Unsubscribe { peripheral: 9, characteristic: 5 }
    ));
    let cmd = m.step(Event::OperationSucceeded);
    assert!(matches!(cmd, Command::Disconnect { peripheral: 9 }));
    let cmd = m.step(Event::OperationSucceeded);
    assert!(matches!(cmd, Command::Exit));
    assert_eq!(m.phase, Phase::Terminated);
}

#[test]
fn shutdown_tolerates_absent_state_and_failures() {
    // Nothing held yet: exit outright.
    let mut m = machine(3);
    let cmd = m.step(Event::ShutdownRequested);
    assert!(matches!(cmd, Command::Exit));
    assert_eq!(m.phase, Phase::Terminated);
    // Peripheral held without a characteristic: skip the unsubscribe, and
    // a failing disconnect still terminates.
    let mut m = machine(3);
    m.step(Event::AdaptersListed(vec![1]));
    m.step(Event::OperationSucceeded);
    m.step(Event::PeripheralsListed(vec![advert(9, Some(vec![SERVICE]))]));
    let cmd = m.step(Event::ShutdownRequested);
    assert!(matches!(cmd, Command::Disconnect { peripheral: 9 }));
    let cmd = m.step(Event::TransportFailed(String::from("already gone")));
    assert!(matches!(cmd, Command::Exit));
    assert_eq!(m.phase, Phase::Terminated);
}
