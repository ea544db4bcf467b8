use ble_central::central::{
    BleCentral, Command, Event, GattCharacteristic, PeripheralAdvert, Phase,
};
use ble_central::packet::NotificationPacket;
use ble_central::errors::BleError;

const SERVICE: &str = "9835D696-923D-44CA-A5EA-D252AE3297B9";
const CHARACTERISTIC: &str = "7AB61943-BBB5-49D6-88C8-96185A98E587";
const SERVICE_UUID: u128 = 0x9835D696_923D_44CA_A5EA_D252AE3297B9;
const CHARACTERISTIC_UUID: u128 = 0x7AB61943_BBB5_49D6_88C8_96185A98E587;

/// One full pass of the pipeline against a simulated transport: one
/// adapter, a matching advertisement on the third poll, a working
/// connect/discover/subscribe, one JSON payload, then silence past the
/// idle timeout, and the retry from the top.
#[test]
fn full_session_round_trip() {
    let mut m = BleCentral::new(SERVICE, CHARACTERISTIC, None).unwrap();
    let cmd = m.start_command();
    assert!(matches!(cmd, Command::ListAdapters));

    let cmd = m.step(Event::AdaptersListed(vec![1]));
    assert!(matches!(
        cmd,
        Command::StartScan { adapter: 1, service_uuid: SERVICE_UUID }
    ));
    let cmd = m.step(Event::OperationSucceeded);
    assert!(matches!(cmd, Command::ListPeripherals { adapter: 1 }));

    // Polls 1 and 2 find nothing; the advertisement appears on poll 3.
    for _ in 0..2 {
        let cmd = m.step(Event::PeripheralsListed(vec![]));
        assert!(matches!(cmd, Command::Sleep { ms: 1000 }));
        let cmd = m.step(Event::Slept);
        assert!(matches!(cmd, Command::ListPeripherals { adapter: 1 }));
    }
    let cmd = m.step(Event::PeripheralsListed(vec![PeripheralAdvert {
        peripheral: 9,
        services: Some(vec![SERVICE_UUID]),
    }]));
    assert!(matches!(cmd, Command::StopScan { adapter: 1 }));

    let cmd = m.step(Event::OperationSucceeded);
    assert!(matches!(cmd, Command::Connect { peripheral: 9 }));
    let cmd = m.step(Event::OperationSucceeded);
    assert!(matches!(cmd, Command::DiscoverServices { peripheral: 9 }));
    let cmd = m.step(Event::OperationSucceeded);
    assert!(matches!(cmd, Command::ListCharacteristics { peripheral: 9 }));
    let cmd = m.step(Event::CharacteristicsListed(vec![GattCharacteristic {
        id: 3,
        uuid: CHARACTERISTIC_UUID,
    }]));
    assert!(matches!(cmd, Command::OpenStream { peripheral: 9 }));
    let cmd = m.step(Event::OperationSucceeded);
    assert!(matches!(
        cmd,
        Command::Subscribe { peripheral: 9, characteristic: 3 }
    ));
    let cmd = m.step(Event::OperationSucceeded);
    assert!(matches!(cmd, Command::AwaitPacket { timeout_ms: 10000 }));

    // One decoded value is emitted.
    let cmd = m.step(Event::PacketReceived(NotificationPacket {
        characteristic_uuid: CHARACTERISTIC_UUID,
        payload: b"{\"x\":1}".to_vec(),
    }));
    match cmd {
        Command::EmitThenAwait { value, timeout_ms } => {
            assert_eq!(
                value,
                serde_json::from_str::<serde_json::Value>("{\"x\":1}").unwrap()
            );
            assert_eq!(value.to_string(), "{\"x\":1}");
            assert_eq!(timeout_ms, 10000);
        }
        other => panic!("expected an emission, got {other:?}"),
    }

    // Silence past the timeout: the session ends and the supervisor
    // retries from the top after the reconnect backoff.
    let cmd = m.step(Event::PacketTimeout);
    assert!(matches!(
        cmd,
        Command::FailThenBackoff { error: BleError::SessionEnded, backoff_ms: 5000 }
    ));
    assert_eq!(m.session.peripheral, None);
    assert_eq!(m.session.characteristic, None);
    let cmd = m.step(Event::Slept);
    assert!(matches!(cmd, Command::ListAdapters));
    assert_eq!(m.phase, Phase::AcquiringAdapter);
}
