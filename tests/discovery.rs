use btleplug::api::UUID;
use idasen::{
    advance, advertises_desk, bind_characteristics, contains_desk, find_characteristic,
    select_desk, DeskError, DiscoveryEvent, DiscoveryStep, Uuid, CONTROL_UUID, POSITION_UUID,
    STATUS_UUID,
};

struct SimPeripheral {
    name: Option<String>,
    connectable: bool,
    uuids: Vec<Uuid>,
}

struct SimTransport {
    adapter: bool,
    peripherals: Vec<SimPeripheral>,
}

/// Runs discovery against the simulated transport, answering each step.
fn run(t: &SimTransport) -> DiscoveryStep {
    let mut step = DiscoveryStep::AcquireAdapter;
    for _ in 0..10 {
        let event = match step {
            DiscoveryStep::AcquireAdapter => DiscoveryEvent::Adapter { present: t.adapter },
            DiscoveryStep::Scan => DiscoveryEvent::Scanned {
                names: t.peripherals.iter().map(|p| p.name.clone()).collect(),
            },
            DiscoveryStep::Connect { peripheral } => DiscoveryEvent::Connected {
                ok: t.peripherals[peripheral].connectable,
            },
            DiscoveryStep::DiscoverCharacteristics { peripheral } => {
                DiscoveryEvent::Characteristics { uuids: t.peripherals[peripheral].uuids.clone() }
            }
            DiscoveryStep::Done { .. } | DiscoveryStep::Failed { .. } => return step,
        };
        step = advance(step, &event);
    }
    panic!("discovery did not end");
}

fn peripheral(name: Option<&str>, uuids: Vec<Uuid>) -> SimPeripheral {
    SimPeripheral { name: name.map(String::from), connectable: true, uuids }
}

fn desk_uuids() -> Vec<Uuid> {
    vec![Uuid::Short(0x2a00), Uuid::Long(POSITION_UUID), Uuid::Long(CONTROL_UUID), Uuid::Long(STATUS_UUID)]
}

#[test]
fn no_desk_named_peripheral_is_not_found() {
    let t = SimTransport {
        adapter: true,
        peripherals: vec![peripheral(Some("Speaker"), desk_uuids()), peripheral(None, desk_uuids())],
    };
    assert_eq!(run(&t), DiscoveryStep::Failed { error: DeskError::DeviceNotFound });
    let empty = SimTransport { adapter: true, peripherals: vec![] };
    assert_eq!(run(&empty), DiscoveryStep::Failed { error: DeskError::DeviceNotFound });
}

#[test]
fn desk_without_status_characteristic_is_refused() {
    let t = SimTransport {
        adapter: true,
        peripherals: vec![peripheral(Some("Desk 4711"), vec![Uuid::Long(CONTROL_UUID)])],
    };
    assert_eq!(run(&t), DiscoveryStep::Failed { error: DeskError::CharacteristicMissing });
}

#[test]
fn desk_without_control_characteristic_is_refused() {
    let t = SimTransport {
        adapter: true,
        peripherals: vec![peripheral(Some("Desk 4711"), vec![Uuid::Long(STATUS_UUID)])],
    };
    assert_eq!(run(&t), DiscoveryStep::Failed { error: DeskError::CharacteristicMissing });
}

#[test]
fn missing_adapter_fails() {
    let t = SimTransport { adapter: false, peripherals: vec![] };
    assert_eq!(run(&t), DiscoveryStep::Failed { error: DeskError::AdapterUnavailable });
}

#[test]
fn refused_connection_fails() {
    let mut p = peripheral(Some("Desk"), desk_uuids());
    p.connectable = false;
    let t = SimTransport { adapter: true, peripherals: vec![p] };
    assert_eq!(run(&t), DiscoveryStep::Failed { error: DeskError::ConnectionFailed });
}

#[test]
fn first_desk_is_chosen_and_bound() {
    let t = SimTransport {
        adapter: true,
        peripherals: vec![
            peripheral(Some("Lamp"), vec![]),
            peripheral(Some("My Desk"), desk_uuids()),
            peripheral(Some("Desk 2"), vec![]),
        ],
    };
    match run(&t) {
        DiscoveryStep::Done { peripheral, session } => {
            assert_eq!(peripheral, 1);
            assert_eq!(session.control(), 2);
            assert_eq!(session.status(), 3);
        }
        other => panic!("unexpected outcome {:?}", other),
    }
}

#[test]
fn out_of_order_event_leaves_step() {
    let step = advance(DiscoveryStep::Scan, &DiscoveryEvent::Connected { ok: true });
    assert_eq!(step, DiscoveryStep::Scan);
}

#[test]
fn name_matching_is_a_case_sensitive_substring() {
    assert!(contains_desk("Desk"));
    assert!(contains_desk("Desk 8532"));
    assert!(contains_desk("My Desk"));
    assert!(contains_desk("ÜberDeskX"));
    assert!(!contains_desk("desk"));
    assert!(!contains_desk("Des"));
    assert!(!contains_desk("D esk"));
    assert!(!contains_desk(""));
    assert!(advertises_desk(&Some("Desk".to_string())));
    assert!(!advertises_desk(&None));
}

#[test]
fn select_desk_picks_first_match() {
    let names = vec![None, Some("Desk A".to_string()), Some("Desk B".to_string())];
    assert_eq!(select_desk(&names), Ok(1));
    assert_eq!(select_desk(&vec![None]), Err(DeskError::DeviceNotFound));
}

#[test]
fn bind_takes_first_of_each_uuid() {
    let uuids = vec![
        Uuid::Long(STATUS_UUID),
        Uuid::Long(CONTROL_UUID),
        Uuid::Long(STATUS_UUID),
        Uuid::Long(CONTROL_UUID),
    ];
    let s = bind_characteristics(&uuids).unwrap();
    assert_eq!(s.control(), 1);
    assert_eq!(s.status(), 0);
    assert_eq!(find_characteristic(&uuids, POSITION_UUID), None);
    assert_eq!(bind_characteristics(&vec![]), Err(DeskError::CharacteristicMissing));
}

#[test]
fn short_uuid_never_matches_long() {
    let uuids = vec![Uuid::Short(0x0002), Uuid::Short(0x0021)];
    assert_eq!(bind_characteristics(&uuids), Err(DeskError::CharacteristicMissing));
}

#[test]
fn uuid_constants_match_wire_bytes() {
    let control = [
        0x8a, 0xf7, 0x15, 0x02, 0x9c, 0x00, 0x49, 0x8a, 0x24, 0x10, 0x8a, 0x33, 0x02, 0x00, 0xfa, 0x99,
    ];
    let status = [
        0x8a, 0xf7, 0x15, 0x02, 0x9c, 0x00, 0x49, 0x8a, 0x24, 0x10, 0x8a, 0x33, 0x21, 0x00, 0xfa, 0x99,
    ];
    let position = [
        0x8a, 0xf7, 0x15, 0x02, 0x9c, 0x00, 0x49, 0x8a, 0x24, 0x10, 0x8a, 0x33, 0x20, 0x00, 0xfa, 0x99,
    ];
    assert_eq!(u128::from_le_bytes(control), CONTROL_UUID);
    assert_eq!(u128::from_le_bytes(status), STATUS_UUID);
    assert_eq!(u128::from_le_bytes(position), POSITION_UUID);
    assert_eq!(UUID::B128(control), UUID::B128(CONTROL_UUID.to_le_bytes()));
}
