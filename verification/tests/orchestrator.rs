use esp32_tamagotchi::service::ble::advertise_service::AdvertiseError;
use esp32_tamagotchi::service::ble::gatt_service::{
    GattConnectionEvent, GattService, SessionAction,
};
use esp32_tamagotchi::service::ble::notification_characteristics::Notification;
use esp32_tamagotchi::service::ble::orchestrator::{ConnectionSetup, Cycle, Orchestrator, Task};
use esp32_tamagotchi::service::ble::security::{BondInformation, SecurityLevel};
use esp32_tamagotchi::service::ble::storage_service::{
    first_bonded_item, get_first_bonded, ScanStep, StorageAddr, StoreError, StoredBondInformation,
    UpsertStep,
};

fn bond() -> BondInformation {
    BondInformation {
        bd_addr: [0xde, 0xad, 0xbe, 0xef, 0x00, 0x02],
        ltk: 0xfeed,
        security_level: SecurityLevel::Encrypted,
        is_bonded: true,
    }
}

fn greeting() -> [u8; 128] {
    let mut frame = [0_u8; 128];
    frame[..10].copy_from_slice(b"Conectado!");
    frame
}

#[test]
fn boot_without_bonds_is_bondable() {
    let (device, restored) = Orchestrator::boot::<u8>(Ok(None), false);
    assert!(!device.bond_stored);
    assert_eq!(restored, None);
    assert!(device.bondable());
    assert_eq!(
        device.accepted(),
        ConnectionSetup { bondable: true, welcome: None, notifier: false }
    );
}

#[test]
fn boot_with_a_bond_is_not_bondable() {
    let (device, restored) = Orchestrator::boot::<u8>(Ok(Some(bond())), false);
    assert!(device.bond_stored);
    assert_eq!(restored, Some(bond()));
    assert!(!device.bondable());
    assert!(!device.accepted().bondable);
}

#[test]
fn boot_goes_on_when_the_store_fails() {
    let (device, restored) = Orchestrator::boot(Err(7_u8), true);
    assert!(!device.bond_stored);
    assert_eq!(restored, None);
    assert!(device.accepted().bondable);
}

#[test]
fn notification_mode_greets_and_runs_the_notifier() {
    let (device, _) = Orchestrator::boot::<u8>(Ok(None), true);
    assert_eq!(
        device.accepted(),
        ConnectionSetup {
            bondable: true,
            welcome: Some(Notification::Message(greeting())),
            notifier: true,
        }
    );
}

#[test]
fn failed_attempt_starts_the_cycle_over() {
    let (device, _) = Orchestrator::boot::<u8>(Ok(None), false);
    assert_eq!(device.advertise_failed(&AdvertiseError::Start(1_u8)), Cycle::Advertise);
    assert_eq!(device.advertise_failed(&AdvertiseError::Accept(1_u8)), Cycle::Advertise);
    assert_eq!(device.advertise_failed(&AdvertiseError::Attach(1_u8)), Cycle::Advertise);
    assert!(device.bondable());
}

#[test]
fn any_task_that_finishes_first_ends_the_connection() {
    for winner in [Task::Gatt, Task::KeepAlive, Task::Notifier] {
        let (mut device, _) = Orchestrator::boot::<u8>(Ok(None), true);
        assert_eq!(device.race_won(winner, false), Cycle::Advertise);
        assert!(device.bondable());
        assert!(device.notifications);
    }
}

#[test]
fn first_boot_pairs_and_is_bonded_on_the_next_cycle() {
    // boot over a store without records
    let first = match get_first_bonded::<u8>(Ok(())) {
        ScanStep::Read => first_bonded_item::<u8>(Ok(None)),
        ScanStep::Done(answer) => answer,
    };
    let (mut device, restored) = Orchestrator::boot(first, false);
    assert_eq!(restored, None);
    assert!(device.accepted().bondable);

    // a central connects and pairs
    let session = GattService::new();
    let mut bond_stored = device.bond_stored;
    let action = session.handle_gatt_events::<u8>(
        GattConnectionEvent::PairingComplete {
            security_level: SecurityLevel::Encrypted,
            bond: Some(bond()),
        },
        &mut bond_stored,
    );
    let mut upsert = match action {
        SessionAction::Persist(upsert) => upsert,
        other => panic!("unexpected action {:?}", other),
    };
    let mut log: Vec<(StorageAddr, StoredBondInformation)> = Vec::new();
    let outcome = loop {
        match upsert.pending() {
            esp32_tamagotchi::service::ble::storage_service::StoreRequest::Remove(key) => {
                log.retain(|record| record.0 != key)
            }
            esp32_tamagotchi::service::ble::storage_service::StoreRequest::Append(key, value) => {
                log.push((key, value))
            }
        }
        match upsert.resume::<u8>(Ok(())) {
            UpsertStep::Next(next) => upsert = next,
            UpsertStep::Done(outcome) => break outcome,
        }
    };
    assert_eq!(log.len(), 1);
    assert_eq!(
        session.handle_gatt_events(GattConnectionEvent::Stored { outcome }, &mut bond_stored),
        SessionAction::Continue
    );
    assert!(bond_stored);

    // the central disconnects, the cycle starts over
    assert_eq!(
        session.handle_gatt_events::<u8>(
            GattConnectionEvent::Disconnected { reason: 0x13 },
            &mut bond_stored
        ),
        SessionAction::Finish { reason: 0x13 }
    );
    assert_eq!(device.race_won(Task::Gatt, bond_stored), Cycle::Advertise);
    assert!(!device.accepted().bondable);

    // and so does a restart over what was stored
    let (key, value) = log[0];
    let (device, restored) =
        Orchestrator::boot(first_bonded_item::<u8>(Ok(Some((key, value)))), false);
    assert_eq!(restored, Some(bond()));
    assert!(!device.accepted().bondable);
}

#[test]
fn failed_store_leaves_the_device_bondable() {
    let (mut device, _) = Orchestrator::boot::<u8>(Ok(None), false);
    let session = GattService::new();
    let mut bond_stored = device.bond_stored;
    session.handle_gatt_events(
        GattConnectionEvent::Stored { outcome: Err(StoreError::Other(2_u8)) },
        &mut bond_stored,
    );
    device.race_won(Task::Gatt, bond_stored);
    assert!(device.accepted().bondable);
}

#[test]
fn corrupted_region_at_boot_means_no_bonds() {
    let first = match get_first_bonded::<u8>(Err(StoreError::Corrupted)) {
        ScanStep::Read => panic!("a corrupted region is not read"),
        ScanStep::Done(answer) => answer,
    };
    assert_eq!(first, Ok(None));
    let (device, restored) = Orchestrator::boot(first, false);
    assert_eq!(restored, None);
    assert!(device.accepted().bondable);
}
