use esp32_tamagotchi::service::ble::advertise_service::{
    uuid16_le, AdvertiseError, AdvertiseRequest, AdvertiseService, AdvertiseStage, AdvertiseStep,
    AdvertisementParameters, BATTERY, FLAGS, HUMAN_INTERFACE_DEVICE,
};
use trouble_host::prelude::{BR_EDR_NOT_SUPPORTED, LE_GENERAL_DISCOVERABLE};

#[test]
fn payload_of_the_device_name() {
    let service = AdvertiseService::new("Tamagotchi");
    let expected: [u8; 21] = [
        0x02, 0x01, 0x06, // flags
        0x05, 0x02, 0x0f, 0x18, 0x12, 0x18, // battery, human interface device
        0x0b, 0x09, b'T', b'a', b'm', b'a', b'g', b'o', b't', b'c', b'h', b'i',
    ];
    assert_eq!(service.data(), &expected[..]);
}

#[test]
fn payload_of_an_empty_name() {
    let service = AdvertiseService::new("");
    assert_eq!(
        service.data(),
        &[0x02, 0x01, 0x06, 0x05, 0x02, 0x0f, 0x18, 0x12, 0x18, 0x01, 0x09][..]
    );
}

#[test]
fn longest_name_fills_the_advertisement() {
    let name = "abcdefghijklmnopqrst";
    assert_eq!(name.len(), 20);
    assert!(AdvertiseService::fits(name));
    let service = AdvertiseService::new(name);
    assert_eq!(service.data().len(), 31);
    assert_eq!(service.data()[9], 21);
    assert_eq!(service.data()[10], 0x09);
    assert_eq!(&service.data()[11..], name.as_bytes());
}

#[test]
fn name_length_counts_bytes() {
    assert!(AdvertiseService::fits("Tamagotchi"));
    assert!(!AdvertiseService::fits("abcdefghijklmnopqrstu"));
    // ten letters of two bytes each fit, eleven do not
    assert!(AdvertiseService::fits("éééééééééé"));
    assert!(!AdvertiseService::fits("ééééééééééé"));
}

#[test]
fn name_of_two_byte_letters() {
    let service = AdvertiseService::new("Pé");
    assert_eq!(
        service.data(),
        &[0x02, 0x01, 0x06, 0x05, 0x02, 0x0f, 0x18, 0x12, 0x18, 0x04, 0x09, b'P', 0xc3, 0xa9][..]
    );
}

#[test]
fn constants_agree_with_the_host_stack() {
    assert_eq!(FLAGS, LE_GENERAL_DISCOVERABLE | BR_EDR_NOT_SUPPORTED);
    assert_eq!(
        uuid16_le(BATTERY),
        trouble_host::prelude::service::BATTERY.to_le_bytes()
    );
    assert_eq!(
        uuid16_le(HUMAN_INTERFACE_DEVICE),
        trouble_host::prelude::service::HUMAN_INTERFACE_DEVICE.to_le_bytes()
    );
}

#[test]
fn uuid_bytes_are_little_endian() {
    assert_eq!(uuid16_le(0x180f), [0x0f, 0x18]);
    assert_eq!(uuid16_le(0x0001), [0x01, 0x00]);
    assert_eq!(uuid16_le(0xff00), [0x00, 0xff]);
}

#[test]
fn way_to_a_connection() {
    let service = AdvertiseService::new("Tamagotchi");
    let stage = service.advertise();
    assert_eq!(stage, AdvertiseStage::Starting);
    assert_eq!(
        stage.pending(),
        AdvertiseRequest::Start(AdvertisementParameters {
            interval_min_ms: 100,
            interval_max_ms: 200,
            tx_power_dbm: 0,
        })
    );
    let stage = match stage.resume::<u8>(Ok(())) {
        AdvertiseStep::Next(stage) => stage,
        other => panic!("unexpected step {:?}", other),
    };
    assert_eq!(stage.pending(), AdvertiseRequest::Accept);
    let stage = match stage.resume::<u8>(Ok(())) {
        AdvertiseStep::Next(stage) => stage,
        other => panic!("unexpected step {:?}", other),
    };
    assert_eq!(stage.pending(), AdvertiseRequest::Attach);
    assert_eq!(stage.resume::<u8>(Ok(())), AdvertiseStep::Connected);
}

#[test]
fn failure_at_each_stage_is_reported() {
    assert_eq!(
        AdvertiseStage::Starting.resume(Err(1_u8)),
        AdvertiseStep::Failed(AdvertiseError::Start(1))
    );
    assert_eq!(
        AdvertiseStage::Accepting.resume(Err(2_u8)),
        AdvertiseStep::Failed(AdvertiseError::Accept(2))
    );
    assert_eq!(
        AdvertiseStage::Attaching.resume(Err(3_u8)),
        AdvertiseStep::Failed(AdvertiseError::Attach(3))
    );
}
