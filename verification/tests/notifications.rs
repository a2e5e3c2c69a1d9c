use esp32_tamagotchi::service::ble::notification_characteristics::{
    Notification, NotificationCharacteristics, TamagotchiStatus,
};
use esp32_tamagotchi::service::ble::notification_service::{
    NotificationService, NotifyError, ReportStage, ReportStep, StatusReport,
};
use esp32_tamagotchi::service::ble::orchestrator::StatusRotation;
use trouble_host::prelude::AsGatt;

fn frame_of(text: &[u8]) -> [u8; 128] {
    let mut frame = [0_u8; 128];
    frame[..text.len()].copy_from_slice(text);
    frame
}

#[test]
fn message_is_padded_with_zeros() {
    assert_eq!(
        NotificationService::send_message::<u8>(b"Conectado!"),
        Ok(Notification::Message(frame_of(b"Conectado!")))
    );
    assert_eq!(
        NotificationService::send_message::<u8>(b""),
        Ok(Notification::Message([0; 128]))
    );
}

#[test]
fn message_of_128_bytes_is_sent_whole() {
    let text = [0x41_u8; 128];
    assert_eq!(
        NotificationService::send_message::<u8>(&text),
        Ok(Notification::Message(text))
    );
}

#[test]
fn message_of_129_bytes_is_refused() {
    let text = [0x41_u8; 129];
    assert_eq!(
        NotificationService::send_message::<u8>(&text),
        Err(NotifyError::InvalidValue)
    );
}

#[test]
fn counter_and_status_notifications() {
    assert_eq!(
        NotificationService::send_counter(0xdead_beef),
        Notification::Counter(0xdead_beef)
    );
    assert_eq!(NotificationService::send_status(5), Notification::Status(5));
}

#[test]
fn delivery_reports_the_link_failure() {
    assert_eq!(NotificationService::sent::<u8>(Ok(())), Ok(()));
    assert_eq!(NotificationService::sent(Err(4_u8)), Err(NotifyError::Link(4)));
}

#[test]
fn status_texts() {
    assert_eq!(TamagotchiStatus::Happy.as_message(), b"Estou feliz!");
    assert_eq!(TamagotchiStatus::Hungry.as_message(), b"Com fome...");
    assert_eq!(TamagotchiStatus::Tired.as_message(), b"Cansado...");
    assert_eq!(TamagotchiStatus::Sick.as_message(), b"Doente :(");
    assert_eq!(TamagotchiStatus::Playing.as_message(), b"Brincando!");
    assert_eq!(TamagotchiStatus::Sleeping.as_message(), b"Dormindo zzz");
}

#[test]
fn status_codes() {
    let all = [
        TamagotchiStatus::Happy,
        TamagotchiStatus::Hungry,
        TamagotchiStatus::Tired,
        TamagotchiStatus::Sick,
        TamagotchiStatus::Playing,
        TamagotchiStatus::Sleeping,
    ];
    for (code, status) in all.iter().enumerate() {
        assert_eq!(status.as_u8() as usize, code);
        assert_eq!(TamagotchiStatus::from_u8(code as u8), *status);
    }
    assert_eq!(TamagotchiStatus::from_u8(6), TamagotchiStatus::Happy);
    assert_eq!(TamagotchiStatus::from_u8(11), TamagotchiStatus::Sleeping);
}

#[test]
fn report_sends_code_then_text() {
    let report = NotificationService::send_tamagotchi_status(TamagotchiStatus::Sick);
    assert_eq!(report.pending(), Notification::Status(3));
    let report = match report.resume::<u8>(Ok(())) {
        ReportStep::Next(report) => report,
        other => panic!("unexpected step {:?}", other),
    };
    assert_eq!(
        report,
        StatusReport { status: TamagotchiStatus::Sick, stage: ReportStage::Text }
    );
    assert_eq!(report.pending(), Notification::Message(frame_of(b"Doente :(")));
    assert_eq!(report.resume::<u8>(Ok(())), ReportStep::Done(Ok(())));
}

#[test]
fn report_stops_at_the_first_failure() {
    let report = NotificationService::send_tamagotchi_status(TamagotchiStatus::Happy);
    assert_eq!(
        report.resume(Err(8_u8)),
        ReportStep::Done(Err(NotifyError::Link(8)))
    );
    let text = StatusReport { status: TamagotchiStatus::Happy, stage: ReportStage::Text };
    assert_eq!(
        text.resume(Err(9_u8)),
        ReportStep::Done(Err(NotifyError::Link(9)))
    );
}

#[test]
fn rotation_reports_on_every_other_tick() {
    let mut rotation = StatusRotation::new();
    let mut codes = Vec::new();
    let mut texts = Vec::new();
    for tick in 0..32 {
        match rotation.tick() {
            Some(status) => {
                assert_eq!(tick % 2, 0);
                let report = NotificationService::send_tamagotchi_status(status);
                match report.pending() {
                    Notification::Status(code) => codes.push(code),
                    other => panic!("unexpected notification {:?}", other),
                }
                match report.resume::<u8>(Ok(())) {
                    ReportStep::Next(text) => texts.push(text.pending()),
                    other => panic!("unexpected step {:?}", other),
                }
            }
            None => assert_eq!(tick % 2, 1),
        }
    }
    assert_eq!(codes, vec![0, 1, 2, 3, 4, 5, 0, 1, 2, 3, 4, 5, 0, 1, 2, 3]);
    assert_eq!(texts[0], Notification::Message(frame_of(b"Estou feliz!")));
    assert_eq!(texts[5], Notification::Message(frame_of(b"Dormindo zzz")));
    assert_eq!(texts[6], Notification::Message(frame_of(b"Estou feliz!")));
    assert_eq!(texts[7], Notification::Message(frame_of(b"Com fome...")));
}

#[test]
fn characteristics_hold_the_last_value_pushed() {
    let mut values = NotificationCharacteristics::new();
    assert_eq!(values.message, [0; 128]);
    assert_eq!(values.counter, 0);
    assert_eq!(values.tamagotchi_status, 0);
    values.record(&Notification::Counter(7));
    values.record(&Notification::Status(4));
    assert_eq!(values.counter, 7);
    assert_eq!(values.tamagotchi_status, 4);
    assert_eq!(values.message, [0; 128]);
    values.record(&Notification::Message(frame_of(b"Brincando!")));
    assert_eq!(values.message, frame_of(b"Brincando!"));
    assert_eq!(values.counter, 7);
}

#[test]
fn frames_have_fixed_widths() {
    let text = Notification::Message(frame_of(b"Com fome..."));
    assert_eq!(text.encode().len(), 128);
    assert_eq!(&text.encode()[..11], b"Com fome...");
    assert!(text.encode()[11..].iter().all(|byte| *byte == 0));
    assert_eq!(Notification::Counter(0x0102_0304).encode(), vec![4, 3, 2, 1]);
    assert_eq!(Notification::Counter(0).encode(), vec![0, 0, 0, 0]);
    assert_eq!(Notification::Status(5).encode(), vec![5]);
}

#[test]
fn frames_agree_with_the_host_stack() {
    for value in [0_u32, 1, 0xff, 0x100, 0xdead_beef, u32::MAX] {
        assert_eq!(Notification::Counter(value).encode(), value.as_gatt());
    }
    for status in [0_u8, 5, 0xff] {
        assert_eq!(Notification::Status(status).encode(), status.as_gatt());
    }
    let frame = frame_of(b"Brincando!");
    assert_eq!(Notification::Message(frame).encode(), frame.as_gatt());
}
