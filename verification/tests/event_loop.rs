use coa_gatt::events::GattEvent;
use coa_gatt::events::handle_event;
use coa_gatt::events::process_until_disconnect;
use coa_gatt::gatt::CharacteristicId;
use coa_gatt::gatt::GET_TICKETS_HANDLE;
use coa_gatt::gatt::POST_LOGIN_HANDLE;
use coa_gatt::gatt::POST_TICKETS_HANDLE;
use coa_gatt::gatt::ServiceTable;
use coa_gatt::gatt::TEMPERATURE_HANDLE;

fn ack_128() -> Vec<u8> {
    let mut v = b"200 OK /PostLogin".to_vec();
    v.resize(128, 0);
    v
}

#[test]
fn login_write_stores_and_notifies_fixed_ack() {
    let mut t = ServiceTable::new();
    let out = handle_event(
        &mut t,
        &GattEvent::Write { handle: POST_LOGIN_HANDLE, data: b"hello".to_vec() },
    );
    assert!(out.reply);
    assert_eq!(out.disconnect_reason, None);
    assert_eq!(t.read_value(CharacteristicId::PostLogin), ack_128());
    let n = out.notify.unwrap();
    assert!(matches!(n.characteristic, CharacteristicId::PostLogin));
    assert_eq!(n.payload, ack_128());
    assert_eq!(out.login_text, Some(true));
}

#[test]
fn login_ack_is_independent_of_input() {
    let inputs = vec![Vec::new(), vec![0x41u8; 128], b"x".to_vec()];
    for data in inputs {
        let mut t = ServiceTable::new();
        let out = handle_event(&mut t, &GattEvent::Write { handle: POST_LOGIN_HANDLE, data });
        assert_eq!(t.read_value(CharacteristicId::PostLogin), ack_128());
        assert_eq!(out.notify.unwrap().payload, ack_128());
    }
}

#[test]
fn login_write_reports_whether_payload_decoded_as_text() {
    let mut t = ServiceTable::new();
    let out = handle_event(
        &mut t,
        &GattEvent::Write { handle: POST_LOGIN_HANDLE, data: b"hello".to_vec() },
    );
    assert_eq!(out.login_text, Some(true));
    let out = handle_event(
        &mut t,
        &GattEvent::Write { handle: POST_LOGIN_HANDLE, data: vec![0xff, 0xfe] },
    );
    assert_eq!(out.login_text, Some(false));
}

#[test]
fn long_ticket_write_truncates_to_twenty_bytes() {
    let mut t = ServiceTable::new();
    let data: Vec<u8> = (1..=30).collect();
    handle_event(&mut t, &GattEvent::Write { handle: POST_TICKETS_HANDLE, data });
    let expected: Vec<u8> = (1..=20).collect();
    assert_eq!(t.read_value(CharacteristicId::PostTickets), expected);
}

#[test]
fn short_ticket_write_zero_fills_the_buffer() {
    let mut t = ServiceTable::new();
    handle_event(
        &mut t,
        &GattEvent::Write { handle: POST_TICKETS_HANDLE, data: vec![7, 8, 9] },
    );
    let mut expected = vec![7, 8, 9];
    expected.resize(20, 0);
    assert_eq!(t.read_value(CharacteristicId::PostTickets), expected);
}

#[test]
fn temperature_write_stores_the_first_byte() {
    let mut t = ServiceTable::new();
    let out = handle_event(
        &mut t,
        &GattEvent::Write { handle: TEMPERATURE_HANDLE, data: vec![42, 99] },
    );
    assert!(out.reply);
    assert_eq!(t.read_value(CharacteristicId::Temperature), vec![42]);
}

#[test]
fn empty_temperature_write_stores_nothing() {
    let mut t = ServiceTable::new();
    let out = handle_event(
        &mut t,
        &GattEvent::Write { handle: TEMPERATURE_HANDLE, data: Vec::new() },
    );
    assert!(out.reply);
    assert_eq!(t.read_value(CharacteristicId::Temperature), vec![0]);
}

#[test]
fn read_event_changes_nothing_and_is_replied_to() {
    let mut t = ServiceTable::new();
    let out = handle_event(&mut t, &GattEvent::Read { handle: POST_LOGIN_HANDLE });
    assert!(out.reply);
    assert!(out.notify.is_none());
    assert_eq!(out.disconnect_reason, None);
    assert_eq!(t.read_value(CharacteristicId::PostLogin), vec![0; 128]);
}

#[test]
fn write_to_outbound_ticket_channel_stores_nothing() {
    let mut t = ServiceTable::new();
    let out = handle_event(
        &mut t,
        &GattEvent::Write { handle: GET_TICKETS_HANDLE, data: vec![1, 2, 3] },
    );
    assert!(out.reply);
    assert_eq!(t.read_value(CharacteristicId::GetTickets), vec![0; 20]);
}

#[test]
fn write_to_unknown_handle_stores_nothing() {
    let mut t = ServiceTable::new();
    let out = handle_event(&mut t, &GattEvent::Write { handle: 0x42, data: vec![1] });
    assert!(out.reply);
    assert_eq!(t.read_value(CharacteristicId::Temperature), vec![0]);
    assert_eq!(t.read_value(CharacteristicId::GetTickets), vec![0; 20]);
    assert_eq!(t.read_value(CharacteristicId::PostTickets), vec![0; 20]);
    assert_eq!(t.read_value(CharacteristicId::PostLogin), vec![0; 128]);
}

#[test]
fn disconnect_exits_without_reply() {
    let mut t = ServiceTable::new();
    let out = handle_event(&mut t, &GattEvent::Disconnected { reason: 0x13 });
    assert!(!out.reply);
    assert_eq!(out.disconnect_reason, Some(0x13));
    assert!(out.notify.is_none());
}

#[test]
fn disconnect_mid_sequence_stops_the_loop() {
    let mut t = ServiceTable::new();
    let events = vec![
        GattEvent::Write { handle: POST_TICKETS_HANDLE, data: vec![5; 20] },
        GattEvent::Disconnected { reason: 8 },
        GattEvent::Write { handle: TEMPERATURE_HANDLE, data: vec![9] },
    ];
    let reason = process_until_disconnect(&mut t, &events);
    assert_eq!(reason, Some(8));
    assert_eq!(t.read_value(CharacteristicId::PostTickets), vec![5; 20]);
    // the write delivered after the disconnect was never processed
    assert_eq!(t.read_value(CharacteristicId::Temperature), vec![0]);
}

#[test]
fn event_stream_without_disconnect_processes_everything() {
    let mut t = ServiceTable::new();
    let events = vec![
        GattEvent::Write { handle: TEMPERATURE_HANDLE, data: vec![21] },
        GattEvent::Other,
        GattEvent::Read { handle: TEMPERATURE_HANDLE },
        GattEvent::Write { handle: POST_LOGIN_HANDLE, data: b"user".to_vec() },
    ];
    let reason = process_until_disconnect(&mut t, &events);
    assert_eq!(reason, None);
    assert_eq!(t.read_value(CharacteristicId::Temperature), vec![21]);
    assert_eq!(t.read_value(CharacteristicId::PostLogin), ack_128());
}
