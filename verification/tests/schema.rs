use coa_gatt::gatt::CharacteristicId;
use coa_gatt::gatt::GET_TICKETS_HANDLE;
use coa_gatt::gatt::POST_LOGIN_HANDLE;
use coa_gatt::gatt::POST_TICKETS_HANDLE;
use coa_gatt::gatt::ServiceTable;
use coa_gatt::gatt::StoreError;
use coa_gatt::gatt::TEMPERATURE_HANDLE;
use coa_gatt::gatt::characteristic_for_handle;
use coa_gatt::gatt::characteristic_uuid;
use coa_gatt::gatt::handle_of;
use coa_gatt::gatt::props_of;
use coa_gatt::gatt::resolve_wire_handle;
use coa_gatt::gatt::value_len;

const ALL: [CharacteristicId; 4] = [
    CharacteristicId::Temperature,
    CharacteristicId::GetTickets,
    CharacteristicId::PostTickets,
    CharacteristicId::PostLogin,
];

#[test]
fn every_handle_resolves_back_to_its_characteristic() {
    for id in ALL {
        assert_eq!(characteristic_for_handle(handle_of(id)), Some(id));
    }
    assert_eq!(characteristic_for_handle(0x42), None);
}

#[test]
fn handles_are_pairwise_distinct() {
    let hs = [
        TEMPERATURE_HANDLE,
        GET_TICKETS_HANDLE,
        POST_TICKETS_HANDLE,
        POST_LOGIN_HANDLE,
    ];
    for i in 0..hs.len() {
        for j in 0..hs.len() {
            if i != j {
                assert_ne!(hs[i], hs[j]);
            }
        }
    }
}

#[test]
fn value_buffers_have_their_declared_widths() {
    assert_eq!(value_len(CharacteristicId::Temperature), 1);
    assert_eq!(value_len(CharacteristicId::GetTickets), 20);
    assert_eq!(value_len(CharacteristicId::PostTickets), 20);
    assert_eq!(value_len(CharacteristicId::PostLogin), 128);
}

#[test]
fn capability_sets_follow_the_schema() {
    let t = props_of(CharacteristicId::Temperature);
    assert!(t.read && !t.write && t.notify);
    let g = props_of(CharacteristicId::GetTickets);
    assert!(g.read && !g.write && g.notify);
    let p = props_of(CharacteristicId::PostTickets);
    assert!(p.read && p.write && !p.notify);
    let l = props_of(CharacteristicId::PostLogin);
    assert!(l.read && l.write && l.notify);
}

#[test]
fn characteristic_uuids_share_the_suffix_and_differ_in_front() {
    for id in ALL {
        let u = characteristic_uuid(id);
        assert_eq!(u.len(), 16);
        assert_eq!(&u[1..6], &[0x00, 0xcb, 0xcc, 0x2b, 0xfd]);
        assert_eq!(&u[6..], &[0u8; 10]);
    }
    assert_eq!(characteristic_uuid(CharacteristicId::Temperature)[0], 0x01);
    assert_eq!(characteristic_uuid(CharacteristicId::GetTickets)[0], 0x0a);
    assert_eq!(characteristic_uuid(CharacteristicId::PostTickets)[0], 0x0b);
    assert_eq!(characteristic_uuid(CharacteristicId::PostLogin)[0], 0x06);
}

#[test]
fn wire_handles_resolve_to_their_characteristics() {
    // the protocol layer assigned 21, 23, 25, 27 at registration
    assert_eq!(resolve_wire_handle(21, 21, 23, 25, 27), Some(CharacteristicId::Temperature));
    assert_eq!(resolve_wire_handle(23, 21, 23, 25, 27), Some(CharacteristicId::GetTickets));
    assert_eq!(resolve_wire_handle(25, 21, 23, 25, 27), Some(CharacteristicId::PostTickets));
    assert_eq!(resolve_wire_handle(27, 21, 23, 25, 27), Some(CharacteristicId::PostLogin));
    assert_eq!(resolve_wire_handle(99, 21, 23, 25, 27), None);
}

#[test]
fn new_table_is_zero_filled() {
    let t = ServiceTable::new();
    assert_eq!(t.read_value(CharacteristicId::Temperature), vec![0]);
    assert_eq!(t.read_value(CharacteristicId::GetTickets), vec![0; 20]);
    assert_eq!(t.read_value(CharacteristicId::PostTickets), vec![0; 20]);
    assert_eq!(t.read_value(CharacteristicId::PostLogin), vec![0; 128]);
}

#[test]
fn store_of_the_wrong_width_is_rejected_and_changes_nothing() {
    let mut t = ServiceTable::new();
    let e = t.write_value(CharacteristicId::GetTickets, &vec![1, 2, 3]).unwrap_err();
    assert_eq!(e, StoreError::SizeMismatch);
    assert_eq!(t.read_value(CharacteristicId::GetTickets), vec![0; 20]);
}

#[test]
fn store_of_the_declared_width_replaces_the_value() {
    let mut t = ServiceTable::new();
    t.write_value(CharacteristicId::GetTickets, &vec![9; 20]).unwrap();
    assert_eq!(t.read_value(CharacteristicId::GetTickets), vec![9; 20]);
}
