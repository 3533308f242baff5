use coa_gatt::addr::AddressError;
use coa_gatt::addr::DeviceAddress;

#[test]
fn parses_well_formed_lowercase_address() {
    let a = DeviceAddress::parse(b"ef:cd:ab:89:67:45").unwrap();
    assert_eq!(a.octets(), vec![0xef, 0xcd, 0xab, 0x89, 0x67, 0x45]);
}

#[test]
fn parses_well_formed_uppercase_address() {
    let a = DeviceAddress::parse(b"EF:CD:AB:89:67:45").unwrap();
    assert_eq!(a.octets(), vec![0xef, 0xcd, 0xab, 0x89, 0x67, 0x45]);
}

#[test]
fn parses_mixed_case_and_digits() {
    let a = DeviceAddress::parse(b"0A:1b:2C:3d:4E:5f").unwrap();
    assert_eq!(a.octets(), vec![0x0a, 0x1b, 0x2c, 0x3d, 0x4e, 0x5f]);
}

#[test]
fn displayed_order_is_byte_reversed() {
    let a = DeviceAddress::parse(b"ef:cd:ab:89:67:45").unwrap();
    assert_eq!(a.reversed_octets(), vec![0x45, 0x67, 0x89, 0xab, 0xcd, 0xef]);
}

#[test]
fn rejects_too_few_octets() {
    let e = DeviceAddress::parse(b"ef:cd:ab:89:67").unwrap_err();
    assert_eq!(e, AddressError::WrongLength);
}

#[test]
fn rejects_too_many_octets() {
    let e = DeviceAddress::parse(b"ef:cd:ab:89:67:45:23").unwrap_err();
    assert_eq!(e, AddressError::WrongLength);
}

#[test]
fn rejects_empty_string() {
    let e = DeviceAddress::parse(b"").unwrap_err();
    assert_eq!(e, AddressError::WrongLength);
}

#[test]
fn rejects_non_hex_digit() {
    let e = DeviceAddress::parse(b"ef:cd:ab:89:67:4g").unwrap_err();
    assert_eq!(e, AddressError::InvalidFormat);
}

#[test]
fn rejects_misplaced_separator() {
    let e = DeviceAddress::parse(b"ef:cd:ab:89:6745:").unwrap_err();
    assert_eq!(e, AddressError::InvalidFormat);
}

#[test]
fn rejects_one_digit_octets() {
    let e = DeviceAddress::parse(b"e:c:a:8:6:4:1:2:3").unwrap_err();
    assert_eq!(e, AddressError::InvalidFormat);
}
