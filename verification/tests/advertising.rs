use coa_gatt::adv::AdStructure;
use coa_gatt::adv::AdvError;
use coa_gatt::adv::build_advertising_payload;
use coa_gatt::adv::build_scan_response;
use coa_gatt::adv::encode_ad_structures;
use coa_gatt::adv::service_uuid;
use trouble_host::advertise::AdStructure as HostAd;

const SERVICE_UUID_LE: [u8; 16] = [
    0x00, 0x00, 0x7a, 0xe7, 0x0b, 0xeb, 0x2f, 0xa6, 0x15, 0x4a, 0x0f, 0xaa, 0x48, 0x44, 0x2b,
    0xfd,
];

#[test]
fn advertising_payload_has_flags_then_service_uuid() {
    let p = build_advertising_payload();
    let mut expected = vec![0x02, 0x01, 0x06, 0x11, 0x07];
    expected.extend_from_slice(&SERVICE_UUID_LE);
    assert_eq!(p, expected);
    assert_eq!(p.len(), 21);
    assert!(p.len() <= 31);
}

#[test]
fn scan_response_has_name_then_vendor_entry() {
    let p = build_scan_response(&b"COW GATT".to_vec(), &Vec::new()).unwrap();
    let mut expected = vec![9, 0x09];
    expected.extend_from_slice(b"COW GATT");
    expected.extend_from_slice(&[3, 0xff, 0x45, 0x02]);
    assert_eq!(p, expected);
    assert!(p.len() <= 31);
}

#[test]
fn scan_response_carries_vendor_payload() {
    let p = build_scan_response(&b"COW".to_vec(), &vec![1, 2, 3]).unwrap();
    let mut expected = vec![4, 0x09];
    expected.extend_from_slice(b"COW");
    expected.extend_from_slice(&[6, 0xff, 0x45, 0x02, 1, 2, 3]);
    assert_eq!(p, expected);
}

#[test]
fn scan_response_fails_explicitly_when_name_overflows() {
    let name = vec![b'x'; 26];
    let e = build_scan_response(&name, &Vec::new()).unwrap_err();
    assert_eq!(e, AdvError::DoesNotFit);
}

#[test]
fn scan_response_fills_the_limit_exactly() {
    let name = vec![b'x'; 25];
    let p = build_scan_response(&name, &Vec::new()).unwrap();
    assert_eq!(p.len(), 31);
}

#[test]
fn empty_structure_list_encodes_to_nothing() {
    let p = encode_ad_structures(&Vec::new()).unwrap();
    assert!(p.is_empty());
}

#[test]
fn oversized_single_structure_is_rejected() {
    let ads = vec![AdStructure::CompleteLocalName(vec![b'x'; 40])];
    let e = encode_ad_structures(&ads).unwrap_err();
    assert_eq!(e, AdvError::DoesNotFit);
}

#[test]
fn encoding_matches_the_radio_stacks_encoder() {
    let uuid: [u8; 16] = service_uuid().try_into().unwrap();
    let mut buf = [0u8; 31];
    let len = HostAd::encode_slice(
        &[
            HostAd::Flags(0x06),
            HostAd::CompleteServiceUuids128(&[uuid]),
        ],
        &mut buf,
    )
    .unwrap();
    assert_eq!(&build_advertising_payload()[..], &buf[..len]);

    let scan = build_scan_response(&b"COW GATT".to_vec(), &Vec::new()).unwrap();
    let mut buf2 = [0u8; 31];
    let len2 = HostAd::encode_slice(
        &[
            HostAd::CompleteLocalName(b"COW GATT"),
            HostAd::ManufacturerSpecificData {
                company_identifier: 0x0245,
                payload: &[],
            },
        ],
        &mut buf2,
    )
    .unwrap();
    assert_eq!(&scan[..], &buf2[..len2]);
}
