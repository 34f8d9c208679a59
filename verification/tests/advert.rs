use ble_sci::advert::{
    advertisement, advertisement_data, encode_fields, scan_response, scan_response_data, AdField,
    PayloadError, ADVERTISE_NAME, BR_EDR_NOT_SUPPORTED, LE_GENERAL_DISCOVERABLE, PAYLOAD_MAX,
};
use ble_sci::gatt::{uuid128, SERVICE_ID};
use trouble_host::advertise::AdStructure;

#[test]
fn the_advertisement_names_the_counter_service() {
    assert_eq!(
        advertisement_data(),
        vec![
            0x02, 0x01, 0x06, 0x11, 0x07, 0xfb, 0x34, 0x9b, 0x5f, 0x80, 0x00, 0x00, 0x80, 0x00,
            0x10, 0x00, 0x00, 0xe0, 0xff, 0x00, 0x00
        ]
    );
}

#[test]
fn the_flags_are_those_of_the_radio_stack() {
    assert_eq!(LE_GENERAL_DISCOVERABLE, trouble_host::advertise::LE_GENERAL_DISCOVERABLE);
    assert_eq!(BR_EDR_NOT_SUPPORTED, trouble_host::advertise::BR_EDR_NOT_SUPPORTED);
}

#[test]
fn the_advertisement_fits_a_payload() {
    assert_eq!(PAYLOAD_MAX, 31);
    assert_eq!(advertisement_data().len(), 21);
    assert!(advertisement_data().len() <= PAYLOAD_MAX);
}

#[test]
fn the_advertisement_reads_back_as_flags_and_service() {
    let data = advertisement_data();
    let mut read = AdStructure::decode(&data);
    match read.next() {
        Some(Ok(AdStructure::Flags(flags))) => {
            assert_eq!(flags, LE_GENERAL_DISCOVERABLE | BR_EDR_NOT_SUPPORTED)
        }
        other => panic!("unexpected structure {:?}", other),
    }
    match read.next() {
        Some(Ok(AdStructure::CompleteServiceUuids128(uuids))) => {
            assert_eq!(uuids, &[uuid128(SERVICE_ID)])
        }
        other => panic!("unexpected structure {:?}", other),
    }
    assert!(read.next().is_none());
}

#[test]
fn an_advertisement_carries_the_flags_it_is_given() {
    let service = [7u8; 16];
    let bytes = advertisement(0xa5, service);
    assert_eq!(&bytes[..5], &[0x02, 0x01, 0xa5, 0x11, 0x07]);
    assert_eq!(&bytes[5..], &service);
}

#[test]
fn the_scan_response_carries_the_name() {
    assert_eq!(ADVERTISE_NAME, "BLE-SCI-TEST");
    assert_eq!(
        scan_response_data(),
        vec![0x0d, 0x09, b'B', b'L', b'E', b'-', b'S', b'C', b'I', b'-', b'T', b'E', b'S', b'T']
    );
    assert_eq!(scan_response_data().len(), 14);
}

#[test]
fn the_scan_response_reads_back_as_the_name() {
    let data = scan_response_data();
    let mut read = AdStructure::decode(&data);
    match read.next() {
        Some(Ok(AdStructure::CompleteLocalName(name))) => assert_eq!(name, b"BLE-SCI-TEST"),
        other => panic!("unexpected structure {:?}", other),
    }
    assert!(read.next().is_none());
}

#[test]
fn a_name_of_twenty_nine_bytes_fits() {
    let name = "abcdefghijklmnopqrstuvwxyz012";
    assert_eq!(name.len(), 29);
    let bytes = scan_response(name).unwrap();
    assert_eq!(bytes.len(), 31);
    assert_eq!(bytes[0], 30);
    assert_eq!(bytes[1], 0x09);
    assert_eq!(&bytes[2..], name.as_bytes());
}

#[test]
fn a_name_of_thirty_bytes_does_not_fit() {
    let name = "abcdefghijklmnopqrstuvwxyz0123";
    assert_eq!(name.len(), 30);
    assert_eq!(scan_response(name), Err(PayloadError::InsufficientSpace));
}

#[test]
fn the_empty_name_is_a_structure_without_data() {
    assert_eq!(scan_response(""), Ok(vec![0x01, 0x09]));
}

#[test]
fn a_name_counts_in_bytes_not_in_characters() {
    // Fifteen characters of two bytes each: thirty bytes.
    let name = "\u{00e9}".repeat(15);
    assert_eq!(scan_response(&name), Err(PayloadError::InsufficientSpace));
    let name = "\u{00e9}".repeat(14);
    assert_eq!(scan_response(&name).unwrap().len(), 30);
}

#[test]
fn no_structure_is_an_empty_payload() {
    assert_eq!(encode_fields(&Vec::new()), Ok(Vec::new()));
}

#[test]
fn structures_follow_each_other_in_their_order() {
    let fields = vec![
        AdField::CompleteLocalName(vec![b'a', b'b']),
        AdField::Flags(0x06),
        AdField::ServiceUuids128(Vec::new()),
    ];
    assert_eq!(
        encode_fields(&fields),
        Ok(vec![0x03, 0x09, b'a', b'b', 0x02, 0x01, 0x06, 0x01, 0x07])
    );
}

#[test]
fn two_services_do_not_fit_a_payload() {
    let fields = vec![AdField::ServiceUuids128(vec![[1u8; 16], [2u8; 16]])];
    assert_eq!(encode_fields(&fields), Err(PayloadError::InsufficientSpace));
}

#[test]
fn a_payload_may_be_filled_to_the_last_byte() {
    let fields = vec![
        AdField::Flags(0),
        AdField::ServiceUuids128(vec![[9u8; 16]]),
        AdField::CompleteLocalName(vec![b'x'; 8]),
    ];
    let bytes = encode_fields(&fields).unwrap();
    assert_eq!(bytes.len(), 31);
    let fields = vec![
        AdField::Flags(0),
        AdField::ServiceUuids128(vec![[9u8; 16]]),
        AdField::CompleteLocalName(vec![b'x'; 9]),
    ];
    assert_eq!(encode_fields(&fields), Err(PayloadError::InsufficientSpace));
}
