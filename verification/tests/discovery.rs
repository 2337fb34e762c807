use aranet4::discovery::{
    contains_marker, find_by_name, find_characteristic, select_adapter,
    ADVERTISED_SERVICE_UUID, CURRENT_READINGS_CHARACTERISTIC,
};
use aranet4::errors::{ConnectionError, DeviceError};
use aranet4::reading::DecodeError;
use aranet4::scan::MANUFACTURER_CODE;

#[test]
fn zero_adapters_fails_as_unavailable() {
    let r = select_adapter(0);
    assert!(matches!(r, Err(ConnectionError::AdapterUnavaliable)));
}

#[test]
fn first_adapter_is_selected() {
    assert!(matches!(select_adapter(1), Ok(0)));
    assert!(matches!(select_adapter(3), Ok(0)));
}

#[test]
fn marker_is_found_anywhere_in_the_name() {
    assert!(contains_marker(&b"Aranet4".to_vec()));
    assert!(contains_marker(&b"Aranet4 01C2Z".to_vec()));
    assert!(contains_marker(&b"my Aranet4".to_vec()));
}

#[test]
fn marker_is_exact_and_case_sensitive() {
    assert!(!contains_marker(&b"".to_vec()));
    assert!(!contains_marker(&b"Aranet".to_vec()));
    assert!(!contains_marker(&b"aranet4".to_vec()));
    assert!(!contains_marker(&b"Aranet 4".to_vec()));
}

#[test]
fn no_matching_name_means_not_found() {
    let names = vec![
        Some(b"Kitchen lamp".to_vec()),
        None,
        Some(b"aranet4 home".to_vec()),
    ];
    assert_eq!(find_by_name(&names), None);
    assert_eq!(find_by_name(&Vec::new()), None);
}

#[test]
fn earliest_matching_name_wins() {
    let names = vec![
        Some(b"Kitchen lamp".to_vec()),
        None,
        Some(b"Aranet4 01C2Z".to_vec()),
        Some(b"Aranet4 99ZZZ".to_vec()),
    ];
    assert_eq!(find_by_name(&names), Some(2));
}

#[test]
fn characteristic_is_located_by_identifier() {
    let uuids = vec![0x1111u128, CURRENT_READINGS_CHARACTERISTIC, 0x2222u128];
    assert!(matches!(find_characteristic(&uuids), Ok(1)));
}

#[test]
fn missing_characteristic_reports_its_identifier() {
    let uuids = vec![0x1111u128, 0x2222u128];
    match find_characteristic(&uuids) {
        Err(ConnectionError::CharacteristicNotFound(text)) => {
            assert_eq!(text, "f0cd3001-95da-4f4b-9ac8-aa55d312af0c");
        }
        other => panic!("expected CharacteristicNotFound, got {:?}", other),
    }
    assert!(matches!(
        find_characteristic(&Vec::new()),
        Err(ConnectionError::CharacteristicNotFound(_))
    ));
}

#[test]
fn well_known_identifiers_are_bit_exact() {
    let readings = uuid::Uuid::parse_str("f0cd3001-95da-4f4b-9ac8-aa55d312af0c").unwrap();
    assert_eq!(readings.as_u128(), CURRENT_READINGS_CHARACTERISTIC);
    let service = uuid::Uuid::parse_str("0000fce0-0000-1000-8000-00805f9b34fb").unwrap();
    assert_eq!(service.as_u128(), ADVERTISED_SERVICE_UUID);
    assert_eq!(MANUFACTURER_CODE, 1794);
}

#[test]
fn transport_errors_are_carried_through_unchanged() {
    let e = ConnectionError::BTLEError(btleplug::Error::PermissionDenied);
    assert!(matches!(
        e,
        ConnectionError::BTLEError(btleplug::Error::PermissionDenied)
    ));
    let d = DeviceError::BTLEError(btleplug::Error::NotConnected);
    assert!(matches!(
        d,
        DeviceError::BTLEError(btleplug::Error::NotConnected)
    ));
}

#[test]
fn decode_failure_maps_to_the_session_error() {
    let e = DeviceError::from(DecodeError::ShortRead);
    assert!(matches!(e, DeviceError::IOError(DecodeError::ShortRead)));
}
