use bus_projection::btif::{BtStatus, RawAddress};
use bus_projection::iface_bluetooth_gatt::{
    RSSISettings, RSSISettingsDBus, ScanFilter, ScanSettings, ScanType, scan_filters_from_dbus,
    scan_filters_to_dbus,
};
use bus_projection::marshal::{field_as_i32, propmap_get, str_eq, variant_field};
use bus_projection::wire::{DecodeError, WireType, WireValue};

fn int_variant(x: i32) -> WireValue {
    WireValue::Variant(Box::new(WireValue::Int32(x)))
}

#[test]
fn primitive_identity_round_trip() {
    let field = "x";
    assert_eq!(field_as_i32(&WireValue::Int32(-7), field), Ok(-7));
    match field_as_i32(&WireValue::Bool(true), field) {
        Err(DecodeError::TypeMismatch { field, expected, found }) => {
            assert_eq!(field, "x");
            assert_eq!(expected, WireType::Int32);
            assert_eq!(found, WireType::Bool);
        },
        other => panic!("expected a type mismatch, got {:?}", other),
    }
}

#[test]
fn rssi_settings_round_trip() {
    let s = RSSISettings { low_threshold: -70, high_threshold: -40 };
    let map = s.to_dbus();
    assert_eq!(RSSISettings::from_dbus(&map), Ok(s));
}

#[test]
fn rssi_settings_missing_field() {
    let s = RSSISettings { low_threshold: -70, high_threshold: -40 };
    let mut map = s.to_dbus();
    map.remove(0);
    match RSSISettings::from_dbus(&map) {
        Err(DecodeError::MissingField(f)) => assert_eq!(f, "low_threshold"),
        other => panic!("expected a missing field, got {:?}", other),
    }
}

#[test]
fn rssi_settings_type_mismatch() {
    let map = vec![
        (
            String::from("low_threshold"),
            WireValue::Variant(Box::new(WireValue::Text(String::from("low")))),
        ),
        (String::from("high_threshold"), int_variant(-40)),
    ];
    match RSSISettings::from_dbus(&map) {
        Err(DecodeError::TypeMismatch { field, expected, found }) => {
            assert_eq!(field, "low_threshold");
            assert_eq!(expected, WireType::Int32);
            assert_eq!(found, WireType::Text);
        },
        other => panic!("expected a type mismatch, got {:?}", other),
    }
}

#[test]
fn rssi_settings_untagged_field_is_rejected() {
    let map = vec![
        (String::from("low_threshold"), WireValue::Int32(-70)),
        (String::from("high_threshold"), int_variant(-40)),
    ];
    match RSSISettings::from_dbus(&map) {
        Err(DecodeError::NotAVariant(f)) => assert_eq!(f, "low_threshold"),
        other => panic!("expected an untagged-field fault, got {:?}", other),
    }
}

#[test]
fn unknown_extra_fields_are_ignored() {
    let s = RSSISettings { low_threshold: -70, high_threshold: -40 };
    let mut map = s.to_dbus();
    map.push((String::from("surplus"), WireValue::Variant(Box::new(WireValue::Bool(true)))));
    assert_eq!(RSSISettings::from_dbus(&map), Ok(s));
}

#[test]
fn scan_settings_round_trip_with_nested_record() {
    let s = ScanSettings {
        interval: 100,
        window: 50,
        scan_type: ScanType::Passive,
        rssi_settings: RSSISettings { low_threshold: -80, high_threshold: -30 },
    };
    let map = s.to_dbus();
    assert_eq!(ScanSettings::from_dbus(&map), Ok(s));
}

#[test]
fn scan_settings_nested_fault_is_reported() {
    let s = ScanSettings {
        interval: 100,
        window: 50,
        scan_type: ScanType::Active,
        rssi_settings: RSSISettings { low_threshold: -80, high_threshold: -30 },
    };
    let mut map = s.to_dbus();
    // Replace the nested record with one lacking both fields.
    map.pop();
    map.push((
        String::from("rssi_settings"),
        WireValue::Variant(Box::new(WireValue::PropMap(Vec::new()))),
    ));
    match ScanSettings::from_dbus(&map) {
        Err(DecodeError::MissingField(f)) => assert_eq!(f, "low_threshold"),
        other => panic!("expected a nested missing field, got {:?}", other),
    }
}

#[test]
fn scan_type_rejects_unknown_code() {
    assert_eq!(ScanType::from_dbus(0), Ok(ScanType::Active));
    assert_eq!(ScanType::from_dbus(1), Ok(ScanType::Passive));
    assert_eq!(ScanType::from_dbus(7), Err(DecodeError::BadEnumValue(7)));
}

#[test]
fn scan_filter_sequence_reports_first_bad_element() {
    let good = scan_filters_to_dbus(&vec![ScanFilter {}, ScanFilter {}]);
    assert_eq!(scan_filters_from_dbus(&good).map(|v| v.len()), Ok(2));
    let bad = vec![
        WireValue::PropMap(Vec::new()),
        WireValue::Int32(1),
        WireValue::PropMap(Vec::new()),
    ];
    assert_eq!(scan_filters_from_dbus(&bad), Err(DecodeError::ElementInvalid(1)));
}

#[test]
fn propmap_lookup_finds_first_entry() {
    let map = vec![
        (String::from("a"), WireValue::Int32(1)),
        (String::from("b"), WireValue::Int32(2)),
    ];
    match propmap_get(&map, "b") {
        Some(WireValue::Int32(x)) => assert_eq!(*x, 2),
        other => panic!("expected the second entry, got {:?}", other),
    }
    assert!(propmap_get(&map, "c").is_none());
    match variant_field(&map, "a") {
        Err(DecodeError::NotAVariant(f)) => assert_eq!(f, "a"),
        other => panic!("expected an untagged-field fault, got {:?}", other),
    }
}

#[test]
fn rssi_settings_dbus_layout_converts_both_ways() {
    let d = RSSISettingsDBus { low_threshold: -1, high_threshold: 1 };
    let s = d.into_settings();
    assert_eq!(s, RSSISettings { low_threshold: -1, high_threshold: 1 });
    assert_eq!(RSSISettingsDBus::from_settings(s), d);
}

#[test]
fn str_eq_compares_by_characters() {
    assert!(str_eq("abc", "abc"));
    assert!(!str_eq("abc", "abd"));
    assert!(!str_eq("abc", "ab"));
}

#[test]
fn address_parsing_accepts_only_the_documented_form() {
    let a = RawAddress::from_string("00:1A:2b:3C:4d:5E").expect("valid address");
    assert_eq!(a.val, [0x00, 0x1a, 0x2b, 0x3c, 0x4d, 0x5e]);
    assert!(RawAddress::from_string("00:1A:2b:3C:4d").is_none());
    assert!(RawAddress::from_string("00:1A:2b:3C:4d:5E:6f").is_none());
    assert!(RawAddress::from_string("00-1A-2b-3C-4d-5E").is_none());
    assert!(RawAddress::from_string("0g:1A:2b:3C:4d:5E").is_none());
    assert!(RawAddress::from_string("").is_none());
}

#[test]
fn status_codes_decode_to_documented_statuses() {
    assert_eq!(BtStatus::from_i32(0), BtStatus::Success);
    assert_eq!(BtStatus::from_i32(1), BtStatus::Fail);
    assert_eq!(BtStatus::from_i32(11), BtStatus::AuthRejected);
    assert_eq!(BtStatus::from_i32(99), BtStatus::Unknown);
}
