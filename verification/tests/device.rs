use bike_bt::device::UNREADABLE_RSSI;
use bike_bt::Address;
use bike_bt::Bluetooth;
use bike_bt::BluetoothError;
use bike_bt::BluetoothStatus;
use bike_bt::ConnectError;
use bike_bt::ConnectFailure;
use bike_bt::ConnectionState;
use bike_bt::Device;
use bike_bt::DeviceConnectionError;
use bike_bt::DeviceReadings;
use bike_bt::DeviceSignalStrength;
use bike_bt::DeviceStatus;

fn expected_tier(rssi: i32) -> DeviceSignalStrength {
    match rssi {
        -119..=-90 => DeviceSignalStrength::Weak,
        -89..=-60 => DeviceSignalStrength::Okay,
        -59..=-30 => DeviceSignalStrength::Good,
        -29..=0 => DeviceSignalStrength::Full,
        _ => DeviceSignalStrength::NoSignal,
    }
}

#[test]
fn classify_named_readings() {
    assert_eq!(DeviceSignalStrength::from(-121), DeviceSignalStrength::NoSignal);
    assert_eq!(DeviceSignalStrength::from(-90), DeviceSignalStrength::Weak);
    assert_eq!(DeviceSignalStrength::from(-89), DeviceSignalStrength::Okay);
    assert_eq!(DeviceSignalStrength::from(-60), DeviceSignalStrength::Okay);
    assert_eq!(DeviceSignalStrength::from(-59), DeviceSignalStrength::Good);
    assert_eq!(DeviceSignalStrength::from(-1), DeviceSignalStrength::Full);
    assert_eq!(DeviceSignalStrength::from(5), DeviceSignalStrength::NoSignal);
}

#[test]
fn classify_tier_borders() {
    assert_eq!(DeviceSignalStrength::from(-120), DeviceSignalStrength::NoSignal);
    assert_eq!(DeviceSignalStrength::from(-119), DeviceSignalStrength::Weak);
    assert_eq!(DeviceSignalStrength::from(-30), DeviceSignalStrength::Good);
    assert_eq!(DeviceSignalStrength::from(-29), DeviceSignalStrength::Full);
    assert_eq!(DeviceSignalStrength::from(0), DeviceSignalStrength::Full);
    assert_eq!(DeviceSignalStrength::from(1), DeviceSignalStrength::NoSignal);
    assert_eq!(DeviceSignalStrength::from(i16::MIN), DeviceSignalStrength::NoSignal);
    assert_eq!(DeviceSignalStrength::from(i16::MAX), DeviceSignalStrength::NoSignal);
}

#[test]
fn classify_is_total_over_the_domain() {
    for rssi in -200i16..=20 {
        assert_eq!(DeviceSignalStrength::from(rssi), expected_tier(rssi as i32), "rssi {}", rssi);
    }
}

#[test]
fn classify_every_reading() {
    let mut counts = [0u32; 5];
    for rssi in i16::MIN..=i16::MAX {
        let tier = DeviceSignalStrength::from(rssi);
        assert_eq!(tier, expected_tier(rssi as i32));
        let slot = match tier {
            DeviceSignalStrength::NoSignal => 0,
            DeviceSignalStrength::Weak => 1,
            DeviceSignalStrength::Okay => 2,
            DeviceSignalStrength::Good => 3,
            DeviceSignalStrength::Full => 4,
        };
        counts[slot] += 1;
    }
    assert_eq!(counts[1], 30);
    assert_eq!(counts[2], 30);
    assert_eq!(counts[3], 30);
    assert_eq!(counts[4], 30);
    assert_eq!(counts[0], 65536 - 120);
}

#[test]
fn unreadable_signal_is_no_signal() {
    assert_eq!(UNREADABLE_RSSI, -121);
    assert_eq!(DeviceSignalStrength::from(UNREADABLE_RSSI), DeviceSignalStrength::NoSignal);
}

#[test]
fn status_follows_the_two_flags() {
    assert_eq!(DeviceStatus::from((false, false)), DeviceStatus::NotSetUp);
    assert_eq!(DeviceStatus::from((true, false)), DeviceStatus::Paired);
    assert_eq!(DeviceStatus::from((false, true)), DeviceStatus::Connected);
    assert_eq!(DeviceStatus::from((true, true)), DeviceStatus::Connected);
    let status: DeviceStatus = (true, false).into();
    assert_eq!(status, DeviceStatus::Paired);
}

#[test]
fn snapshot_of_a_named_device() {
    let readings = DeviceReadings {
        name: Some("Trainer-01".to_string()),
        paired: Some(false),
        connected: Some(false),
        rssi: Some(-55),
    };
    let device = Device::new(Address::new(0x0011_2233_4455), readings).unwrap();
    assert_eq!(device.address, Address { value: 0x0011_2233_4455 });
    assert_eq!(device.name, "Trainer-01");
    assert_eq!(device.status, DeviceStatus::NotSetUp);
    assert_eq!(device.signal, DeviceSignalStrength::Good);
}

#[test]
fn snapshot_needs_a_name() {
    let readings =
        DeviceReadings { name: None, paired: Some(true), connected: Some(true), rssi: Some(-40) };
    assert_eq!(Device::new(Address::new(7), readings), None);
}

#[test]
fn snapshot_of_unreadable_flags_and_signal() {
    let readings =
        DeviceReadings { name: Some(String::new()), paired: None, connected: None, rssi: None };
    let device = Device::new(Address::new(1), readings).unwrap();
    assert_eq!(device.name, "");
    assert_eq!(device.status, DeviceStatus::NotSetUp);
    assert_eq!(device.signal, DeviceSignalStrength::NoSignal);
}

#[test]
fn snapshot_of_a_connected_device() {
    let readings = DeviceReadings {
        name: Some("Bike".to_string()),
        paired: None,
        connected: Some(true),
        rssi: Some(0),
    };
    let device = Device::new(Address::new(2), readings).unwrap();
    assert_eq!(device.status, DeviceStatus::Connected);
    assert_eq!(device.signal, DeviceSignalStrength::Full);
    let copy = device.duplicate();
    assert_eq!(copy, device);
}

#[test]
fn readings_are_copied_whole() {
    let readings = DeviceReadings {
        name: Some("Bike".to_string()),
        paired: Some(true),
        connected: None,
        rssi: Some(-91),
    };
    assert_eq!(readings.duplicate(), readings);
}

#[test]
fn adapter_status_defaults_to_unavailable() {
    assert_eq!(BluetoothStatus::default(), BluetoothStatus::Unavailable);
    assert_eq!(BluetoothStatus::from_powered(true), BluetoothStatus::Disconnected);
    assert_eq!(BluetoothStatus::from_powered(false), BluetoothStatus::PoweredOff);
}

#[test]
fn bluetooth_errors_as_text() {
    assert_eq!(BluetoothError::NoBluez.to_string(), "Could not init bluez session");
    assert_eq!(BluetoothError::NoAdapter.to_string(), "Could not find any bluetooth adapters");
    assert_eq!(BluetoothError::ScanFailed.to_string(), "Could not scan for bluetooth devices");
}

#[test]
fn connection_error_keeps_its_message() {
    let error = DeviceConnectionError::new("br-connection-refused".to_string());
    assert_eq!(error.to_string(), "br-connection-refused");
    assert_eq!(DeviceConnectionError::new(String::new()).to_string(), "");
}

#[test]
fn connect_error_of_every_kind() {
    let kinds = [
        ConnectFailure::DeviceResolutionFailed,
        ConnectFailure::PairingFailed,
        ConnectFailure::TrustFailed,
        ConnectFailure::ConnectFailed,
        ConnectFailure::ConnectionNotConfirmed,
        ConnectFailure::NoDeviceName,
    ];
    for kind in kinds {
        let error = ConnectError::new(kind, DeviceConnectionError::new("why".to_string()));
        assert_eq!(error.kind(), kind);
        assert_eq!(error.to_string(), "why");
    }
    assert_eq!(
        ConnectError::new(
            ConnectFailure::TrustFailed,
            DeviceConnectionError::new("no".to_string())
        ),
        ConnectError::TrustFailed(DeviceConnectionError::new("no".to_string()))
    );
}

#[test]
fn address_from_text() {
    assert_eq!(Address::from_text("00:11:22:33:44:55"), Some(Address::new(0x0011_2233_4455)));
    assert_eq!(Address::from_text("FF:FF:FF:FF:FF:FF"), Some(Address::new(0xFFFF_FFFF_FFFF)));
    assert_eq!(Address::from_text("00:00:00:00:00:00"), Some(Address::new(0)));
    assert_eq!(Address::from_text("aB:cD:eF:01:23:45"), Some(Address::new(0xABCD_EF01_2345)));
    assert_eq!(Address::from_text("00:00:00:00:01:00"), Some(Address::new(256)));
}

#[test]
fn address_from_text_that_spells_none() {
    for text in [
        "",
        "00:11:22:33:44",
        "00:11:22:33:44:55:66",
        "00:11:22:33:44:5",
        "00_11_22_33_44_55",
        "00:11:22:33:44:5G",
        "0011:22:33:44:55:",
        " 0:11:22:33:44:55",
        "00:11:22:33:44:\u{e9}5",
        "00-11-22-33-44-55",
    ] {
        assert_eq!(Address::from_text(text), None, "text {:?}", text);
    }
}

#[test]
fn address_from_object_path() {
    assert_eq!(
        Address::from_object_path("/org/bluez/hci0/dev_00_11_22_33_44_55"),
        Some(Address::new(0x0011_2233_4455))
    );
    assert_eq!(
        Address::from_object_path("/dev_AA_BB_CC_DD_EE_FF"),
        Some(Address::new(0xAABB_CCDD_EEFF))
    );
    assert_eq!(
        Address::from_object_path("/\u{fc}/dev_00_00_00_00_00_0a"),
        Some(Address::new(10))
    );
}

#[test]
fn address_from_object_path_that_names_none() {
    for path in [
        "",
        "/",
        "/org/bluez/hci0",
        "dev_00_11_22_33_44_55",
        "/org/bluez/hci0/dev_00_11_22_33_44_55/service0001",
        "/org/bluez/hci0/dev_00:11:22:33:44:55",
        "/org/bluez/hci0/xdev_00_11_22_33_44_55",
        "/org/bluez/hci0/DEV_00_11_22_33_44_55",
        "/org/bluez/hci0/dev_00_11_22_33_44_5",
        "/org/bluez/hci0/dev_00_11_22_33_44_ZZ",
    ] {
        assert_eq!(Address::from_object_path(path), None, "path {:?}", path);
    }
}

#[test]
fn address_from_and_to_octets() {
    let address = Address::from_octets([0x00, 0x11, 0x22, 0x33, 0x44, 0x55]);
    assert_eq!(address, Address::new(0x0011_2233_4455));
    assert_eq!(address.octets(), [0x00, 0x11, 0x22, 0x33, 0x44, 0x55]);
    assert_eq!(Address::from_octets([0; 6]), Address::new(0));
    assert_eq!(Address::from_octets([0xFF; 6]), Address::new(0xFFFF_FFFF_FFFF));
    assert_eq!(Address::new(0x0102_0304_0506).octets(), [1, 2, 3, 4, 5, 6]);
    assert_eq!(Address::new(u64::MAX).octets(), [0xFF; 6]);
    assert_eq!(Address::new(0x1_0000_0000_0001).octets(), [0, 0, 0, 0, 0, 1]);
}

#[test]
fn connection_starts_as_not_available() {
    let bluetooth = Bluetooth::new();
    assert_eq!(bluetooth.get_state(), &ConnectionState::NotAvailable);
}
