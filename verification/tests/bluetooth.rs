use bike_bt::AdapterEvent;
use bike_bt::AdapterProperty;
use bike_bt::Address;
use bike_bt::BikeBt;
use bike_bt::BluetoothError;
use bike_bt::BluetoothStatus;
use bike_bt::Device;
use bike_bt::DeviceDiscoveryEvent;
use bike_bt::DeviceReadings;
use bike_bt::DeviceSignalStrength;
use bike_bt::DeviceStatus;

fn handle() -> BikeBt {
    BikeBt::new(true, true).unwrap()
}

fn readings(name: Option<&str>, rssi: Option<i16>) -> DeviceReadings {
    DeviceReadings { name: name.map(|n| n.to_string()), paired: Some(false), connected: None, rssi }
}

fn device(address: u64, name: &str, signal: DeviceSignalStrength) -> Device {
    Device {
        address: Address::new(address),
        name: name.to_string(),
        status: DeviceStatus::NotSetUp,
        signal,
    }
}

#[test]
fn handle_needs_a_session_and_an_adapter() {
    assert_eq!(BikeBt::new(false, false), Err(BluetoothError::NoBluez));
    assert_eq!(BikeBt::new(false, true), Err(BluetoothError::NoBluez));
    assert_eq!(BikeBt::new(true, false), Err(BluetoothError::NoAdapter));
    assert_eq!(BikeBt::new(true, true), Ok(BikeBt { device: None }));
}

#[test]
fn status_of_the_power_property() {
    let bluetooth = handle();
    assert_eq!(bluetooth.get_status::<()>(Ok(false)), BluetoothStatus::PoweredOff);
    assert_eq!(bluetooth.get_status::<()>(Ok(true)), BluetoothStatus::Disconnected);
    assert_eq!(bluetooth.get_status(Err("no bus")), BluetoothStatus::Unavailable);
}

#[test]
fn device_lookup_needs_readings_and_a_name() {
    let bluetooth = handle();
    assert_eq!(bluetooth.get_device(Address::new(1), None), None);
    assert_eq!(bluetooth.get_device(Address::new(1), Some(readings(None, Some(-50)))), None);
    assert_eq!(
        bluetooth.get_device(Address::new(1), Some(readings(Some("Bike"), Some(-95)))),
        Some(device(1, "Bike", DeviceSignalStrength::Weak))
    );
}

#[test]
fn scan_reports_each_event_in_order() {
    let events = vec![
        AdapterEvent::DeviceAdded(Address::new(1), Some(readings(Some("A"), Some(-55)))),
        AdapterEvent::PropertyChanged(AdapterProperty::Powered(true)),
        AdapterEvent::DeviceAdded(Address::new(2), Some(readings(None, Some(-40)))),
        AdapterEvent::DeviceAdded(Address::new(3), None),
        AdapterEvent::DeviceRemoved(Address::new(1)),
        AdapterEvent::DeviceAdded(Address::new(1), Some(readings(Some("A"), None))),
        AdapterEvent::PropertyChanged(AdapterProperty::Other),
    ];
    let found = handle().scan::<()>(Ok(events)).unwrap();
    assert_eq!(
        found,
        vec![
            DeviceDiscoveryEvent::DeviceAdded(device(1, "A", DeviceSignalStrength::Good)),
            DeviceDiscoveryEvent::DeviceRemoved(Address::new(1)),
            DeviceDiscoveryEvent::DeviceAdded(device(1, "A", DeviceSignalStrength::NoSignal)),
        ]
    );
}

#[test]
fn scan_of_nothing_reports_nothing() {
    assert_eq!(handle().scan::<()>(Ok(Vec::new())), Ok(Vec::new()));
}

#[test]
fn scan_that_the_backend_refuses_fails() {
    assert_eq!(handle().scan(Err("not ready")), Err(BluetoothError::ScanFailed));
}

#[test]
fn scan_event_by_event_is_the_same_as_whole() {
    let bluetooth = handle();
    let make = || {
        vec![
            AdapterEvent::DeviceAdded(Address::new(1), Some(readings(Some("A"), Some(-55)))),
            AdapterEvent::DeviceRemoved(Address::new(4)),
            AdapterEvent::PropertyChanged(AdapterProperty::Powered(false)),
            AdapterEvent::DeviceAdded(Address::new(2), Some(readings(Some("B"), Some(-10)))),
        ]
    };
    let whole = bluetooth.scan::<()>(Ok(make())).unwrap();
    let mut pieces = Vec::new();
    for event in make() {
        if let Some(discovery) = bluetooth.discovery(&event) {
            pieces.push(discovery);
        }
    }
    assert_eq!(whole, pieces);
    assert_eq!(whole.len(), 3);
}

#[test]
fn listener_reports_power_changes_only() {
    let events = vec![
        AdapterEvent::DeviceAdded(Address::new(1), None),
        AdapterEvent::PropertyChanged(AdapterProperty::Powered(true)),
        AdapterEvent::PropertyChanged(AdapterProperty::Other),
        AdapterEvent::DeviceRemoved(Address::new(1)),
        AdapterEvent::PropertyChanged(AdapterProperty::Powered(false)),
        AdapterEvent::PropertyChanged(AdapterProperty::Powered(false)),
        AdapterEvent::PropertyChanged(AdapterProperty::Powered(true)),
    ];
    assert_eq!(
        handle().register_adapter_listener::<()>(Ok(events)),
        Ok(vec![
            BluetoothStatus::Disconnected,
            BluetoothStatus::PoweredOff,
            BluetoothStatus::PoweredOff,
            BluetoothStatus::Disconnected,
        ])
    );
}

#[test]
fn listener_that_cannot_be_registered_fails() {
    assert_eq!(handle().register_adapter_listener(Err(5)), Err(BluetoothError::NoBluez));
    assert_eq!(handle().register_adapter_listener(Err("no bus")), Err(BluetoothError::NoBluez));
}

#[test]
fn status_change_of_single_events() {
    let bluetooth = handle();
    assert_eq!(
        bluetooth.status_change(&AdapterEvent::PropertyChanged(AdapterProperty::Powered(true))),
        Some(BluetoothStatus::Disconnected)
    );
    assert_eq!(
        bluetooth.status_change(&AdapterEvent::PropertyChanged(AdapterProperty::Powered(false))),
        Some(BluetoothStatus::PoweredOff)
    );
    assert_eq!(bluetooth.status_change(&AdapterEvent::PropertyChanged(AdapterProperty::Other)), None);
    assert_eq!(bluetooth.status_change(&AdapterEvent::DeviceRemoved(Address::new(3))), None);
}
