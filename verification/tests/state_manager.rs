use bike_bt::components::active_device_details::ActiveDeviceDetails;
use bike_bt::components::active_device_details::ActiveDeviceDetailsInput;
use bike_bt::components::active_device_details::ActiveDeviceDetailsOutput;
use bike_bt::components::active_device_details::DetailsEffect;
use bike_bt::components::bluetooth_button::AdapterStateInput;
use bike_bt::components::bluetooth_button::BluetoothButton;
use bike_bt::components::connect_dialog::ConnectDialog;
use bike_bt::components::connect_dialog::ConnectDialogInput;
use bike_bt::components::connect_dialog::DeviceDiscoveryEvent;
use bike_bt::components::connect_dialog::DeviceDiscoveryListener;
use bike_bt::components::connect_dialog::DeviceListing;
use bike_bt::components::connect_dialog::DeviceListingOutput;
use bike_bt::components::connect_dialog::DialogEffect;
use bike_bt::state_manager::BackendEvent;
use bike_bt::state_manager::Effect;
use bike_bt::state_manager::Failure;
use bike_bt::Address;
use bike_bt::BikeBt;
use bike_bt::BluetoothError;
use bike_bt::BluetoothStatus;
use bike_bt::ConnectError;
use bike_bt::ConnectedDevice;
use bike_bt::Device;
use bike_bt::DeviceConnectionError;
use bike_bt::DeviceSignalStrength;
use bike_bt::DeviceStatus;
use bike_bt::StateManager;
use bike_bt::StateManagerInput;

fn ready() -> StateManager {
    StateManager::init(BikeBt::new(true, true))
}

fn device(address: u64, name: &str, signal: DeviceSignalStrength) -> Device {
    Device {
        address: Address::new(address),
        name: name.to_string(),
        status: DeviceStatus::NotSetUp,
        signal,
    }
}

fn session(address: u64, name: &str) -> ConnectedDevice {
    ConnectedDevice::new(Address::new(address), name.to_string())
}

fn scans_running(before: i32, effects: &[Effect]) -> i32 {
    let mut running = before;
    for effect in effects {
        match effect {
            Effect::StartScan => running += 1,
            Effect::AbortScan => running -= 1,
            _ => {}
        }
        assert!(running == 0 || running == 1);
    }
    running
}

#[test]
fn coordinator_starts_idle() {
    let manager = ready();
    assert!(!manager.is_scanning());
    assert_eq!(manager.connected_device(), &None);
    assert_eq!(manager.bike_bt(), &Some(BikeBt { device: None }));
    assert_eq!(StateManager::init(BikeBt::new(true, false)).bike_bt(), &None);
}

#[test]
fn adapter_listener_is_registered_after_a_status_query() {
    let mut manager = ready();
    assert_eq!(
        manager.update(StateManagerInput::RegisterAdapterListener),
        vec![Effect::QueryStatus, Effect::ListenToAdapter]
    );
}

#[test]
fn nothing_is_asked_of_a_missing_service() {
    let mut manager = StateManager::init(BikeBt::new(false, false));
    assert_eq!(manager.update(StateManagerInput::RegisterAdapterListener), Vec::new());
    assert_eq!(manager.update(StateManagerInput::StartScanningForDevices), Vec::new());
    assert!(!manager.is_scanning());
    assert_eq!(manager.update(StateManagerInput::StopScanningForDevices), Vec::new());
    assert_eq!(
        manager.update(StateManagerInput::Connect(Address::new(1), "Bike".to_string())),
        vec![Effect::DeviceDetails(ActiveDeviceDetailsInput::SetName("Bike".to_string()))]
    );
    assert_eq!(manager.update(StateManagerInput::Disconnect), Vec::new());
    assert_eq!(manager.update(StateManagerInput::DiscoverGattProfiles), Vec::new());
}

#[test]
fn status_is_passed_on_to_the_button() {
    let mut manager = ready();
    for status in [
        BluetoothStatus::Unavailable,
        BluetoothStatus::PoweredOff,
        BluetoothStatus::Disconnected,
    ] {
        assert_eq!(
            manager.handle(BackendEvent::Status(status)),
            vec![Effect::AdapterState(AdapterStateInput::ChangeStatus(status))]
        );
    }
}

#[test]
fn second_scan_replaces_the_first() {
    let mut manager = ready();
    let first = manager.update(StateManagerInput::StartScanningForDevices);
    assert_eq!(first, vec![Effect::StartScan]);
    assert!(manager.is_scanning());
    let running = scans_running(0, &first);
    let second = manager.update(StateManagerInput::StartScanningForDevices);
    assert_eq!(second, vec![Effect::AbortScan, Effect::StartScan]);
    assert!(manager.is_scanning());
    assert_eq!(scans_running(running, &second), 1);
}

#[test]
fn stopping_a_scan_twice_asks_for_nothing_the_second_time() {
    let mut manager = ready();
    manager.update(StateManagerInput::StartScanningForDevices);
    assert_eq!(manager.update(StateManagerInput::StopScanningForDevices), vec![Effect::AbortScan]);
    assert!(!manager.is_scanning());
    assert_eq!(manager.update(StateManagerInput::StopScanningForDevices), Vec::new());
    assert!(!manager.is_scanning());
}

#[test]
fn stopping_without_a_scan_asks_for_nothing() {
    let mut manager = ready();
    assert_eq!(manager.update(StateManagerInput::StopScanningForDevices), Vec::new());
}

#[test]
fn discoveries_are_passed_on_while_scanning() {
    let mut manager = ready();
    manager.update(StateManagerInput::StartScanningForDevices);
    assert_eq!(
        manager.handle(BackendEvent::Discovered(bike_bt::DeviceDiscoveryEvent::DeviceAdded(
            device(1, "Bike", DeviceSignalStrength::Good)
        ))),
        vec![Effect::Discovery(DeviceDiscoveryEvent::DeviceFound(device(
            1,
            "Bike",
            DeviceSignalStrength::Good
        )))]
    );
    assert_eq!(
        manager.handle(BackendEvent::Discovered(bike_bt::DeviceDiscoveryEvent::DeviceRemoved(
            Address::new(1)
        ))),
        vec![Effect::Discovery(DeviceDiscoveryEvent::DeviceLost(Address::new(1)))]
    );
}

#[test]
fn discoveries_after_a_stop_are_dropped() {
    let mut manager = ready();
    manager.update(StateManagerInput::StartScanningForDevices);
    manager.update(StateManagerInput::StopScanningForDevices);
    assert_eq!(
        manager.handle(BackendEvent::Discovered(bike_bt::DeviceDiscoveryEvent::DeviceRemoved(
            Address::new(1)
        ))),
        Vec::new()
    );
}

#[test]
fn failed_scan_is_reported_once() {
    let mut manager = ready();
    manager.update(StateManagerInput::StartScanningForDevices);
    assert_eq!(
        manager.handle(BackendEvent::ScanFailed(BluetoothError::ScanFailed)),
        vec![Effect::Report(Failure::Scan(BluetoothError::ScanFailed)), Effect::AbortScan]
    );
    assert!(!manager.is_scanning());
    assert_eq!(
        manager.handle(BackendEvent::ScanFailed(BluetoothError::ScanFailed)),
        vec![Effect::Report(Failure::Scan(BluetoothError::ScanFailed))]
    );
    assert_eq!(manager.update(StateManagerInput::StartScanningForDevices), vec![Effect::StartScan]);
}

#[test]
fn failed_listener_is_reported() {
    let mut manager = ready();
    assert_eq!(
        manager.handle(BackendEvent::ListenerFailed(BluetoothError::ScanFailed)),
        vec![Effect::Report(Failure::AdapterListener(BluetoothError::ScanFailed))]
    );
}

#[test]
fn connect_names_the_device_and_asks_the_backend() {
    let mut manager = ready();
    assert_eq!(
        manager.update(StateManagerInput::Connect(Address::new(5), "Bike".to_string())),
        vec![
            Effect::DeviceDetails(ActiveDeviceDetailsInput::SetName("Bike".to_string())),
            Effect::Connect(Address::new(5)),
        ]
    );
    assert_eq!(manager.connected_device(), &None);
}

#[test]
fn connection_becomes_the_session() {
    let mut manager = ready();
    assert_eq!(
        manager.handle(BackendEvent::Connected(Ok(session(5, "Bike")))),
        vec![
            Effect::AdapterState(AdapterStateInput::ChangeStatus(BluetoothStatus::Connected)),
            Effect::DeviceDetails(ActiveDeviceDetailsInput::SetConnected),
        ]
    );
    assert_eq!(manager.connected_device(), &Some(session(5, "Bike")));
    assert_eq!(manager.update(StateManagerInput::DiscoverGattProfiles), vec![Effect::DiscoverServices]);
    assert_eq!(manager.update(StateManagerInput::Disconnect), vec![Effect::Disconnect]);
    assert_eq!(manager.connected_device(), &Some(session(5, "Bike")));
}

#[test]
fn failed_connection_is_reported_and_leaves_no_session() {
    let mut manager = ready();
    let effects = manager.handle(BackendEvent::Connected(Err(ConnectError::ConnectionNotConfirmed(
        DeviceConnectionError::new("Device connection was not successful".to_string()),
    ))));
    assert_eq!(
        effects,
        vec![
            Effect::Report(Failure::Connect(ConnectError::ConnectionNotConfirmed(
                DeviceConnectionError::new("Device connection was not successful".to_string())
            ))),
            Effect::DeviceDetails(ActiveDeviceDetailsInput::ConnectionFailed),
        ]
    );
    assert_eq!(manager.connected_device(), &None);
}

#[test]
fn connect_does_not_end_the_session_that_exists() {
    let mut manager = ready();
    manager.handle(BackendEvent::Connected(Ok(session(5, "Bike"))));
    assert_eq!(
        manager.update(StateManagerInput::Connect(Address::new(6), "Other".to_string())),
        vec![
            Effect::DeviceDetails(ActiveDeviceDetailsInput::SetName("Other".to_string())),
            Effect::Connect(Address::new(6)),
        ]
    );
    assert_eq!(manager.connected_device(), &Some(session(5, "Bike")));
}

#[test]
fn disconnect_ends_the_session() {
    let mut manager = ready();
    manager.handle(BackendEvent::Connected(Ok(session(5, "Bike"))));
    assert_eq!(
        manager.handle(BackendEvent::Disconnected(Ok(()))),
        vec![Effect::AdapterState(AdapterStateInput::ChangeStatus(BluetoothStatus::Disconnected))]
    );
    assert_eq!(manager.connected_device(), &None);
    assert_eq!(manager.update(StateManagerInput::Disconnect), Vec::new());
    assert_eq!(manager.handle(BackendEvent::Disconnected(Ok(()))), Vec::new());
}

#[test]
fn failed_disconnect_keeps_the_session() {
    let mut manager = ready();
    manager.handle(BackendEvent::Connected(Ok(session(5, "Bike"))));
    assert_eq!(
        manager.handle(BackendEvent::Disconnected(Err(()))),
        vec![Effect::Report(Failure::Disconnect)]
    );
    assert_eq!(manager.connected_device(), &Some(session(5, "Bike")));
}

#[test]
fn service_discovery_outcomes() {
    let mut manager = ready();
    manager.handle(BackendEvent::Connected(Ok(session(5, "Bike"))));
    assert_eq!(manager.handle(BackendEvent::Services(Ok(vec!["1826".to_string()]))), Vec::new());
    assert_eq!(
        manager.handle(BackendEvent::Services(Err(DeviceConnectionError::new("timeout".to_string())))),
        vec![Effect::Report(Failure::ServiceDiscovery(DeviceConnectionError::new(
            "timeout".to_string()
        )))]
    );
    assert_eq!(manager.connected_device(), &Some(session(5, "Bike")));
}

#[test]
fn button_opens_the_dialog_only_when_powered() {
    let mut button = BluetoothButton::new();
    assert_eq!(button.status, BluetoothStatus::Unavailable);
    assert!(!button.update(AdapterStateInput::Clicked));
    assert!(!button.update(AdapterStateInput::ChangeStatus(BluetoothStatus::PoweredOff)));
    assert!(!button.update(AdapterStateInput::Clicked));
    button.update(AdapterStateInput::ChangeStatus(BluetoothStatus::Disconnected));
    assert!(button.update(AdapterStateInput::Clicked));
    button.update(AdapterStateInput::ChangeStatus(BluetoothStatus::Connected));
    assert!(button.update(AdapterStateInput::Clicked));
    assert_eq!(button.status, BluetoothStatus::Connected);
}

#[test]
fn details_page_follows_the_connection() {
    let mut page = ActiveDeviceDetails::new();
    assert_eq!(page.name, None);
    assert!(!page.connected);
    assert_eq!(
        page.update(ActiveDeviceDetailsInput::SetName("Bike".to_string())),
        DetailsEffect::Nothing
    );
    assert_eq!(page.name, Some("Bike".to_string()));
    assert_eq!(page.update(ActiveDeviceDetailsInput::SetConnected), DetailsEffect::DiscoverGattProfiles);
    assert!(page.connected);
    assert_eq!(
        page.update(ActiveDeviceDetailsInput::ConnectionFailed),
        DetailsEffect::Output(ActiveDeviceDetailsOutput::GoBack)
    );
    assert!(!page.connected);
    assert_eq!(page.name, Some("Bike".to_string()));
}

#[test]
fn listener_hands_events_on() {
    let mut listener = DeviceDiscoveryListener;
    assert_eq!(
        listener.update(DeviceDiscoveryEvent::DeviceLost(Address::new(3))),
        DeviceDiscoveryEvent::DeviceLost(Address::new(3))
    );
    assert_eq!(
        listener.update(DeviceDiscoveryEvent::DeviceFound(device(1, "A", DeviceSignalStrength::Weak))),
        DeviceDiscoveryEvent::DeviceFound(device(1, "A", DeviceSignalStrength::Weak))
    );
}

#[test]
fn listing_asks_to_connect_to_its_device() {
    let listing = DeviceListing { device: device(4, "Bike", DeviceSignalStrength::Full) };
    assert_eq!(listing.activated(), DeviceListingOutput::Connect(Address::new(4), "Bike".to_string()));
}

#[test]
fn dialog_lists_each_address_once() {
    let mut dialog = ConnectDialog::new();
    assert_eq!(dialog.devices().len(), 0);
    dialog.update(ConnectDialogInput::DeviceAdded(device(1, "A", DeviceSignalStrength::Weak)));
    dialog.update(ConnectDialogInput::DeviceAdded(device(2, "B", DeviceSignalStrength::Good)));
    dialog.update(ConnectDialogInput::DeviceAdded(device(1, "A2", DeviceSignalStrength::Full)));
    assert_eq!(
        dialog.devices(),
        &vec![
            DeviceListing { device: device(1, "A2", DeviceSignalStrength::Full) },
            DeviceListing { device: device(2, "B", DeviceSignalStrength::Good) },
        ]
    );
}

#[test]
fn dialog_removes_by_address() {
    let mut dialog = ConnectDialog::new();
    for (address, name) in [(1, "A"), (2, "B"), (3, "C")] {
        dialog.update(ConnectDialogInput::DeviceAdded(device(address, name, DeviceSignalStrength::Okay)));
    }
    assert_eq!(dialog.update(ConnectDialogInput::DeviceRemoved(Address::new(2))), Vec::new());
    assert_eq!(
        dialog.devices(),
        &vec![
            DeviceListing { device: device(1, "A", DeviceSignalStrength::Okay) },
            DeviceListing { device: device(3, "C", DeviceSignalStrength::Okay) },
        ]
    );
    dialog.update(ConnectDialogInput::DeviceRemoved(Address::new(9)));
    assert_eq!(dialog.devices().len(), 2);
}

#[test]
fn dialog_starts_each_scan_with_an_empty_list() {
    let mut dialog = ConnectDialog::new();
    dialog.update(ConnectDialogInput::DeviceAdded(device(1, "A", DeviceSignalStrength::Weak)));
    assert_eq!(
        dialog.update(ConnectDialogInput::StartScanning),
        vec![DialogEffect::Send(StateManagerInput::StartScanningForDevices)]
    );
    assert_eq!(dialog.devices().len(), 0);
    assert_eq!(
        dialog.update(ConnectDialogInput::StopScanning),
        vec![DialogEffect::Send(StateManagerInput::StopScanningForDevices)]
    );
}

#[test]
fn dialog_navigates() {
    let mut dialog = ConnectDialog::new();
    dialog.update(ConnectDialogInput::DeviceAdded(device(1, "A", DeviceSignalStrength::Weak)));
    assert_eq!(
        dialog.update(ConnectDialogInput::Connect(Address::new(1), "A".to_string())),
        vec![
            DialogEffect::ShowDetails,
            DialogEffect::Send(StateManagerInput::Connect(Address::new(1), "A".to_string())),
        ]
    );
    assert_eq!(dialog.update(ConnectDialogInput::GoBack), vec![DialogEffect::ShowScan]);
    assert_eq!(dialog.update(ConnectDialogInput::Close), vec![DialogEffect::Close]);
    assert_eq!(dialog.devices().len(), 1);
}

#[test]
fn coordinator_keeps_its_service() {
    let mut manager = ready();
    manager.update(StateManagerInput::StartScanningForDevices);
    manager.handle(BackendEvent::ScanFailed(BluetoothError::ScanFailed));
    manager.update(StateManagerInput::Connect(Address::new(1), "Bike".to_string()));
    manager.handle(BackendEvent::Connected(Ok(session(1, "Bike"))));
    manager.update(StateManagerInput::Disconnect);
    manager.handle(BackendEvent::Disconnected(Ok(())));
    assert_eq!(manager.bike_bt(), &Some(BikeBt { device: None }));

    let mut without = StateManager::init(BikeBt::new(true, false));
    without.update(StateManagerInput::StartScanningForDevices);
    without.handle(BackendEvent::Status(BluetoothStatus::Unavailable));
    assert_eq!(without.bike_bt(), &None);
    assert!(!without.is_scanning());
}
