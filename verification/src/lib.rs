//! Decision core of a Bluetooth Low-Energy session manager.
//!
//! The library tracks the state of the local adapter, turns what the bus
//! tells of devices into snapshots, keeps account of signal subscriptions,
//! and runs the steps of connecting to a device. It never talks to the bus
//! itself: its caller does, and hands in what the bus answered.

pub mod address;
pub mod bluetooth;
pub mod bluetooth_error;
pub mod bluetooth_status;
pub mod bus;
pub mod components;
pub mod connected_device;
pub mod connection_state;
pub mod device;
pub mod sequences;
pub mod service;
pub mod state_manager;
pub mod subscription;

pub use address::Address;
pub use bluetooth::AdapterEvent;
pub use bluetooth::AdapterProperty;
pub use bluetooth::BikeBt;
pub use bluetooth::ConnectAnswer;
pub use bluetooth::ConnectAttempt;
pub use bluetooth::ConnectProgress;
pub use bluetooth::ConnectStep;
pub use bluetooth_error::BluetoothError;
pub use bluetooth_error::ConnectError;
pub use bluetooth_error::ConnectFailure;
pub use bluetooth_error::DeviceConnectionError;
pub use bluetooth_status::BluetoothStatus;
pub use connected_device::ConnectedDevice;
pub use connected_device::Disconnect;
pub use connection_state::Bluetooth;
pub use connection_state::ConnectionState;
pub use device::Device;
pub use device::DeviceDiscoveryEvent;
pub use device::DeviceReadings;
pub use device::DeviceSignalStrength;
pub use device::DeviceStatus;
pub use service::BluetoothService;
pub use state_manager::StateManager;
pub use state_manager::StateManagerInput;
pub use subscription::LockAttempt;
pub use subscription::SubscriptionHandle;
pub use subscription::SubscriptionKind;
pub use subscription::SubscriptionRegistry;
