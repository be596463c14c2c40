//! The models behind the presentation layer: what each piece of the
//! interface holds, and how the messages it receives change it.

pub mod active_device_details;
pub mod bluetooth_button;
pub mod connect_dialog;
