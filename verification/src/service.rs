//! Services offered by the device.

pub mod ble;
