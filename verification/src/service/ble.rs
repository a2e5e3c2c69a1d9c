//! The Bluetooth Low Energy peripheral role.

pub mod security;
pub mod advertise_service;
pub mod bond_log;
pub mod gatt_service;
pub mod little_endian;
pub mod notification_characteristics;
pub mod notification_service;
pub mod orchestrator;
pub mod storage_service;
