//! Bluetooth Low Energy peripheral session engine of a small virtual-pet
//! device, written free of I/O: every function maps plain values to plain
//! values, and the caller performs the radio, flash and timer work.

pub mod service;
