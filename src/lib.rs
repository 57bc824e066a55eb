//! A Bluetooth Low Energy client core for action cameras: a catalog of the
//! GATT fields the camera exposes, decoding of what is read from them,
//! selection of the camera among scanned peripherals, the connection
//! lifecycle, and assembly of the information records.
pub mod catalog;
pub mod reader;
pub mod locator;
pub mod connection;
pub mod records;
