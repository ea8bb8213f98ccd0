//! Decision logic of a BLE central that finds a HID keyboard, connects to it,
//! secures the link and consumes its input reports.

pub mod acquisition;
pub mod address;
pub mod advert;
pub mod config;
pub mod connect;
pub mod handoff;
pub mod scan;
pub mod security;
pub mod session;
