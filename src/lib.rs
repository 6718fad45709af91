//! A transport adapter for one USB HID security token: blocking reads over a channel of
//! incoming reports, and blocking writes of fixed-size output reports with an optional
//! leading report identifier.

pub mod channel;
pub mod consts;
pub mod device;
pub mod hex;
