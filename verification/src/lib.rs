//! Verified protocol logic for the LELO F1s V3 (BLE) toy.
//!
//! The crate holds the parts of the device protocol that decide things:
//! how sensor frames are decoded, which endpoints each sensor lives on,
//! what the vibration command looks like, how the sensor subscription
//! bookkeeping evolves, and the authorisation handshake as a state machine.
//! Performing the Bluetooth I/O is left to the caller.

pub mod protocol;
pub mod decode;
pub mod device;
pub mod auth;
