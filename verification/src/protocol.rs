//! Plain data types shared by the protocol logic.

use vstd::prelude::*;

verus! {

/// A device feature or service id; carried through the protocol unchanged.
#[verifier::external_type_specification]
#[verifier::external_body]
pub struct ExUuid(uuid::Uuid);

/// Hardware endpoints that the F1s V3 protocol talks to.
#[derive(Clone, Copy, Debug, PartialEq, Eq, Structural)]
pub enum Endpoint {
    Tx,
    Rx,
    RxBLEBattery,
    RxPressure,
    RxTouch,
    RxAccel,
    Generic1,
    Whitelist,
}

/// The kinds of input (sensor) a client may ask a device about.
#[derive(Clone, Copy, Debug, PartialEq, Eq, Structural)]
pub enum InputType {
    Battery,
    Rssi,
    Button,
    Pressure,
    Depth,
    Accelerometer,
    Position,
}

/// A decoded sensor value.
#[derive(Clone, Copy, Debug, PartialEq, Eq, Structural)]
pub enum InputTypeReading {
    /// Pressure in the device's unit, already divided by 100.
    Pressure(u32),
    /// Insertion depth level.
    Depth(u8),
    /// Accelerometer axes x, y, z.
    Accelerometer(i32, i32, i32),
    /// Button state code.
    Button(u8),
    /// Battery level in percent (reported by the generic battery reader).
    Battery(u8),
}

/// A sensor reading addressed to a device and one of its features.
#[derive(Clone, Copy, Debug, PartialEq, Eq, Structural)]
pub struct InputReading {
    pub device_index: u32,
    pub feature_index: u32,
    pub reading: InputTypeReading,
}

/// Why a protocol operation was refused.
#[derive(Clone, Copy, Debug, PartialEq, Eq, Structural)]
pub enum DeviceError {
    /// The sensor type is not one that this device handles.
    UnsupportedSensor,
    /// A pressure frame was too short or not marked valid.
    InvalidPressureData,
    /// A depth frame was too short.
    InvalidDepthData,
    /// An accelerometer frame was too short.
    InvalidAccelData,
    /// A button frame was empty.
    InvalidButtonData,
    /// No usable password arrived while waiting for the power button.
    NoPassword,
    /// The device did not confirm the written password.
    HandshakeFailed,
}

/// The text that goes with each error.
pub open spec fn error_message(e: DeviceError) -> Seq<char> {
    match e {
        DeviceError::UnsupportedSensor => "Unsupported sensor type"@,
        DeviceError::InvalidPressureData => "Invalid pressure data length"@,
        DeviceError::InvalidDepthData => "Invalid depth data length"@,
        DeviceError::InvalidAccelData => "Invalid accel data length"@,
        DeviceError::InvalidButtonData => "Invalid button data length"@,
        DeviceError::NoPassword => "Did not receive a valid password notification within the timeout."@,
        DeviceError::HandshakeFailed => "Handshake failed. Result was not 01. Did you press the power button?"@,
    }
}

impl DeviceError {
    /// Whether the error is specific to this protocol (as opposed to a
    /// command the device does not handle at all).
    pub fn is_protocol_specific(&self) -> (r: bool)
        ensures
            r == !(*self is UnsupportedSensor),
    {
        match self {
            DeviceError::UnsupportedSensor => false,
            _ => true,
        }
    }

    /// The human-readable message of the error.
    pub fn message(&self) -> (r: &'static str)
        ensures
            r@ == error_message(*self),
    {
        match self {
            DeviceError::UnsupportedSensor => "Unsupported sensor type",
            DeviceError::InvalidPressureData => "Invalid pressure data length",
            DeviceError::InvalidDepthData => "Invalid depth data length",
            DeviceError::InvalidAccelData => "Invalid accel data length",
            DeviceError::InvalidButtonData => "Invalid button data length",
            DeviceError::NoPassword => "Did not receive a valid password notification within the timeout.",
            DeviceError::HandshakeFailed => "Handshake failed. Result was not 01. Did you press the power button?",
        }
    }
}

} // verus!

verus! {

/// A write of `data` to one endpoint of a feature.
#[derive(Debug)]
pub struct HardwareWriteCmd {
    pub feature_id: uuid::Uuid,
    pub endpoint: Endpoint,
    pub data: Vec<u8>,
    pub write_with_response: bool,
}

/// A read of up to `length` bytes from one endpoint of a feature.
#[derive(Debug)]
pub struct HardwareReadCmd {
    pub feature_id: uuid::Uuid,
    pub endpoint: Endpoint,
    pub length: u32,
    pub timeout_ms: u32,
}

/// A request for notifications from one endpoint of a feature.
#[derive(Debug)]
pub struct HardwareSubscribeCmd {
    pub feature_id: uuid::Uuid,
    pub endpoint: Endpoint,
}

/// The end of notifications from one endpoint of a feature.
#[derive(Debug)]
pub struct HardwareUnsubscribeCmd {
    pub feature_id: uuid::Uuid,
    pub endpoint: Endpoint,
}

} // verus!
