//! Errors raised while finding, connecting to and talking with devices.
use vstd::prelude::*;
use crate::messages::Endpoint;

verus! {

/// An error specific to one kind of hardware, with the message the hardware layer gave.
#[derive(Debug)]
pub enum HardwareSpecificError {
    SDL2Error(String),
    XInputError(String),
    UsbError(String),
    SerialError(String),
}

/// An error raised by a device or by the device layer.
#[derive(Debug)]
pub enum ButtplugDeviceError {
    DeviceCommunicationError(String),
    DeviceConnectionError(String),
    DeviceNotAvailable(u32),
    DeviceNotConnected(String),
    DeviceScanningAlreadyStopped,
    DeviceSpecificError(HardwareSpecificError),
    InvalidEndpoint(Endpoint),
    UnhandledCommand(String),
}

} // verus!
