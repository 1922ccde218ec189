//! Device configuration, identification and communication logic of the Buttplug server.
use vstd::prelude::*;

pub mod messages;
pub mod message_attributes;
pub mod text;
pub mod errors;
pub mod specifier;
pub mod identifiers;
pub mod definitions;
pub mod assoc;
pub mod concurrent;
pub mod configuration;
pub mod hardware;
pub mod dongle_messages;
pub mod dongle;
pub mod gamepad;
pub mod usb;
pub mod serial;
pub mod hid;
pub mod lovense_connect;
pub mod websocket;
pub mod btle;
pub mod manager;

verus! {

} // verus!
