//! The logic of an ESP32 "thing": a device with an RGB lamp that registers
//! itself with a registry over MQTT, takes a name and lamp commands from it,
//! and reports measurements.
//!
//! The library decides; the firmware around it talks to the hardware, the
//! non-volatile storage and the broker, and performs what the library asks.

pub mod app;
pub mod lamp;
pub mod nvs_uuid;
pub mod observer;
pub mod thing;
pub mod thing_mqtt;
pub mod thing_protocol;
pub mod wifi;
