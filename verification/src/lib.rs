//! A LoRaWAN 1.0.3 end-device protocol stack, verified with Verus.
//!
//! The crate covers the MAC layer (framing, encryption, integrity codes,
//! frame counters, MAC commands, join), the device-class state machines
//! (A, B and C) and the US915 regional channel plan.  Radio hardware is
//! reached only through the abstract [`radio::Radio`] port.

pub mod config;
pub mod beacon;
pub mod class_a;
pub mod class_b;
pub mod class_c;
pub mod classes;
pub mod commands;
pub mod crypto;
pub mod device;
pub mod mac;
pub mod phy;
pub mod ping_slot;
pub mod power;
pub mod radio;
pub mod region;
pub mod timing;

pub use config::DeviceConfig;
