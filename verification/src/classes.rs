//! Types shared by the device classes.

use vstd::prelude::*;

verus! {

/// Device operating mode.
#[derive(Debug, Clone, Copy, PartialEq, Eq, Structural)]
pub enum OperatingMode {
    /// Class A: two receive windows after each uplink.
    ClassA,
    /// Class B: scheduled receive slots synchronized with a beacon.
    ClassB,
    /// Class C: continuous reception.
    ClassC,
}

/// A receive-window configuration requested by a class.
#[derive(Debug, Clone, Copy, PartialEq, Eq, Structural)]
pub struct RxConfig {
    /// Window frequency in Hz.
    pub frequency: u32,
    /// Window data-rate index.
    pub rx2_data_rate: u8,
    /// Window timeout in milliseconds.
    pub rx_timeout: u32,
}

/// Class B scheduling state.
#[derive(Debug, Clone, Copy, PartialEq, Eq, Structural)]
pub struct ClassBState {
    /// Next ping-slot time in milliseconds after the beacon.
    pub next_ping_slot: u32,
    /// Ping period in slots.
    pub ping_period: u32,
    /// Ping-slot frequency in Hz.
    pub ping_frequency: u32,
    /// Ping-slot data-rate index.
    pub ping_data_rate: u8,
}

impl ClassBState {
    /// The default Class B state: period 32, no slot scheduled.
    pub fn new() -> (r: Self)
        ensures
            r == (ClassBState {
                next_ping_slot: 0u32,
                ping_period: 32u32,
                ping_frequency: 0u32,
                ping_data_rate: 0u8,
            }),
    {
        Self { next_ping_slot: 0, ping_period: 32, ping_frequency: 0, ping_data_rate: 0 }
    }

    /// Drop any scheduled ping slot.
    pub fn clear_ping_slots(&mut self)
        ensures
            final(self).next_ping_slot == 0,
            *final(self) == (ClassBState { next_ping_slot: 0u32, ..*old(self) }),
    {
        self.next_ping_slot = 0;
    }
}

} // verus!
