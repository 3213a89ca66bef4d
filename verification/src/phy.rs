//! The PHY layer: a thin adapter mapping MAC-level transmit and receive
//! requests onto radio configuration.

use vstd::prelude::*;

use crate::radio::ModulationParams;
use crate::radio::Radio;
use crate::radio::RadioError;
use crate::radio::RxConfig;
use crate::radio::TxConfig;
use crate::region::Channel;
use crate::region::DataRate;

verus! {

/// Receive-window timing parameters, in seconds.
#[derive(Debug, Clone, Copy, PartialEq, Eq, Structural)]
pub struct TimingParams {
    /// RX1 delay.
    pub rx1_delay: u32,
    /// RX2 delay.
    pub rx2_delay: u32,
    /// First join-accept window delay.
    pub join_accept_delay1: u32,
    /// Second join-accept window delay.
    pub join_accept_delay2: u32,
}

impl Default for TimingParams {
    /// The LoRaWAN defaults: 1 s / 2 s for data, 5 s / 6 s for join.
    fn default() -> (r: Self)
        ensures
            r == (TimingParams {
                rx1_delay: 1u32,
                rx2_delay: 2u32,
                join_accept_delay1: 5u32,
                join_accept_delay2: 6u32,
            }),
    {
        Self { rx1_delay: 1, rx2_delay: 2, join_accept_delay1: 5, join_accept_delay2: 6 }
    }
}

/// PHY layer configuration.
#[derive(Debug, Clone, Copy, PartialEq, Eq, Structural)]
pub struct PhyConfig {
    /// Timing parameters.
    pub timing: TimingParams,
}

impl Default for PhyConfig {
    /// The default timing parameters.
    fn default() -> (r: Self)
        ensures
            r == (PhyConfig { timing: TimingParams {
                rx1_delay: 1u32,
                rx2_delay: 2u32,
                join_accept_delay1: 5u32,
                join_accept_delay2: 6u32,
            } }),
    {
        Self { timing: TimingParams::default() }
    }
}

/// The PHY layer: the radio plus its timing configuration.
pub struct PhyLayer<R: Radio> {
    /// The radio driver.
    pub radio: R,
    /// Timing configuration.
    pub config: PhyConfig,
}

impl<R: Radio> PhyLayer<R> {
    /// Create a new PHY layer with default timing.
    pub fn new(radio: R) -> (r: Self)
        ensures
            r.config == (PhyConfig { timing: TimingParams {
                rx1_delay: 1u32,
                rx2_delay: 2u32,
                join_accept_delay1: 5u32,
                join_accept_delay2: 6u32,
            } }),
    {
        Self { radio, config: PhyConfig::default() }
    }

    /// Initialize the radio.
    pub fn init(&mut self) -> (r: Result<(), RadioError>)
        ensures
            final(self).config == old(self).config,
    {
        self.radio.init()
    }

    /// Configure the radio to transmit on a channel at a data rate and
    /// output power.
    pub fn configure_tx(&mut self, channel: &Channel, data_rate: DataRate, power_dbm: i8) -> (r:
        Result<(), RadioError>)
        ensures
            final(self).config == old(self).config,
    {
        let config = TxConfig {
            frequency: channel.frequency,
            power: power_dbm,
            modulation: ModulationParams {
                spreading_factor: data_rate.spreading_factor(),
                bandwidth: data_rate.bandwidth(),
                coding_rate: 5,
            },
        };
        self.radio.configure_tx(config)
    }

    /// Configure the radio to receive on a frequency at a data rate, with a
    /// timeout in milliseconds (zero means continuous).
    pub fn configure_rx(&mut self, frequency: u32, data_rate: DataRate, timeout_ms: u32) -> (r:
        Result<(), RadioError>)
        ensures
            final(self).config == old(self).config,
    {
        let config = RxConfig {
            frequency,
            modulation: ModulationParams {
                spreading_factor: data_rate.spreading_factor(),
                bandwidth: data_rate.bandwidth(),
                coding_rate: 5,
            },
            timeout_ms,
        };
        self.radio.configure_rx(config)
    }

    /// Transmit a frame.
    pub fn transmit(&mut self, data: &[u8]) -> (r: Result<(), RadioError>)
        ensures
            final(self).config == old(self).config,
    {
        self.radio.transmit(data)
    }

    /// Receive a frame; an empty result means the window timed out.
    pub fn receive(&mut self) -> (r: Result<Vec<u8>, RadioError>)
        ensures
            final(self).config == old(self).config,
    {
        self.radio.receive()
    }

    /// Signal strength of the last received packet.
    pub fn get_rssi(&mut self) -> (r: Result<i16, RadioError>)
        ensures
            final(self).config == old(self).config,
    {
        self.radio.get_rssi()
    }

    /// Signal-to-noise ratio of the last received packet.
    pub fn get_snr(&mut self) -> (r: Result<i8, RadioError>)
        ensures
            final(self).config == old(self).config,
    {
        self.radio.get_snr()
    }

    /// Whether a transmission is in progress.
    pub fn is_transmitting(&mut self) -> (r: Result<bool, RadioError>)
        ensures
            final(self).config == old(self).config,
    {
        self.radio.is_transmitting()
    }

    /// The platform's monotonic clock, in milliseconds.
    pub fn get_time(&mut self) -> (r: u32)
        ensures
            final(self).config == old(self).config,
    {
        self.radio.get_time()
    }
}

} // verus!
