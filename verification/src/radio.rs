//! The abstract radio port: a half-duplex LoRa transceiver driven by the
//! PHY layer.  Concrete drivers implement [`Radio`] outside this crate.

use vstd::prelude::*;

verus! {

/// Errors a radio implementation may report.
#[derive(Debug, Clone, Copy, PartialEq, Eq, Structural)]
pub enum RadioError {
    /// Bus or transport failure while talking to the transceiver.
    Transport,
    /// GPIO failure.
    Gpio,
    /// The requested configuration is not representable.
    InvalidConfig,
    /// The operation timed out.
    Timeout,
    /// The hardware reported a fault.
    Hardware,
}

/// Radio modulation parameters.
#[derive(Debug, Clone, Copy, PartialEq, Eq, Structural)]
pub struct ModulationParams {
    /// Spreading factor (7..=12).
    pub spreading_factor: u8,
    /// Bandwidth in Hz.
    pub bandwidth: u32,
    /// Coding rate denominator (5 means 4/5).
    pub coding_rate: u8,
}

/// Radio transmit configuration.
#[derive(Debug, Clone, Copy, PartialEq, Eq, Structural)]
pub struct TxConfig {
    /// Frequency in Hz.
    pub frequency: u32,
    /// Output power in dBm.
    pub power: i8,
    /// Modulation parameters.
    pub modulation: ModulationParams,
}

/// Radio receive configuration.
#[derive(Debug, Clone, Copy, PartialEq, Eq, Structural)]
pub struct RxConfig {
    /// Frequency in Hz.
    pub frequency: u32,
    /// Timeout in milliseconds; zero means continuous reception.
    pub timeout_ms: u32,
    /// Modulation parameters.
    pub modulation: ModulationParams,
}

/// The capability set of a LoRa transceiver.  Implementations live outside
/// the library and are expected to be synchronous and blocking; nothing is
/// assumed of their behaviour beyond their signatures.
pub trait Radio {
    /// Bring the transceiver out of reset and configure the LoRa modem.
    fn init(&mut self) -> Result<(), RadioError>;

    /// Set the carrier frequency in Hz.
    fn set_frequency(&mut self, freq: u32) -> Result<(), RadioError>;

    /// Set the output power in dBm.
    fn set_tx_power(&mut self, power: i8) -> Result<(), RadioError>;

    /// Transmit a frame; returns once the frame is on air.
    fn transmit(&mut self, data: &[u8]) -> Result<(), RadioError>;

    /// Receive a frame; an empty result means the window timed out.
    fn receive(&mut self) -> Result<Vec<u8>, RadioError>;

    /// Configure for transmission.
    fn configure_tx(&mut self, config: TxConfig) -> Result<(), RadioError>;

    /// Configure for reception.
    fn configure_rx(&mut self, config: RxConfig) -> Result<(), RadioError>;

    /// Signal strength of the last received packet, in dBm.
    fn get_rssi(&mut self) -> Result<i16, RadioError>;

    /// Signal-to-noise ratio of the last received packet, in dB.
    fn get_snr(&mut self) -> Result<i8, RadioError>;

    /// Whether a transmission is in progress.
    fn is_transmitting(&mut self) -> Result<bool, RadioError>;

    /// Set the receive gain level.
    fn set_rx_gain(&mut self, gain: u8) -> Result<(), RadioError>;

    /// Enable or disable the low-power receive mode.
    fn set_low_power_mode(&mut self, enabled: bool) -> Result<(), RadioError>;

    /// Put the transceiver to sleep.
    fn sleep(&mut self) -> Result<(), RadioError>;

    /// Reset the transceiver after a fault.
    fn reset(&mut self) -> Result<(), RadioError>;

    /// The monotonic clock of the platform, in milliseconds.
    fn get_time(&mut self) -> u32;
}

} // verus!
