//! Class C: the RX2 window stays open continuously whenever the device is
//! not transmitting and not in RX1, and every return to RX2 reconfigures
//! the radio with the region's authoritative RX2 parameters.

use vstd::prelude::*;

use crate::classes::OperatingMode;
use crate::config::AESKey;
use crate::config::EUI64;
use crate::config::SessionState;
use crate::mac::MacError;
use crate::mac::MacLayer;
use crate::radio::Radio;
use crate::region::DataRate;

verus! {

/// Battery level at or below which the state is critical.
pub const BATTERY_CRITICAL_THRESHOLD: u8 = 10;

/// Battery level at or below which the state is low.
pub const BATTERY_LOW_THRESHOLD: u8 = 30;

/// The receive-window sub-states of a Class C device.
#[derive(Debug, Clone, Copy, PartialEq, Eq, Structural)]
pub enum RxWindowState {
    /// The transient RX1 window right after an uplink.
    Rx1Active,
    /// The continuous RX2 window (the default state).
    Rx2Active,
    /// Reception suspended, e.g. while transmitting.
    Suspended,
}

/// Power management state of a Class C device.
#[derive(Debug, Clone, Copy, PartialEq, Eq, Structural)]
pub struct PowerState {
    /// Battery level: 0 external power, 1..=254 level, 255 unknown.
    pub battery_level: u8,
    /// Whether power saving was requested.
    pub power_save: bool,
    /// Last RSSI reading in dBm.
    pub last_rssi: i16,
    /// Last SNR reading in dB.
    pub last_snr: i8,
}

impl PowerState {
    /// The initial power state: battery unknown, full receive duty.
    pub fn new() -> (r: Self)
        ensures
            r == (PowerState {
                battery_level: 255u8,
                power_save: false,
                last_rssi: 0i16,
                last_snr: 0i8,
            }),
    {
        Self { battery_level: 255, power_save: false, last_rssi: 0, last_snr: 0 }
    }

    /// Whether the battery is critically low (and not on external power).
    pub fn is_battery_critical(&self) -> (r: bool)
        ensures
            r == (self.battery_level > 0 && self.battery_level <= BATTERY_CRITICAL_THRESHOLD),
    {
        self.battery_level > 0 && self.battery_level <= BATTERY_CRITICAL_THRESHOLD
    }

    /// Whether the battery is low (and not on external power).
    pub fn is_battery_low(&self) -> (r: bool)
        ensures
            r == (self.battery_level > 0 && self.battery_level <= BATTERY_LOW_THRESHOLD),
    {
        self.battery_level > 0 && self.battery_level <= BATTERY_LOW_THRESHOLD
    }
}

/// A Class C device: the MAC layer, the RX2 parameters last written to the
/// radio, the window state, power management and error-recovery bookkeeping.
pub struct ClassC<R: Radio> {
    /// The MAC layer.
    pub mac: MacLayer<R>,
    /// The RX2 frequency last written to the radio.
    pub rx2_frequency: u32,
    /// The RX2 data rate last written to the radio.
    pub rx2_data_rate: u8,
    /// The current receive-window state.
    pub rx_state: RxWindowState,
    /// Power management state.
    pub power_state: PowerState,
    /// Consecutive radio-error recoveries (at most three before giving up).
    pub recovery_attempts: u8,
}

impl<R: Radio> ClassC<R> {
    /// The invariant of a well-formed Class C device.
    pub open spec fn wf(&self) -> bool {
        &&& self.mac.wf()
        &&& self.recovery_attempts <= 3
    }

    /// Create a new Class C device around a MAC layer.
    pub fn new(mac: MacLayer<R>, rx2_frequency: u32, rx2_data_rate: u8) -> (r: Self)
        requires
            mac.wf(),
        ensures
            r.wf(),
            r.mac == mac,
            r.rx2_frequency == rx2_frequency,
            r.rx2_data_rate == rx2_data_rate,
            r.rx_state is Rx2Active,
            r.power_state == (PowerState {
                battery_level: 255u8,
                power_save: false,
                last_rssi: 0i16,
                last_snr: 0i8,
            }),
            r.recovery_attempts == 0,
    {
        Self {
            mac,
            rx2_frequency,
            rx2_data_rate,
            rx_state: RxWindowState::Rx2Active,
            power_state: PowerState::new(),
            recovery_attempts: 0,
        }
    }

    /// The operating mode of this class.
    pub fn operating_mode(&self) -> (r: OperatingMode)
        ensures
            r == OperatingMode::ClassC,
    {
        OperatingMode::ClassC
    }

    /// Change the RX2 window parameters in the region and resume RX2 with
    /// them.
    pub fn configure_rx2(&mut self, frequency: u32, data_rate: u8) -> (r: Result<(), MacError>)
        requires
            old(self).wf(),
            8 <= data_rate <= 13,
        ensures
            final(self).wf(),
            final(self).mac.session == old(self).mac.session,
            final(self).mac.region.rx2_frequency == frequency,
            final(self).mac.region.rx2_data_rate == data_rate,
            r is Ok ==> final(self).rx_state is Rx2Active && final(self).rx2_frequency == frequency
                && final(self).rx2_data_rate == data_rate,
    {
        self.mac.region.set_rx2_frequency(frequency);
        self.mac.region.set_rx2_data_rate(data_rate);
        self.resume_rx2()
    }

    /// Resume the continuous RX2 window, reconfiguring the radio with the
    /// region's authoritative RX2 frequency and data rate.
    pub fn resume_rx2(&mut self) -> (r: Result<(), MacError>)
        requires
            old(self).wf(),
        ensures
            final(self).wf(),
            final(self).mac.session == old(self).mac.session,
            final(self).mac.region == old(self).mac.region,
            final(self).mac.pending_commands@ == old(self).mac.pending_commands@,
            final(self).power_state == old(self).power_state,
            final(self).recovery_attempts == old(self).recovery_attempts,
            r is Ok ==> final(self).rx_state is Rx2Active && final(self).rx2_frequency == old(self).mac.region.rx2_frequency && final(self).rx2_data_rate == old(self).mac.region.rx2_data_rate,
            r is Err ==> final(self).rx_state == old(self).rx_state,
    {
        let frequency = self.mac.region.rx2_frequency();
        let data_rate = self.mac.region.rx2_data_rate();
        match self.mac.set_rx_config(frequency, DataRate::from_index(data_rate), 0) {
            Ok(()) => {
                // Power saving duty-cycles the receiver instead of
                // stopping it: reception stays configured either way.
                let _ = self.mac.phy.radio.set_low_power_mode(self.power_state.power_save);
                self.rx_state = RxWindowState::Rx2Active;
                self.rx2_frequency = frequency;
                self.rx2_data_rate = data_rate;
                Ok(())
            },
            Err(e) => Err(e),
        }
    }

    /// Open the transient RX1 window after an uplink.
    fn start_rx1(&mut self, frequency: u32, data_rate: u8) -> (r: Result<(), MacError>)
        requires
            old(self).wf(),
        ensures
            final(self).wf(),
            final(self).mac.session == old(self).mac.session,
            final(self).mac.region == old(self).mac.region,
            final(self).rx_state is Rx1Active,
    {
        self.rx_state = RxWindowState::Rx1Active;
        self.mac.set_rx_config(frequency, DataRate::from_index(data_rate), 1000)
    }

    /// Suspend reception, e.g. for a transmission.
    fn suspend_rx(&mut self)
        ensures
            final(self).rx_state is Suspended,
            *final(self) == (ClassC { rx_state: RxWindowState::Suspended, ..*old(self) }),
    {
        self.rx_state = RxWindowState::Suspended;
    }

    /// Record a battery reading: a low battery latches power saving, and
    /// the reading reaches the MAC layer for device-status answers.
    pub fn update_power_state(&mut self, battery_level: u8)
        requires
            old(self).wf(),
        ensures
            final(self).wf(),
            final(self).power_state.battery_level == battery_level,
            final(self).power_state.power_save == (old(self).power_state.power_save || (
            battery_level > 0 && battery_level <= BATTERY_LOW_THRESHOLD)),
            final(self).power_state.last_rssi == old(self).power_state.last_rssi,
            final(self).power_state.last_snr == old(self).power_state.last_snr,
            final(self).mac.power.metrics.battery_level == battery_level,
            final(self).mac.session == old(self).mac.session,
            final(self).mac.region == old(self).mac.region,
            final(self).mac.pending_commands@ == old(self).mac.pending_commands@,
            final(self).rx_state == old(self).rx_state,
            final(self).rx2_frequency == old(self).rx2_frequency,
            final(self).rx2_data_rate == old(self).rx2_data_rate,
            final(self).recovery_attempts == old(self).recovery_attempts,
    {
        self.power_state.battery_level = battery_level;
        if self.power_state.is_battery_low() {
            self.power_state.power_save = true;
        }
        let _ = self.mac.power.update_battery(battery_level);
    }

    /// Refresh the last signal-quality readings from the radio.
    fn update_signal_metrics(&mut self) -> (r: Result<(), MacError>)
        requires
            old(self).wf(),
        ensures
            final(self).wf(),
            final(self).mac.session == old(self).mac.session,
            final(self).mac.region == old(self).mac.region,
            final(self).rx_state == old(self).rx_state,
            final(self).recovery_attempts == old(self).recovery_attempts,
            final(self).power_state.battery_level == old(self).power_state.battery_level,
            final(self).power_state.power_save == old(self).power_state.power_save,
    {
        match self.mac.phy.get_rssi() {
            Ok(rssi) => {
                self.power_state.last_rssi = rssi;
            },
            Err(e) => {
                return Err(MacError::Radio(e));
            },
        }
        match self.mac.phy.get_snr() {
            Ok(snr) => {
                self.power_state.last_snr = snr;
                self.mac.last_snr = snr;
            },
            Err(e) => {
                return Err(MacError::Radio(e));
            },
        }
        Ok(())
    }

    /// Recover from a radio error: up to three consecutive errors reset
    /// the radio and resume RX2; the next one is surfaced to the caller.
    fn handle_radio_error(&mut self, error: MacError) -> (r: Result<(), MacError>)
        requires
            old(self).wf(),
        ensures
            final(self).wf(),
            final(self).mac.session == old(self).mac.session,
            final(self).mac.region == old(self).mac.region,
            old(self).recovery_attempts >= 3 ==> r == Err::<(), MacError>(error) && final(self).recovery_attempts == 0,
            old(self).recovery_attempts < 3 ==> final(self).recovery_attempts == old(self).recovery_attempts + 1,
            old(self).recovery_attempts < 3 && r is Ok ==> final(self).rx_state is Rx2Active,
    {
        if self.recovery_attempts >= 3 {
            self.recovery_attempts = 0;
            return Err(error);
        }
        self.recovery_attempts = self.recovery_attempts + 1;
        match self.mac.phy.radio.reset() {
            Ok(()) => (),
            Err(e) => {
                return Err(MacError::Radio(e));
            },
        }
        self.resume_rx2()
    }

    /// Drive continuous reception: refresh signal metrics, take in a frame
    /// when one arrived, and run radio-error recovery.  Rejected frames
    /// are dropped silently; the stored downlink counter never decreases.
    pub fn process(&mut self) -> (r: Result<(), MacError>)
        requires
            old(self).wf(),
        ensures
            final(self).wf(),
            final(self).mac.session_identity_unchanged(&old(self).mac),
            final(self).mac.session.fcnt_up == old(self).mac.session.fcnt_up,
            final(self).mac.session.fcnt_down >= old(self).mac.session.fcnt_down,
            old(self).power_state.battery_level > 0 && old(self).power_state.battery_level
                <= BATTERY_CRITICAL_THRESHOLD ==> final(self).mac.session.fcnt_down == old(
                self,
            ).mac.session.fcnt_down,
    {
        if let Err(e) = self.update_signal_metrics() {
            if let Err(e2) = self.handle_radio_error(e) {
                return Err(e2);
            }
            return Ok(());
        }
        // At a critical battery level the receiver stays off between
        // uplinks.
        if self.power_state.is_battery_critical() {
            return Ok(());
        }
        match self.mac.receive() {
            Ok(buffer) => {
                if buffer.len() > 0 {
                    self.recovery_attempts = 0;
                    match self.mac.decrypt_payload(buffer.as_slice()) {
                        Ok(_) => (),
                        Err(_) => {
                            // Invalid frames are dropped silently.
                        },
                    }
                }
            },
            Err(e) => {
                if let Err(e2) = self.handle_radio_error(e) {
                    return Err(e2);
                }
            },
        }
        Ok(())
    }

    /// Send application data.  Reception is suspended for the
    /// transmission, the transient RX1 window is opened, and on success
    /// the device is back in the continuous RX2 window — configured with
    /// the region's RX2 frequency and data rate — before this returns.
    pub fn send_data(&mut self, port: u8, data: &[u8], confirmed: bool) -> (r: Result<
        (),
        MacError,
    >)
        requires
            old(self).wf(),
        ensures
            final(self).wf(),
            final(self).mac.session_identity_unchanged(&old(self).mac),
            final(self).mac.session.fcnt_down >= old(self).mac.session.fcnt_down,
            r is Ok ==> final(self).mac.session.fcnt_up == crate::mac::wrap_inc(
                old(self).mac.session.fcnt_up,
            ),
            data@.len() > 242 ==> r is Err,
            r is Ok ==> final(self).rx_state is Rx2Active,
            r is Ok ==> final(self).rx2_frequency == final(self).mac.region.rx2_frequency && final(self).rx2_data_rate == final(self).mac.region.rx2_data_rate,
            final(self).mac.session.fcnt_up == old(self).mac.session.fcnt_up || final(self).mac.session.fcnt_up == crate::mac::wrap_inc(old(self).mac.session.fcnt_up),
    {
        self.suspend_rx();
        let sent = if confirmed {
            self.mac.send_confirmed(port, data)
        } else {
            self.mac.send_unconfirmed(port, data)
        };
        match sent {
            Ok(()) => {
                // Transient RX1 on the downlink channel of the uplink
                // used: the radio blocks through the window, and a frame
                // taken in goes down the downlink path (invalid ones are
                // dropped silently).
                if let Ok((freq, dr)) = self.mac.current_rx1_params() {
                    if self.start_rx1(freq, dr).is_ok() {
                        if let Ok(buffer) = self.mac.receive() {
                            if buffer.len() > 0 {
                                let _ = self.mac.decrypt_payload(buffer.as_slice());
                            }
                        }
                    }
                }
                match self.resume_rx2() {
                    Ok(()) => Ok(()),
                    Err(e) => Err(e),
                }
            },
            Err(e) => {
                let _ = self.resume_rx2();
                Err(e)
            },
        }
    }

    /// Send a join request, suspending and then resuming RX2 around it.
    pub fn send_join_request(&mut self, dev_eui: EUI64, app_eui: EUI64, app_key: AESKey) -> (r:
        Result<(), MacError>)
        requires
            old(self).wf(),
        ensures
            final(self).wf(),
            final(self).mac.session.fcnt_up == old(self).mac.session.fcnt_up,
            final(self).mac.session.fcnt_down == old(self).mac.session.fcnt_down,
            r is Ok ==> final(self).mac.session.dev_nonce == ((old(self).mac.session.dev_nonce + 1)
                % 0x10000) as u16,
    {
        self.suspend_rx();
        let sent = self.mac.join_request(dev_eui, app_eui, &app_key);
        match sent {
            Ok(()) => {
                match self.resume_rx2() {
                    Ok(()) => Ok(()),
                    Err(e) => Err(e),
                }
            },
            Err(e) => {
                let _ = self.resume_rx2();
                Err(e)
            },
        }
    }

    /// Receive raw bytes; while suspended nothing is received.
    pub fn receive(&mut self) -> (r: Result<Vec<u8>, MacError>)
        requires
            old(self).wf(),
        ensures
            final(self).wf(),
            final(self).mac.session == old(self).mac.session,
            old(self).rx_state is Suspended ==> (r matches Ok(v) && v@.len() == 0),
    {
        match self.rx_state {
            RxWindowState::Suspended => Ok(Vec::new()),
            _ => self.mac.receive(),
        }
    }

    /// The current receive-window state.
    pub fn rx_window_state(&self) -> (r: RxWindowState)
        ensures
            r == self.rx_state,
    {
        self.rx_state
    }

    /// The current session state.
    pub fn get_session_state(&self) -> (r: SessionState)
        ensures
            r == self.mac.session,
    {
        self.mac.get_session_state()
    }

    /// Borrow the MAC layer.
    pub fn get_mac_layer(&self) -> (r: &MacLayer<R>)
        ensures
            r == &self.mac,
    {
        &self.mac
    }
}

} // verus!
