//! Class A: after each uplink the device opens two short receive windows,
//! and may not transmit again until both have closed.

use vstd::prelude::*;

use crate::classes::OperatingMode;
use crate::config::AESKey;
use crate::config::EUI64;
use crate::config::SessionState;
use crate::mac::MacError;
use crate::mac::MacLayer;
use crate::radio::Radio;
use crate::region::DataRate;

verus! {

/// Length of each receive window in milliseconds.
pub const RX_WINDOW_MS: u32 = 500;

/// The post-uplink receive-window state of a Class A device.  Each variant
/// after `Idle` carries the uplink completion time `t0`.
#[derive(Debug, Clone, Copy, PartialEq, Eq, Structural)]
pub enum ClassARxState {
    /// No windows pending; transmission allowed.
    Idle,
    /// Waiting for the RX1 window to open.
    WaitingRx1 {
        /// Uplink completion time in milliseconds.
        t0: u32,
    },
    /// The RX1 window is open.
    InRx1 {
        /// Uplink completion time in milliseconds.
        t0: u32,
    },
    /// RX1 closed without a frame; waiting for RX2.
    WaitingRx2 {
        /// Uplink completion time in milliseconds.
        t0: u32,
    },
    /// The RX2 window is open.
    InRx2 {
        /// Uplink completion time in milliseconds.
        t0: u32,
    },
}

/// `a - b` with 32-bit wrap-around, for elapsed monotonic milliseconds.
pub open spec fn wrap_sub(a: u32, b: u32) -> u32 {
    (((a - b) + 0x1_0000_0000) % 0x1_0000_0000) as u32
}

/// One scheduling step of the receive-window state machine at time `now`:
/// RX1 opens at `t0 + rx1_delay` for [`RX_WINDOW_MS`], RX2 at
/// `t0 + rx2_delay` for [`RX_WINDOW_MS`], after which the device is idle.
pub open spec fn rx_step_spec(
    state: ClassARxState,
    now: u32,
    rx1_delay: u32,
    rx2_delay: u32,
) -> ClassARxState {
    match state {
        ClassARxState::Idle => ClassARxState::Idle,
        ClassARxState::WaitingRx1 { t0 } => {
            if wrap_sub(now, t0) >= rx1_delay {
                ClassARxState::InRx1 { t0 }
            } else {
                state
            }
        },
        ClassARxState::InRx1 { t0 } => {
            if wrap_sub(now, t0) >= rx1_delay + RX_WINDOW_MS {
                ClassARxState::WaitingRx2 { t0 }
            } else {
                state
            }
        },
        ClassARxState::WaitingRx2 { t0 } => {
            if wrap_sub(now, t0) >= rx2_delay {
                ClassARxState::InRx2 { t0 }
            } else {
                state
            }
        },
        ClassARxState::InRx2 { t0 } => {
            if wrap_sub(now, t0) >= rx2_delay + RX_WINDOW_MS {
                ClassARxState::Idle
            } else {
                state
            }
        },
    }
}

/// Advance the receive-window state machine.  The machine reaches `Idle`
/// from a pending state only out of the RX2 window once
/// `rx2_delay + RX_WINDOW_MS` milliseconds have elapsed since the uplink:
/// no second uplink can begin earlier.
pub fn next_rx_state(state: ClassARxState, now: u32, rx1_delay: u32, rx2_delay: u32) -> (r:
    ClassARxState)
    requires
        rx1_delay <= 16000,
        rx2_delay <= 16000,
    ensures
        r == rx_step_spec(state, now, rx1_delay, rx2_delay),
        r is Idle ==> state is Idle || (state matches ClassARxState::InRx2 { t0 } && wrap_sub(
            now,
            t0,
        ) >= rx2_delay + RX_WINDOW_MS),
{
    match state {
        ClassARxState::Idle => ClassARxState::Idle,
        ClassARxState::WaitingRx1 { t0 } => {
            if now.wrapping_sub(t0) >= rx1_delay {
                ClassARxState::InRx1 { t0 }
            } else {
                state
            }
        },
        ClassARxState::InRx1 { t0 } => {
            if now.wrapping_sub(t0) >= rx1_delay + RX_WINDOW_MS {
                ClassARxState::WaitingRx2 { t0 }
            } else {
                state
            }
        },
        ClassARxState::WaitingRx2 { t0 } => {
            if now.wrapping_sub(t0) >= rx2_delay {
                ClassARxState::InRx2 { t0 }
            } else {
                state
            }
        },
        ClassARxState::InRx2 { t0 } => {
            if now.wrapping_sub(t0) >= rx2_delay + RX_WINDOW_MS {
                ClassARxState::Idle
            } else {
                state
            }
        },
    }
}

/// A Class A device: the MAC layer plus the receive-window state machine.
pub struct ClassA<R: Radio> {
    /// The MAC layer.
    pub mac: MacLayer<R>,
    /// The receive-window state.
    pub rx_state: ClassARxState,
    /// Whether the pending windows belong to a join request, which uses
    /// the longer join-accept delays.
    pub join_wait: bool,
}

impl<R: Radio> ClassA<R> {
    /// The invariant of a well-formed Class A device.
    pub open spec fn wf(&self) -> bool {
        self.mac.wf()
    }

    /// Create a new Class A device around a MAC layer.
    pub fn new(mac: MacLayer<R>) -> (r: Self)
        requires
            mac.wf(),
        ensures
            r.wf(),
            r.mac == mac,
            r.rx_state is Idle,
            !r.join_wait,
    {
        Self { mac, rx_state: ClassARxState::Idle, join_wait: false }
    }

    /// The operating mode of this class.
    pub fn operating_mode(&self) -> (r: OperatingMode)
        ensures
            r == OperatingMode::ClassA,
    {
        OperatingMode::ClassA
    }

    /// Send application data.  Transmission is refused while receive
    /// windows of a previous uplink are still pending; on success the
    /// uplink counter is raised by one and the windows are re-armed.
    pub fn send_data(&mut self, port: u8, data: &[u8], confirmed: bool) -> (r: Result<
        (),
        MacError,
    >)
        requires
            old(self).wf(),
        ensures
            final(self).wf(),
            final(self).mac.session_identity_unchanged(&old(self).mac),
            final(self).mac.session.fcnt_down == old(self).mac.session.fcnt_down,
            !(old(self).rx_state is Idle) ==> r == Err::<(), MacError>(MacError::Timeout)
                && *final(self) == *old(self),
            r is Ok ==> final(self).mac.session.fcnt_up == crate::mac::wrap_inc(
                old(self).mac.session.fcnt_up,
            ),
            data@.len() > 242 ==> r is Err,
            r is Ok ==> final(self).rx_state is WaitingRx1 && !final(self).join_wait,
            r is Err ==> final(self).mac.session.fcnt_up == old(self).mac.session.fcnt_up,
    {
        if !matches!(self.rx_state, ClassARxState::Idle) {
            return Err(MacError::Timeout);
        }
        let result = if confirmed {
            self.mac.send_confirmed(port, data)
        } else {
            self.mac.send_unconfirmed(port, data)
        };
        match result {
            Ok(()) => {
                let t0 = self.mac.get_time();
                self.rx_state = ClassARxState::WaitingRx1 { t0 };
                self.join_wait = false;
                Ok(())
            },
            Err(e) => Err(e),
        }
    }

    /// Send a join request; the join-accept windows use the longer delays.
    pub fn send_join_request(&mut self, dev_eui: EUI64, app_eui: EUI64, app_key: AESKey) -> (r:
        Result<(), MacError>)
        requires
            old(self).wf(),
        ensures
            final(self).wf(),
            r is Ok ==> final(self).mac.session.dev_nonce == ((old(self).mac.session.dev_nonce + 1)
                % 0x10000) as u16,
            r is Ok ==> final(self).rx_state is WaitingRx1 && final(self).join_wait,
            final(self).mac.session.fcnt_up == old(self).mac.session.fcnt_up,
            final(self).mac.session.fcnt_down == old(self).mac.session.fcnt_down,
    {
        if !matches!(self.rx_state, ClassARxState::Idle) {
            return Err(MacError::Timeout);
        }
        match self.mac.join_request(dev_eui, app_eui, &app_key) {
            Ok(()) => {
                let t0 = self.mac.get_time();
                self.rx_state = ClassARxState::WaitingRx1 { t0 };
                self.join_wait = true;
                Ok(())
            },
            Err(e) => Err(e),
        }
    }

    /// Drive the receive windows: open RX1 and RX2 at their times, take in
    /// a frame while a window is open, and fall back to idle when both
    /// windows have passed.  An accepted downlink raises the stored
    /// downlink counter and closes the windows; rejected frames are
    /// dropped silently.
    pub fn process(&mut self) -> (r: Result<(), MacError>)
        requires
            old(self).wf(),
        ensures
            final(self).wf(),
            final(self).mac.session_identity_unchanged(&old(self).mac),
            final(self).mac.session.fcnt_up == old(self).mac.session.fcnt_up,
            final(self).mac.session.fcnt_down >= old(self).mac.session.fcnt_down,
            ({
                let accepted = final(self).mac.session.fcnt_down
                    > old(self).mac.session.fcnt_down;
                let was_pending = !(old(self).rx_state is Idle);
                let was_rx2 = old(self).rx_state is InRx2;
                final(self).rx_state is Idle && was_pending ==> (accepted || was_rx2)
            }),
    {
        let now = self.mac.get_time();
        let (rx1_delay, rx2_delay) = if self.join_wait {
            (5000, 6000)
        } else {
            let d1 = self.mac.region.receive_delay1();
            (d1, self.mac.region.receive_delay2())
        };
        let before = self.rx_state;
        let next = next_rx_state(before, now, rx1_delay, rx2_delay);
        // Configure the radio when a window opens.
        if matches!(next, ClassARxState::InRx1 { .. }) && !matches!(
            before,
            ClassARxState::InRx1 { .. },
        ) {
            if let Ok((freq, dr)) = self.mac.get_rx1_params() {
                let _ = self.mac.set_rx_config(freq, DataRate::from_index(dr), RX_WINDOW_MS);
            }
        }
        if matches!(next, ClassARxState::InRx2 { .. }) && !matches!(
            before,
            ClassARxState::InRx2 { .. },
        ) {
            let freq = self.mac.region.rx2_frequency();
            let dr = self.mac.region.rx2_data_rate();
            let _ = self.mac.set_rx_config(freq, DataRate::from_index(dr), RX_WINDOW_MS);
        }
        self.rx_state = next;
        // Both windows passed without an acknowledging downlink: spend one
        // retransmission of a pending confirmed uplink and re-arm the
        // windows; an exhausted budget gives the acknowledgment up.
        if matches!(before, ClassARxState::InRx2 { .. }) && matches!(next, ClassARxState::Idle) {
            match self.mac.retransmit_pending() {
                Ok(true) => {
                    let t0 = self.mac.get_time();
                    self.rx_state = ClassARxState::WaitingRx1 { t0 };
                    return Ok(());
                },
                _ => {},
            }
        }
        // While a window is open, try to take in a frame.
        if matches!(self.rx_state, ClassARxState::InRx1 { .. }) || matches!(
            self.rx_state,
            ClassARxState::InRx2 { .. },
        ) {
            if let Ok(buffer) = self.mac.receive() {
                if buffer.len() > 0 {
                    match self.mac.decrypt_payload(buffer.as_slice()) {
                        Ok(_) => {
                            // Accepted: consume and cancel the remaining window.
                            self.rx_state = ClassARxState::Idle;
                            self.join_wait = false;
                        },
                        Err(_) => {
                            // Invalid frames are dropped silently.
                        },
                    }
                }
            }
        }
        Ok(())
    }

    /// Receive raw bytes from the radio.
    pub fn receive(&mut self) -> (r: Result<Vec<u8>, MacError>)
        requires
            old(self).wf(),
        ensures
            final(self).wf(),
            final(self).mac.session == old(self).mac.session,
    {
        self.mac.receive()
    }

    /// The current session state.
    pub fn get_session_state(&self) -> (r: SessionState)
        ensures
            r == self.mac.session,
    {
        self.mac.get_session_state()
    }

    /// Borrow the MAC layer.
    pub fn get_mac_layer(&self) -> (r: &MacLayer<R>)
        ensures
            r == &self.mac,
    {
        &self.mac
    }
}

} // verus!
