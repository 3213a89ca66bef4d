//! The device façade: one active class (A, B or C) owning the radio,
//! with sending, joining, receiving and class switching routed through it.

use vstd::prelude::*;

use crate::class_a::ClassA;
use crate::class_b::ClassB;
use crate::class_c::ClassC;
use crate::classes::OperatingMode;
use crate::config::AESKey;
use crate::config::DeviceConfig;
use crate::config::EUI64;
use crate::config::SessionState;
use crate::mac::MacError;
use crate::mac::MacLayer;
use crate::radio::Radio;
use crate::region::US915;

verus! {

/// Device-level errors.
#[derive(Debug, Clone, Copy, PartialEq, Eq, Structural)]
pub enum DeviceError {
    /// A MAC layer error.
    Mac(MacError),
    /// Invalid configuration.
    InvalidConfig,
    /// Invalid state for the requested operation.
    InvalidState,
}

impl From<MacError> for DeviceError {
    /// Wrap a MAC error.
    fn from(error: MacError) -> (r: Self) {
        DeviceError::Mac(error)
    }
}

impl vstd::std_specs::convert::FromSpecImpl<MacError> for DeviceError {
    open spec fn obeys_from_spec() -> bool {
        true
    }

    open spec fn from_spec(error: MacError) -> Self {
        DeviceError::Mac(error)
    }
}

/// The one active class of a device, owning the radio through its MAC
/// layer.
pub enum ActiveClass<R: Radio> {
    /// Class A.
    A(ClassA<R>),
    /// Class B.
    B(ClassB<R>),
    /// Class C.
    C(ClassC<R>),
}

/// The session held by the active class.
pub open spec fn session_of<R: Radio>(active: ActiveClass<R>) -> SessionState {
    match active {
        ActiveClass::A(a) => a.mac.session,
        ActiveClass::B(b) => b.mac.session,
        ActiveClass::C(c) => c.mac.session,
    }
}

/// The operating mode of the active class.
pub open spec fn mode_of<R: Radio>(active: ActiveClass<R>) -> OperatingMode {
    match active {
        ActiveClass::A(_) => OperatingMode::ClassA,
        ActiveClass::B(_) => OperatingMode::ClassB,
        ActiveClass::C(_) => OperatingMode::ClassC,
    }
}

/// The initial class-local state: fresh receive windows and trackers.
/// Class switching destroys class-local state, so a freshly built class
/// starts here.
pub open spec fn fresh_class_state<R: Radio>(active: ActiveClass<R>) -> bool {
    match active {
        ActiveClass::A(a) => a.rx_state is Idle && !a.join_wait,
        ActiveClass::B(b) => b.beacon_tracker.state is Idle,
        ActiveClass::C(c) => c.rx_state is Rx2Active && c.recovery_attempts == 0,
    }
}

/// Well-formedness of the active class.
pub open spec fn active_wf<R: Radio>(active: ActiveClass<R>) -> bool {
    match active {
        ActiveClass::A(a) => a.wf(),
        ActiveClass::B(b) => b.wf(),
        ActiveClass::C(c) => c.wf(),
    }
}

/// A LoRaWAN device: exactly one active class.
pub struct LoRaWANDevice<R: Radio> {
    /// The active class.
    pub active: ActiveClass<R>,
}

impl<R: Radio> LoRaWANDevice<R> {
    /// The invariant of a well-formed device.
    pub open spec fn wf(&self) -> bool {
        active_wf(self.active)
    }

    /// Create a device.  A configuration carrying a full ABP session
    /// starts activated; anything else starts with an empty session and
    /// must join.
    pub fn new(radio: R, config: DeviceConfig, region: US915, mode: OperatingMode) -> (r: Result<
        Self,
        DeviceError,
    >)
        requires
            region.wf(),
        ensures
            r matches Ok(d) ==> {
                &&& d.wf()
                &&& mode_of(d.active) == mode
                &&& fresh_class_state(d.active)
                &&& (config.dev_addr is Some && config.nwk_skey is Some && config.app_skey is Some
                    ==> session_of(d.active).activation is AbpActivated && session_of(
                    d.active,
                ).dev_addr == config.dev_addr->Some_0)
                &&& (!(config.dev_addr is Some && config.nwk_skey is Some && config.app_skey
                    is Some) ==> crate::config::all_zero(session_of(d.active).dev_addr@)
                    && crate::config::all_zero(session_of(d.active).nwk_skey@)
                    && crate::config::all_zero(session_of(d.active).app_skey@) && session_of(
                    d.active,
                ).activation is Inactive && session_of(d.active).dev_nonce == 0)
                &&& session_of(d.active).fcnt_up == 0
                &&& session_of(d.active).fcnt_down == 0
            },
            r is Ok,
    {
        let session = match (config.dev_addr, config.nwk_skey, config.app_skey) {
            (Some(addr), Some(nwk), Some(app)) => SessionState::new_abp(addr, nwk, app),
            _ => SessionState::new(),
        };
        let rx2_frequency = region.rx2_frequency();
        let rx2_data_rate = region.rx2_data_rate();
        let mac = MacLayer::new(radio, region, session);
        let active = match mode {
            OperatingMode::ClassA => ActiveClass::A(ClassA::new(mac)),
            OperatingMode::ClassB => ActiveClass::B(ClassB::new(mac)),
            OperatingMode::ClassC => ActiveClass::C(
                ClassC::new(mac, rx2_frequency, rx2_data_rate),
            ),
        };
        Ok(Self { active })
    }

    /// The current operating mode.
    pub fn operating_mode(&self) -> (r: OperatingMode)
        ensures
            r == mode_of(self.active),
    {
        match &self.active {
            ActiveClass::A(_) => OperatingMode::ClassA,
            ActiveClass::B(_) => OperatingMode::ClassB,
            ActiveClass::C(_) => OperatingMode::ClassC,
        }
    }

    /// Switch the device class.  The radio, region and session move out
    /// of the old class and into the new one: the session survives the
    /// switch, class-local state is discarded and the new class starts in
    /// its initial state.
    pub fn set_operating_mode(self, mode: OperatingMode) -> (r: Self)
        requires
            self.wf(),
        ensures
            r.wf(),
            mode_of(r.active) == mode,
            fresh_class_state(r.active),
            session_of(r.active) == session_of(self.active),
    {
        let mac = match self.active {
            ActiveClass::A(a) => a.mac,
            ActiveClass::B(b) => b.mac,
            ActiveClass::C(c) => c.mac,
        };
        let rx2_frequency = mac.region.rx2_frequency();
        let rx2_data_rate = mac.region.rx2_data_rate();
        let active = match mode {
            OperatingMode::ClassA => ActiveClass::A(ClassA::new(mac)),
            OperatingMode::ClassB => ActiveClass::B(ClassB::new(mac)),
            OperatingMode::ClassC => ActiveClass::C(
                ClassC::new(mac, rx2_frequency, rx2_data_rate),
            ),
        };
        Self { active }
    }

    /// Drive the scheduled work of the active class.  The uplink counter
    /// is untouched and the downlink counter never decreases.
    pub fn process(&mut self) -> (r: Result<(), DeviceError>)
        requires
            old(self).wf(),
        ensures
            final(self).wf(),
            mode_of(final(self).active) == mode_of(old(self).active),
            session_of(final(self).active).fcnt_up == session_of(old(self).active).fcnt_up,
            session_of(final(self).active).fcnt_down >= session_of(old(self).active).fcnt_down,
    {
        let result = match &mut self.active {
            ActiveClass::A(a) => a.process(),
            ActiveClass::B(b) => b.process(),
            ActiveClass::C(c) => c.process(),
        };
        match result {
            Ok(()) => Ok(()),
            Err(e) => Err(DeviceError::Mac(e)),
        }
    }

    /// Send application data on a port.  Ports outside 1..=223 are
    /// refused without touching any state, oversize payloads are refused
    /// by the MAC layer; on success the uplink counter is raised by
    /// exactly one.
    pub fn send_data(&mut self, port: u8, data: &[u8], confirmed: bool) -> (r: Result<
        (),
        DeviceError,
    >)
        requires
            old(self).wf(),
        ensures
            final(self).wf(),
            mode_of(final(self).active) == mode_of(old(self).active),
            port == 0 || port > 223 ==> r == Err::<(), DeviceError>(
                DeviceError::Mac(MacError::InvalidPort),
            ) && *final(self) == *old(self),
            data@.len() > 242 && 1 <= port <= 223 ==> r is Err,
            r is Ok ==> session_of(final(self).active).fcnt_up == crate::mac::wrap_inc(
                session_of(old(self).active).fcnt_up,
            ),
            session_of(final(self).active).fcnt_up == session_of(old(self).active).fcnt_up
                || session_of(final(self).active).fcnt_up == crate::mac::wrap_inc(
                session_of(old(self).active).fcnt_up,
            ),
            session_of(final(self).active).fcnt_down >= session_of(old(self).active).fcnt_down,
    {
        if port == 0 || port > 223 {
            return Err(DeviceError::Mac(MacError::InvalidPort));
        }
        let result = match &mut self.active {
            ActiveClass::A(a) => a.send_data(port, data, confirmed),
            ActiveClass::B(b) => b.send_data(port, data, confirmed),
            ActiveClass::C(c) => c.send_data(port, data, confirmed),
        };
        match result {
            Ok(()) => Ok(()),
            Err(e) => Err(DeviceError::Mac(e)),
        }
    }

    /// Send a join request for over-the-air activation.
    pub fn join_otaa(&mut self, dev_eui: EUI64, app_eui: EUI64, app_key: AESKey) -> (r: Result<
        (),
        DeviceError,
    >)
        requires
            old(self).wf(),
        ensures
            final(self).wf(),
            mode_of(final(self).active) == mode_of(old(self).active),
            session_of(final(self).active).fcnt_up == session_of(old(self).active).fcnt_up,
    {
        let result = match &mut self.active {
            ActiveClass::A(a) => a.send_join_request(dev_eui, app_eui, app_key),
            ActiveClass::B(b) => b.send_join_request(dev_eui, app_eui, app_key),
            ActiveClass::C(c) => c.send_join_request(dev_eui, app_eui, app_key),
        };
        match result {
            Ok(()) => Ok(()),
            Err(e) => Err(DeviceError::Mac(e)),
        }
    }

    /// Receive raw bytes from the active class.
    pub fn receive(&mut self) -> (r: Result<Vec<u8>, DeviceError>)
        requires
            old(self).wf(),
        ensures
            final(self).wf(),
            mode_of(final(self).active) == mode_of(old(self).active),
            session_of(final(self).active) == session_of(old(self).active),
    {
        let result = match &mut self.active {
            ActiveClass::A(a) => a.receive(),
            ActiveClass::B(b) => b.receive(),
            ActiveClass::C(c) => c.receive(),
        };
        match result {
            Ok(v) => Ok(v),
            Err(e) => Err(DeviceError::Mac(e)),
        }
    }

    /// A snapshot of the current session state.
    pub fn get_session_state(&self) -> (r: SessionState)
        ensures
            r == session_of(self.active),
    {
        match &self.active {
            ActiveClass::A(a) => a.get_session_state(),
            ActiveClass::B(b) => b.get_session_state(),
            ActiveClass::C(c) => c.get_session_state(),
        }
    }
}

} // verus!
