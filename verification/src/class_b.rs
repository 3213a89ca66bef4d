//! Class B: scheduled receive slots synchronized with the network beacon.
//! Holds the beacon frame format, the normative ping-offset computation,
//! per-slot state, and the Class B device built from the beacon tracker,
//! the ping-slot scheduler and network-time synchronization.

use vstd::prelude::*;

use crate::beacon::BeaconTracker;
use crate::classes::OperatingMode;
use crate::config::AESKey;
use crate::config::DevAddr;
use crate::config::EUI64;
use crate::config::SessionState;
use crate::crypto;
use crate::crypto::aes_block;
use crate::crypto::u32_le;
use crate::mac::MacError;
use crate::mac::MacLayer;
use crate::ping_slot::PingSlotConfig;
use crate::ping_slot::PingSlotScheduler;
use crate::radio::Radio;
use crate::region::DataRate;
use crate::timing::NetworkTime;

verus! {

/// Beacon period in seconds.
pub const BEACON_PERIOD: u32 = 128;

/// Reserved time at the start of a beacon period, in milliseconds.
pub const BEACON_RESERVED: u32 = 2_120;

/// Guard time around the beacon window, in milliseconds.
pub const BEACON_GUARD: u32 = 3_000;

/// Total beacon window duration, in milliseconds.
pub const BEACON_WINDOW: u32 = 122_880;

/// Duration of one ping slot, in milliseconds.
pub const BEACON_SLOT_LEN: u32 = 30;

/// A parsed beacon frame: `Time(4 BE) ‖ CRC(2 BE) ‖ GwSpec(1) ‖ Info(7)`.
#[derive(Debug, Clone, Copy)]
pub struct BeaconFrame {
    /// Network time in seconds since the GPS epoch.
    pub time: u32,
    /// CRC of the beacon time field.
    pub crc: u16,
    /// Gateway-specific descriptor.
    pub gwspec: u8,
    /// Additional beacon information.
    pub info: [u8; 7],
}

impl BeaconFrame {
    /// Parse a beacon frame from raw bytes; it needs at least 17 bytes.
    pub fn parse(data: &[u8]) -> (r: Result<Self, MacError>)
        ensures
            r is Ok <==> data@.len() >= 17,
            r matches Err(e) ==> e == MacError::InvalidLength,
            r matches Ok(f) ==> {
                &&& f.time == data@[0] * 16777216 + data@[1] * 65536 + data@[2] * 256 + data@[3]
                &&& f.crc == data@[4] * 256 + data@[5]
                &&& f.gwspec == data@[6]
                &&& f.info@ == data@.subrange(7, 14)
            },
    {
        if data.len() < 17 {
            return Err(MacError::InvalidLength);
        }
        let time: u32 = data[0] as u32 * 16777216 + data[1] as u32 * 65536 + data[2] as u32 * 256
            + data[3] as u32;
        let crc: u16 = data[4] as u16 * 256 + data[5] as u16;
        let gwspec = data[6];
        let info: [u8; 7] = [data[7], data[8], data[9], data[10], data[11], data[12], data[13]];
        proof {
            assert(info@ =~= data@.subrange(7, 14));
        }
        Ok(Self { time, crc, gwspec, info })
    }
}

/// The 16-byte input block of the normative ping-offset computation:
/// `{BeaconTime(LE4), DevAddr(LE4), 0·8}`.
pub open spec fn ping_block(beacon_time: u32, dev_addr: u32) -> Seq<u8> {
    u32_le(beacon_time) + u32_le(dev_addr) + seq![0u8, 0u8, 0u8, 0u8, 0u8, 0u8, 0u8, 0u8]
}

/// An all-zero AES key.
pub open spec fn zero_key() -> Seq<u8> {
    seq![0u8, 0u8, 0u8, 0u8, 0u8, 0u8, 0u8, 0u8, 0u8, 0u8, 0u8, 0u8, 0u8, 0u8, 0u8, 0u8]
}

/// The first ping offset of a beacon period, in milliseconds after the
/// reserved period: the normative AES-based pseudo-random value, reduced
/// modulo the ping period and scaled by the slot length.
pub open spec fn ping_offset_spec(dev_addr: u32, beacon_time: u32, ping_period: u32) -> u32 {
    let rand = aes_block(zero_key(), ping_block(beacon_time, dev_addr));
    (((rand[0] + rand[1] * 256) % (ping_period as int)) * 30) as u32
}

/// The device address read as a little-endian 32-bit word.
pub open spec fn dev_addr_word_spec(addr: Seq<u8>) -> u32 {
    (addr[0] + addr[1] * 256 + addr[2] * 65536 + addr[3] * 16777216) as u32
}

/// Read a device address as a little-endian 32-bit word.
pub fn dev_addr_word(addr: &DevAddr) -> (r: u32)
    ensures
        r == dev_addr_word_spec(addr@),
{
    let b = addr.as_bytes();
    b[0] as u32 + b[1] as u32 * 256 + b[2] as u32 * 65536 + b[3] as u32 * 16777216
}

/// Computes the pseudo-random ping offset for a device and beacon period.
#[derive(Debug, Clone, Copy)]
pub struct PingSlotCalculator {
    /// Device address as a 32-bit value.
    pub dev_addr: u32,
    /// Current beacon time.
    pub beacon_time: u32,
    /// Ping period in slots (a power of two between 32 and 4096).
    pub ping_period: u32,
}

impl PingSlotCalculator {
    /// Create a new calculator.
    pub fn new(dev_addr: u32, beacon_time: u32, ping_period: u32) -> (r: Self)
        requires
            1 <= ping_period <= 4096,
        ensures
            r.dev_addr == dev_addr,
            r.beacon_time == beacon_time,
            r.ping_period == ping_period,
    {
        Self { dev_addr, beacon_time, ping_period }
    }

    /// The ping offset within the beacon period, per the normative
    /// AES-based algorithm.
    pub fn calculate_ping_offset(&self) -> (r: u32)
        requires
            1 <= self.ping_period <= 4096,
        ensures
            r == ping_offset_spec(self.dev_addr, self.beacon_time, self.ping_period),
            r <= (self.ping_period - 1) * 30,
    {
        let key = AESKey::new([0; 16]);
        let mut block: Vec<u8> = Vec::new();
        block.push((self.beacon_time % 256) as u8);
        block.push(((self.beacon_time / 256) % 256) as u8);
        block.push(((self.beacon_time / 65536) % 256) as u8);
        block.push(((self.beacon_time / 16777216) % 256) as u8);
        block.push((self.dev_addr % 256) as u8);
        block.push(((self.dev_addr / 256) % 256) as u8);
        block.push(((self.dev_addr / 65536) % 256) as u8);
        block.push(((self.dev_addr / 16777216) % 256) as u8);
        let mut i: usize = 0;
        while i < 8
            invariant
                0 <= i <= 8,
                block@.len() == 8 + i,
                block@.take(8) =~= u32_le(self.beacon_time) + u32_le(self.dev_addr),
                forall|m: int| 8 <= m < block@.len() ==> block@[m] == 0u8,
            decreases 8 - i,
        {
            block.push(0);
            i = i + 1;
        }
        proof {
            assert(key@ =~= zero_key());
            assert(block@ =~= ping_block(self.beacon_time, self.dev_addr));
        }
        let rand = crypto::aes_encrypt_block(&key, &block);
        let pseudo: u32 = rand[0] as u32 + rand[1] as u32 * 256;
        (pseudo % self.ping_period) * 30
    }
}

/// Per-slot scheduling state of a Class B device.
#[derive(Debug, Clone, Copy)]
pub struct PingSlotState {
    /// Next scheduled ping-slot time.
    pub next_slot: u32,
    /// Ping period in slots.
    pub period: u32,
    /// Receive frequency in Hz.
    pub frequency: u32,
    /// Receive data-rate index.
    pub data_rate: u8,
    /// Consecutive missed ping slots; three force a beacon-loss transition.
    pub missed_slots: u32,
}

impl PingSlotState {
    /// Fresh state for a period, frequency and data rate.
    pub fn new(period: u32, frequency: u32, data_rate: u8) -> (r: Self)
        ensures
            r.next_slot == 0,
            r.period == period,
            r.frequency == frequency,
            r.data_rate == data_rate,
            r.missed_slots == 0,
    {
        Self { next_slot: 0, period, frequency, data_rate, missed_slots: 0 }
    }

    /// Schedule the next slot from the calculator's offset.
    pub fn update_next_slot(&mut self, calculator: &PingSlotCalculator)
        requires
            1 <= calculator.ping_period <= 4096,
        ensures
            final(self).next_slot == ping_offset_spec(
                calculator.dev_addr,
                calculator.beacon_time,
                calculator.ping_period,
            ),
            *final(self) == (PingSlotState { next_slot: final(self).next_slot, ..*old(self) }),
    {
        self.next_slot = calculator.calculate_ping_offset();
    }

    /// Record one missed slot, saturating.
    pub fn record_missed_slot(&mut self)
        ensures
            final(self).missed_slots == (if old(self).missed_slots < 0xFFFF_FFFF {
                old(self).missed_slots + 1
            } else {
                old(self).missed_slots as int
            }),
            *final(self) == (PingSlotState { missed_slots: final(self).missed_slots, ..*old(self) }),
    {
        self.missed_slots = self.missed_slots.saturating_add(1);
    }

    /// Clear the missed-slot count.
    pub fn reset_missed_slots(&mut self)
        ensures
            final(self).missed_slots == 0,
            *final(self) == (PingSlotState { missed_slots: 0u32, ..*old(self) }),
    {
        self.missed_slots = 0;
    }

    /// The number of consecutive missed slots.
    pub fn get_missed_slots(&self) -> (r: u32)
        ensures
            r == self.missed_slots,
    {
        self.missed_slots
    }
}

/// A Class B device: the MAC layer, beacon tracking, ping-slot scheduling
/// and network-time synchronization.
pub struct ClassB<R: Radio> {
    /// The MAC layer.
    pub mac: MacLayer<R>,
    /// Beacon tracking state.
    pub beacon_tracker: BeaconTracker,
    /// Ping-slot configuration.
    pub ping_slot_config: PingSlotConfig,
    /// Ping-slot scheduler.
    pub ping_scheduler: PingSlotScheduler,
    /// Network-time synchronization.
    pub network_time: NetworkTime,
    /// The host clock value last pushed in, in milliseconds.
    pub current_time: u32,
}

impl<R: Radio> ClassB<R> {
    /// The invariant of a well-formed Class B device.
    pub open spec fn wf(&self) -> bool {
        &&& self.mac.wf()
        &&& self.beacon_tracker.wf()
        &&& self.ping_slot_config.periodicity <= 7
        &&& self.network_time.wf()
    }

    /// Create a new Class B device around a MAC layer.
    pub fn new(mac: MacLayer<R>) -> (r: Self)
        requires
            mac.wf(),
        ensures
            r.wf(),
            r.mac == mac,
            r.beacon_tracker.state is Idle,
    {
        Self {
            mac,
            beacon_tracker: BeaconTracker::new(),
            ping_slot_config: PingSlotConfig::new(0, 0, 0),
            ping_scheduler: PingSlotScheduler::new(),
            network_time: NetworkTime::new(),
            current_time: 0,
        }
    }

    /// The operating mode of this class.
    pub fn operating_mode(&self) -> (r: OperatingMode)
        ensures
            r == OperatingMode::ClassB,
    {
        OperatingMode::ClassB
    }

    /// Start Class B operation by acquiring the beacon.
    pub fn start(&mut self) -> (r: Result<(), MacError>)
        requires
            old(self).wf(),
        ensures
            final(self).wf(),
            final(self).mac.session == old(self).mac.session,
            r is Ok ==> final(self).beacon_tracker.state is Searching,
    {
        self.beacon_tracker.start_acquisition(&mut self.mac)
    }

    /// Drive beacon tracking, network time and ping slots.  The beacon
    /// tracker moves from `Synchronized` to `Lost` exactly when three
    /// consecutive beacons were missed.
    pub fn process(&mut self) -> (r: Result<(), MacError>)
        requires
            old(self).wf(),
        ensures
            final(self).wf(),
            final(self).mac.session == old(self).mac.session,
            old(self).beacon_tracker.state is Synchronized ==> ((final(self).beacon_tracker.state
                is Lost) <==> final(self).beacon_tracker.missed_beacons >= 3),
            old(self).beacon_tracker.state is Synchronized ==> (final(self).beacon_tracker.state
                is Lost || final(self).beacon_tracker.state is Synchronized),
    {
        if let Err(e) = self.beacon_tracker.process(&mut self.mac) {
            return Err(e);
        }
        if self.beacon_tracker.is_synchronized() {
            self.network_time.update(self.beacon_tracker.last_beacon_time());
        }
        if self.beacon_tracker.is_synchronized() {
            if let Err(e) = self.process_ping_slots() {
                return Err(e);
            }
        }
        Ok(())
    }

    /// Configure the ping-slot periodicity and recompute the schedule:
    /// the first slot falls at the normative pseudo-random offset computed
    /// from the device address and the last beacon time, each later slot
    /// one ping period of 30-ms slots further on.
    pub fn configure_ping_slots(&mut self, periodicity: u8) -> (r: Result<(), MacError>)
        requires
            old(self).wf(),
        ensures
            final(self).wf(),
            final(self).mac.session == old(self).mac.session,
            r is Ok,
            final(self).ping_slot_config.periodicity == (if periodicity < 7 {
                periodicity
            } else {
                7u8
            }),
            ({
                let p = final(self).ping_slot_config.periodicity;
                let offset = ping_offset_spec(
                    dev_addr_word_spec(old(self).mac.session.dev_addr@),
                    old(self).beacon_tracker.last_beacon_time,
                    (32u32 << p),
                );
                &&& final(self).ping_scheduler.slots@.len() == (if (128u32 >> p) < 16 {
                    (128u32 >> p) as int
                } else {
                    16int
                })
                &&& forall|k: int|
                    0 <= k < final(self).ping_scheduler.slots@.len() ==> #[trigger] final(self).ping_scheduler.slots@[k] == crate::ping_slot::slot_time_spec(
                        offset,
                        32u32 << p,
                        k,
                    )
            }),
    {
        self.ping_slot_config.set_periodicity(periodicity);
        let period = self.ping_slot_config.period_slots();
        let addr = dev_addr_word(&self.mac.session.dev_addr);
        let calculator = PingSlotCalculator::new(
            addr,
            self.beacon_tracker.last_beacon_time(),
            period,
        );
        let offset = calculator.calculate_ping_offset();
        self.ping_scheduler.update_schedule(&self.ping_slot_config, offset);
        Ok(())
    }

    /// Open the next due ping slot, if any.
    fn process_ping_slots(&mut self) -> (r: Result<(), MacError>)
        requires
            old(self).wf(),
        ensures
            final(self).wf(),
            final(self).mac.session == old(self).mac.session,
            final(self).beacon_tracker == old(self).beacon_tracker,
    {
        let current_time = self.network_time.current_time();
        match self.ping_scheduler.next_slot(current_time) {
            Some(slot) => self.open_ping_slot(slot),
            None => Ok(()),
        }
    }

    /// Configure the radio for one ping receive slot and take in a frame.
    fn open_ping_slot(&mut self, _slot: u32) -> (r: Result<(), MacError>)
        requires
            old(self).wf(),
        ensures
            final(self).wf(),
            final(self).mac.session == old(self).mac.session,
            final(self).beacon_tracker == old(self).beacon_tracker,
    {
        let freq = self.ping_slot_config.frequency();
        let dr = self.ping_slot_config.data_rate();
        if let Err(e) = self.mac.set_rx_config(freq, DataRate::from_index(dr), BEACON_SLOT_LEN) {
            return Err(e);
        }
        match self.mac.receive() {
            Ok(_) => Ok(()),
            Err(e) => Err(e),
        }
    }

    /// Send application data through the MAC layer.
    pub fn send_data(&mut self, port: u8, data: &[u8], confirmed: bool) -> (r: Result<
        (),
        MacError,
    >)
        requires
            old(self).wf(),
        ensures
            final(self).wf(),
            final(self).mac.session_identity_unchanged(&old(self).mac),
            final(self).mac.session.fcnt_down == old(self).mac.session.fcnt_down,
            r is Ok ==> final(self).mac.session.fcnt_up == crate::mac::wrap_inc(
                old(self).mac.session.fcnt_up,
            ),
            data@.len() > 242 ==> r is Err,
            r is Err ==> final(self).mac.session.fcnt_up == old(self).mac.session.fcnt_up,
    {
        if confirmed {
            self.mac.send_confirmed(port, data)
        } else {
            self.mac.send_unconfirmed(port, data)
        }
    }

    /// Send a join request, resetting beacon synchronization first.
    pub fn send_join_request(&mut self, dev_eui: EUI64, app_eui: EUI64, app_key: AESKey) -> (r:
        Result<(), MacError>)
        requires
            old(self).wf(),
        ensures
            final(self).wf(),
            final(self).beacon_tracker.state is Idle,
            r is Ok ==> final(self).mac.session.dev_nonce == ((old(self).mac.session.dev_nonce + 1)
                % 0x10000) as u16,
            final(self).mac.session.fcnt_up == old(self).mac.session.fcnt_up,
            final(self).mac.session.fcnt_down == old(self).mac.session.fcnt_down,
    {
        self.beacon_tracker = BeaconTracker::new();
        self.mac.join_request(dev_eui, app_eui, &app_key)
    }

    /// Receive raw bytes; outside synchronization nothing is received.
    pub fn receive(&mut self) -> (r: Result<Vec<u8>, MacError>)
        requires
            old(self).wf(),
        ensures
            final(self).wf(),
            final(self).mac.session == old(self).mac.session,
            !(old(self).beacon_tracker.state is Synchronized) ==> (r matches Ok(v) && v@.len()
                == 0),
    {
        if !self.beacon_tracker.is_synchronized() {
            return Ok(Vec::new());
        }
        self.mac.receive()
    }

    /// The current session state.
    pub fn get_session_state(&self) -> (r: SessionState)
        ensures
            r == self.mac.session,
    {
        self.mac.get_session_state()
    }

    /// Borrow the MAC layer.
    pub fn get_mac_layer(&self) -> (r: &MacLayer<R>)
        ensures
            r == &self.mac,
    {
        &self.mac
    }

    /// Record the host clock value (milliseconds).
    pub fn update_time(&mut self, time: u32)
        requires
            old(self).wf(),
        ensures
            final(self).wf(),
            final(self).current_time == time,
            *final(self) == (ClassB { current_time: time, ..*old(self) }),
    {
        self.current_time = time;
    }
}

} // verus!
