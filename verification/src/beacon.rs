//! Beacon tracking for Class B: acquisition, synchronized tracking with a
//! guarded window each beacon period, loss detection after three missed
//! beacons, and recovery.

use vstd::prelude::*;

use crate::class_b::BeaconFrame;
use crate::config::all_zero;
use crate::mac::MacError;
use crate::mac::MacLayer;
use crate::radio::Radio;

verus! {

/// Beacon interval in milliseconds.
pub const BEACON_INTERVAL: u32 = 128_000;

/// Beacon window in milliseconds.
pub const BEACON_WINDOW_MS: u32 = 122_880;

/// Guard time around the beacon window in milliseconds.
pub const BEACON_GUARD_MS: u32 = 3_000;

/// Consecutive missed beacons after which synchronization is lost.
pub const MAX_BEACON_MISSED: u8 = 3;

/// Beacon tracking state.
#[derive(Debug, Clone, Copy, PartialEq, Eq, Structural)]
pub enum BeaconState {
    /// Not tracking beacons.
    Idle,
    /// Acquisition with no previous timing: scanning beacon channels.
    ColdStart,
    /// Acquisition from remembered timing.
    WarmStart,
    /// Searching for the first valid beacon.
    Searching,
    /// Synchronized with the network beacon.
    Synchronized,
    /// Lost synchronization after missed beacons.
    Lost,
}

/// One step of the CRC-16 bit feedback (polynomial 0x1021).
pub open spec fn crc16_step(crc: u16) -> u16 {
    if crc & 0x8000 != 0 {
        (crc << 1) ^ 0x1021
    } else {
        crc << 1
    }
}

/// `n` rounds of the CRC-16 bit feedback.
pub open spec fn crc16_rounds(crc: u16, n: nat) -> u16
    decreases n,
{
    if n == 0 {
        crc
    } else {
        crc16_rounds(crc16_step(crc), (n - 1) as nat)
    }
}

/// The CRC-16 state after absorbing the first `i` bytes of `data`,
/// starting from zero.
pub open spec fn crc16_state(data: Seq<u8>, i: int) -> u16
    decreases i,
{
    if i <= 0 {
        0u16
    } else {
        crc16_rounds(crc16_state(data, i - 1) ^ ((data[i - 1] as u16) << 8), 8)
    }
}

/// The CRC-16 (CCITT polynomial, zero start) of a byte string.
pub open spec fn crc16(data: Seq<u8>) -> u16 {
    crc16_state(data, data.len() as int)
}

/// Compute the CRC-16 of a byte string.
pub fn compute_crc16(data: &[u8]) -> (r: u16)
    ensures
        r == crc16(data@),
{
    let mut crc: u16 = 0;
    let mut i: usize = 0;
    while i < data.len()
        invariant
            0 <= i <= data@.len(),
            crc == crc16_state(data@, i as int),
        decreases data@.len() - i,
    {
        let mut c: u16 = crc ^ ((data[i] as u16) << 8);
        let mut k: usize = 0;
        let ghost c0 = c;
        while k < 8
            invariant
                0 <= k <= 8,
                c == crc16_rounds(c0, k as nat),
            decreases 8 - k,
        {
            proof {
                lemma_crc16_rounds_step(c0, k as nat);
            }
            c = if c & 0x8000 != 0 {
                (c << 1) ^ 0x1021
            } else {
                c << 1
            };
            k = k + 1;
        }
        crc = c;
        i = i + 1;
    }
    crc
}

/// Unfolding one round at the end of a [`crc16_rounds`] chain.
proof fn lemma_crc16_rounds_step(c0: u16, k: nat)
    ensures
        crc16_rounds(c0, k + 1) == crc16_step(crc16_rounds(c0, k)),
    decreases k,
{
    if k == 0 {
        assert(crc16_rounds(c0, 1) == crc16_rounds(crc16_step(c0), 0));
        assert(crc16_rounds(crc16_step(c0), 0) == crc16_step(c0));
        assert(crc16_rounds(c0, 0) == c0);
    } else {
        lemma_crc16_rounds_step(crc16_step(c0), (k - 1) as nat);
        assert(crc16_rounds(c0, k + 1) == crc16_rounds(crc16_step(c0), k));
        assert(crc16_rounds(c0, k) == crc16_rounds(crc16_step(c0), (k - 1) as nat));
    }
}

/// The four big-endian bytes of a 32-bit value.
pub open spec fn u32_be(x: u32) -> Seq<u8> {
    seq![
        ((x / 16777216) % 256) as u8,
        ((x / 65536) % 256) as u8,
        ((x / 256) % 256) as u8,
        (x % 256) as u8,
    ]
}

/// A valid beacon: its CRC field matches the CRC-16 of the time bytes and
/// its info field is not all zero.
pub open spec fn beacon_valid(frame: BeaconFrame) -> bool {
    &&& frame.crc == crc16(u32_be(frame.time))
    &&& !all_zero(frame.info@)
}

/// The beacon tracker of a Class B device.
#[derive(Debug, Clone, Copy)]
pub struct BeaconTracker {
    /// The current tracking state.
    pub state: BeaconState,
    /// Time of the last accepted beacon (network time, milliseconds).
    pub last_beacon_time: u32,
    /// Consecutive missed beacons.
    pub missed_beacons: u8,
    /// Timing-drift estimate in milliseconds per beacon period, as an
    /// exponential moving average with weight 7/8 on history.
    pub timing_drift: i32,
}

impl BeaconTracker {
    /// The invariant of a well-formed tracker.
    pub open spec fn wf(&self) -> bool {
        &&& self.missed_beacons <= 3
        &&& -3000 <= self.timing_drift <= 3000
        &&& (self.state is Synchronized ==> self.missed_beacons < 3)
    }

    /// A fresh tracker: idle, nothing remembered.
    pub fn new() -> (r: Self)
        ensures
            r.wf(),
            r.state is Idle,
            r.last_beacon_time == 0,
            r.missed_beacons == 0,
            r.timing_drift == 0,
    {
        Self { state: BeaconState::Idle, last_beacon_time: 0, missed_beacons: 0, timing_drift: 0 }
    }

    /// Start acquisition: a cold start scans the beacon channels, a warm
    /// start reuses remembered timing; either way the tracker searches
    /// once the radio listens.
    pub fn start_acquisition<R: Radio>(&mut self, mac: &mut MacLayer<R>) -> (r: Result<
        (),
        MacError,
    >)
        requires
            old(self).wf(),
            old(mac).wf(),
        ensures
            final(self).wf(),
            final(mac).wf(),
            final(mac).session == old(mac).session,
            r is Ok ==> final(self).state is Searching,
            r is Err ==> (final(self).state == (if old(self).last_beacon_time == 0 {
                BeaconState::ColdStart
            } else {
                BeaconState::WarmStart
            })),
    {
        self.state = if self.last_beacon_time == 0 {
            BeaconState::ColdStart
        } else {
            BeaconState::WarmStart
        };
        let channel = match mac.get_next_beacon_channel() {
            Some(c) => c,
            None => {
                return Err(MacError::InvalidChannel);
            },
        };
        match mac.set_rx_config(channel.frequency, channel.min_dr, BEACON_WINDOW_MS) {
            Ok(()) => {
                self.state = BeaconState::Searching;
                Ok(())
            },
            Err(e) => Err(e),
        }
    }

    /// One tracking step.  From `Synchronized` the tracker moves to `Lost`
    /// exactly when the missed-beacon count reaches three; search and
    /// recovery move to `Synchronized` only on a valid beacon.
    pub fn process<R: Radio>(&mut self, mac: &mut MacLayer<R>) -> (r: Result<(), MacError>)
        requires
            old(self).wf(),
            old(mac).wf(),
        ensures
            final(self).wf(),
            final(mac).wf(),
            final(mac).session == old(mac).session,
            old(self).state is Synchronized ==> ((final(self).state is Lost) <==> final(self).missed_beacons >= 3),
            old(self).state is Synchronized ==> (final(self).state is Lost || final(self).state
                is Synchronized),
            !(old(self).state is Synchronized) && !(old(self).state is Lost) ==> !(final(self).state is Lost),
            old(self).state is Lost ==> (final(self).state is Lost || final(self).state
                is Synchronized),
    {
        match self.state {
            BeaconState::Searching => self.process_beacon_search(mac),
            BeaconState::Synchronized => self.process_beacon_tracking(mac),
            BeaconState::Lost => self.process_beacon_recovery(mac),
            _ => Ok(()),
        }
    }

    /// Search step: accept the first valid beacon and synchronize.
    fn process_beacon_search<R: Radio>(&mut self, mac: &mut MacLayer<R>) -> (r: Result<
        (),
        MacError,
    >)
        requires
            old(self).wf(),
            old(mac).wf(),
            old(self).state is Searching,
        ensures
            final(self).wf(),
            final(mac).wf(),
            final(mac).session == old(mac).session,
            final(self).state is Searching || final(self).state is Synchronized,
            final(self).state is Synchronized ==> final(self).missed_beacons == 0,
    {
        match self.receive_beacon(mac) {
            Ok(Some(beacon)) => {
                if self.validate_beacon(&beacon) {
                    self.last_beacon_time = beacon.time;
                    self.state = BeaconState::Synchronized;
                    self.missed_beacons = 0;
                }
                Ok(())
            },
            Ok(None) => Ok(()),
            Err(e) => Err(e),
        }
    }

    /// Tracking step: inside the guarded window, a received beacon resets
    /// the missed count and refines the drift estimate; a missed beacon
    /// raises the count, and the third miss loses synchronization.
    fn process_beacon_tracking<R: Radio>(&mut self, mac: &mut MacLayer<R>) -> (r: Result<
        (),
        MacError,
    >)
        requires
            old(self).wf(),
            old(mac).wf(),
            old(self).state is Synchronized,
        ensures
            final(self).wf(),
            final(mac).wf(),
            final(mac).session == old(mac).session,
            (final(self).state is Lost) <==> final(self).missed_beacons >= 3,
            final(self).state is Lost || final(self).state is Synchronized,
    {
        let current_time = mac.get_time();
        if self.is_beacon_window(current_time) {
            match self.receive_beacon(mac) {
                Ok(Some(beacon)) => {
                    self.update_timing(beacon.time);
                    self.missed_beacons = 0;
                    Ok(())
                },
                Ok(None) => {
                    self.missed_beacons = self.missed_beacons + 1;
                    if self.missed_beacons >= MAX_BEACON_MISSED {
                        self.state = BeaconState::Lost;
                    }
                    Ok(())
                },
                Err(e) => Err(e),
            }
        } else {
            Ok(())
        }
    }

    /// Recovery step: widen the window and re-acquire; a valid beacon
    /// restores synchronization.
    fn process_beacon_recovery<R: Radio>(&mut self, mac: &mut MacLayer<R>) -> (r: Result<
        (),
        MacError,
    >)
        requires
            old(self).wf(),
            old(mac).wf(),
            old(self).state is Lost,
        ensures
            final(self).wf(),
            final(mac).wf(),
            final(mac).session == old(mac).session,
            final(self).state is Lost || final(self).state is Synchronized,
            final(self).state is Synchronized ==> final(self).missed_beacons == 0,
    {
        let search_window = BEACON_WINDOW_MS + 2 * BEACON_GUARD_MS;
        let channel = match mac.get_next_beacon_channel() {
            Some(c) => c,
            None => {
                return Err(MacError::InvalidChannel);
            },
        };
        if let Err(e) = mac.set_rx_config(channel.frequency, channel.min_dr, search_window) {
            return Err(e);
        }
        match self.receive_beacon(mac) {
            Ok(Some(beacon)) => {
                if self.validate_beacon(&beacon) {
                    self.last_beacon_time = beacon.time;
                    self.state = BeaconState::Synchronized;
                    self.missed_beacons = 0;
                }
                Ok(())
            },
            Ok(None) => Ok(()),
            Err(e) => Err(e),
        }
    }

    /// Whether a time lies inside the guarded window around the next
    /// expected beacon, with the drift estimate applied to the window
    /// centre when pre-opening it.
    pub fn is_beacon_window(&self, current_time: u32) -> (r: bool)
        requires
            self.wf(),
        ensures
            r == ({
                let since = crate::class_a::wrap_sub(current_time, self.last_beacon_time);
                let centre = BEACON_INTERVAL + self.timing_drift;
                centre - BEACON_GUARD_MS <= since <= centre + BEACON_GUARD_MS
            }),
    {
        let since = current_time.wrapping_sub(self.last_beacon_time) as i64;
        let centre = BEACON_INTERVAL as i64 + self.timing_drift as i64;
        centre - BEACON_GUARD_MS as i64 <= since && since <= centre + BEACON_GUARD_MS as i64
    }

    /// Absorb an observed beacon time: a sample within the guard of the
    /// predicted time refines the drift estimate as an exponential moving
    /// average with weight 7/8 on history; a larger jump is taken as noise
    /// and only re-anchors the last beacon time.
    pub fn update_timing(&mut self, beacon_time: u32)
        requires
            old(self).wf(),
        ensures
            final(self).wf(),
            final(self).last_beacon_time == beacon_time,
            final(self).state == old(self).state,
            final(self).missed_beacons == old(self).missed_beacons,
            ({
                let err = crate::timing::beacon_error_ms(old(self).last_beacon_time, beacon_time);
                &&& (-3000 <= err <= 3000 ==> final(self).timing_drift
                    == crate::timing::div8_trunc(old(self).timing_drift * 7 + err))
                &&& (!(-3000 <= err <= 3000) ==> final(self).timing_drift == old(
                    self,
                ).timing_drift)
            }),
    {
        let expected = self.last_beacon_time.wrapping_add(BEACON_INTERVAL);
        let diff = beacon_time.wrapping_sub(expected);
        if diff <= BEACON_GUARD_MS {
            let drift: i32 = diff as i32;
            self.timing_drift = ema8(self.timing_drift, drift);
        } else {
            let neg = 0u32.wrapping_sub(diff);
            if neg <= BEACON_GUARD_MS {
                let drift: i32 = -(neg as i32);
                self.timing_drift = ema8(self.timing_drift, drift);
            }
            // Larger jumps are noise; keep the drift estimate.
        }
        self.last_beacon_time = beacon_time;
    }

    /// Validate a received beacon frame: CRC over the time field and a
    /// non-zero info field.
    pub fn validate_beacon(&self, beacon: &BeaconFrame) -> (r: bool)
        ensures
            r == beacon_valid(*beacon),
    {
        let t = beacon.time;
        let time_bytes: [u8; 4] = [
            ((t / 16777216) % 256) as u8,
            ((t / 65536) % 256) as u8,
            ((t / 256) % 256) as u8,
            (t % 256) as u8,
        ];
        proof {
            assert(time_bytes@ =~= u32_be(t));
        }
        let crc_ok = compute_crc16(time_bytes.as_slice()) == beacon.crc;
        let mut info_nonzero = false;
        let mut i: usize = 0;
        while i < 7
            invariant
                0 <= i <= 7,
                beacon.info@.len() == 7,
                info_nonzero == !(forall|m: int| 0 <= m < i ==> beacon.info@[m] == 0),
            decreases 7 - i,
        {
            if beacon.info[i] != 0 {
                info_nonzero = true;
            }
            i = i + 1;
        }
        crc_ok && info_nonzero
    }

    /// The current tracking state.
    pub fn state(&self) -> (r: BeaconState)
        ensures
            r == self.state,
    {
        self.state
    }

    /// Whether the tracker is synchronized.
    pub fn is_synchronized(&self) -> (r: bool)
        ensures
            r == (self.state is Synchronized),
    {
        matches!(self.state, BeaconState::Synchronized)
    }

    /// The time of the last accepted beacon.
    pub fn last_beacon_time(&self) -> (r: u32)
        ensures
            r == self.last_beacon_time,
    {
        self.last_beacon_time
    }

    /// Receive and parse one beacon frame, where one arrived.
    fn receive_beacon<R: Radio>(&mut self, mac: &mut MacLayer<R>) -> (r: Result<
        Option<BeaconFrame>,
        MacError,
    >)
        requires
            old(self).wf(),
            old(mac).wf(),
        ensures
            *final(self) == *old(self),
            final(mac).wf(),
            final(mac).session == old(mac).session,
    {
        let buffer = match mac.receive() {
            Ok(b) => b,
            Err(e) => {
                return Err(e);
            },
        };
        if buffer.len() < 17 {
            return Ok(None);
        }
        match BeaconFrame::parse(buffer.as_slice()) {
            Ok(frame) => Ok(Some(frame)),
            Err(_) => Ok(None),
        }
    }
}

/// An exponential moving average step with weight 7/8 on history, using
/// truncating division, for samples within the beacon guard.
fn ema8(history: i32, sample: i32) -> (r: i32)
    requires
        -3000 <= history <= 3000,
        -3000 <= sample <= 3000,
    ensures
        -3000 <= r <= 3000,
        r == ({
            let n = history * 7 + sample;
            if n >= 0 {
                n / 8
            } else {
                -((-n) / 8)
            }
        }),
{
    let n: i32 = history * 7 + sample;
    if n >= 0 {
        n / 8
    } else {
        -((-n) / 8)
    }
}

} // verus!
