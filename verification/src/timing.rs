//! Network-time synchronization for Class B: offset tracking, GPS-time
//! conversion and drift compensation from beacon observations.

use vstd::prelude::*;

verus! {

/// GPS epoch offset from the Unix epoch, in seconds.
pub const GPS_EPOCH_OFFSET: u32 = 315964800;

/// Expected milliseconds between beacons.
pub const BEACON_PERIOD_MS: u32 = 128_000;

/// Largest single-sample timing error accepted as signal, in milliseconds;
/// larger jumps are rejected as noise.
pub const MAX_TIMING_JUMP_MS: u32 = 3_000;

/// `a + b` with 32-bit wrap-around.
pub open spec fn wrap_add32(a: u32, b: u32) -> u32 {
    ((a + b) % 0x1_0000_0000) as u32
}

/// `a - b` with 32-bit wrap-around.
pub open spec fn wrap_sub32(a: u32, b: u32) -> u32 {
    (((a - b) + 0x1_0000_0000) % 0x1_0000_0000) as u32
}

/// The signed timing error of an observed beacon against the moment
/// expected one period after the last synchronization, read from the
/// wrapped difference: small values are late beacons, values within the
/// jump bound below the wrap are early ones.
pub open spec fn beacon_error_ms(last_sync: u32, beacon_time: u32) -> int {
    let diff = wrap_sub32(beacon_time, wrap_add32(last_sync, BEACON_PERIOD_MS));
    if diff <= MAX_TIMING_JUMP_MS {
        diff as int
    } else {
        diff - 0x1_0000_0000
    }
}

/// Whether an observed beacon time is close enough to the expected moment
/// to be taken as signal rather than noise.
pub open spec fn sample_accepted(last_sync: u32, beacon_time: u32) -> bool {
    -3000 <= beacon_error_ms(last_sync, beacon_time) <= 3000
}

/// The clamped drift sample in parts per million, with truncating division.
pub open spec fn drift_sample_ppm(err: int, delta: int) -> int {
    let q = if err >= 0 {
        err * 1_000_000 / delta
    } else {
        -((-err) * 1_000_000 / delta)
    };
    if q > 1_000_000 {
        1_000_000int
    } else if q < -1_000_000 {
        -1_000_000int
    } else {
        q
    }
}

/// Truncating division by eight, as the hardware computes it.
pub open spec fn div8_trunc(a: int) -> int {
    if a >= 0 {
        a / 8
    } else {
        -((-a) / 8)
    }
}

/// Network time synchronization state.
#[derive(Debug, Clone, Copy)]
pub struct NetworkTime {
    /// Local time offset from network time, in milliseconds.
    pub time_offset: i32,
    /// Accumulated timing error, in microseconds.
    pub timing_error: i32,
    /// Clock-drift compensation, in parts per million.
    pub drift_compensation: i32,
    /// Time of the last synchronization.
    pub last_sync: u32,
}

impl NetworkTime {
    /// The invariant of a well-formed synchronization state.
    pub open spec fn wf(&self) -> bool {
        &&& -3_000_000 <= self.timing_error <= 3_000_000
        &&& -1_000_000 <= self.drift_compensation <= 1_000_000
    }

    /// Fresh synchronization state.
    pub fn new() -> (r: Self)
        ensures
            r.wf(),
            r.time_offset == 0,
            r.timing_error == 0,
            r.drift_compensation == 0,
            r.last_sync == 0,
    {
        Self { time_offset: 0, timing_error: 0, drift_compensation: 0, last_sync: 0 }
    }

    /// Absorb a beacon time.  The first observation only anchors the
    /// clock.  Later ones whose error against the expected beacon moment
    /// stays within [`MAX_TIMING_JUMP_MS`] refine the error and drift
    /// estimates as exponential moving averages with weight 7/8 on
    /// history; larger jumps are rejected as noise and only re-anchor.
    pub fn update(&mut self, beacon_time: u32)
        requires
            old(self).wf(),
        ensures
            final(self).wf(),
            final(self).time_offset == old(self).time_offset,
            final(self).last_sync == beacon_time,
            old(self).last_sync == 0 ==> final(self).timing_error == old(self).timing_error
                && final(self).drift_compensation == old(self).drift_compensation,
            ({
                let err = beacon_error_ms(old(self).last_sync, beacon_time);
                let delta = wrap_sub32(beacon_time, old(self).last_sync);
                old(self).last_sync != 0 && delta != 0 && sample_accepted(
                    old(self).last_sync,
                    beacon_time,
                ) ==> final(self).timing_error == div8_trunc(old(self).timing_error * 7 + err
                    * 1000) && final(self).drift_compensation == div8_trunc(
                    old(self).drift_compensation * 7 + drift_sample_ppm(err, delta as int),
                )
            }),
            old(self).last_sync != 0 && (wrap_sub32(beacon_time, old(self).last_sync) == 0
                || !sample_accepted(old(self).last_sync, beacon_time)) ==> final(self).timing_error == old(self).timing_error && final(self).drift_compensation == old(self).drift_compensation,
    {
        if self.last_sync == 0 {
            self.last_sync = beacon_time;
            return ;
        }
        let time_delta = beacon_time.wrapping_sub(self.last_sync);
        let expected = self.last_sync.wrapping_add(BEACON_PERIOD_MS);
        let diff = beacon_time.wrapping_sub(expected);
        // Accept only small errors, in either direction.
        let error_ms: i32 = if diff <= MAX_TIMING_JUMP_MS {
            diff as i32
        } else {
            let neg = 0u32.wrapping_sub(diff);
            if neg <= MAX_TIMING_JUMP_MS {
                -(neg as i32)
            } else {
                // Noise: re-anchor without touching the estimates.
                self.last_sync = beacon_time;
                return ;
            }
        };
        proof {
            assert(error_ms == beacon_error_ms(old(self).last_sync, beacon_time));
        }
        if time_delta == 0 {
            self.last_sync = beacon_time;
            return ;
        }
        // Exponential moving average of the error, in microseconds.
        self.timing_error = ema8_bounded(self.timing_error, error_ms * 1000, 3_000_000);
        // Drift sample in parts per million, clamped, with the division on
        // the magnitude.
        let mag: u32 = if error_ms >= 0 {
            error_ms as u32
        } else {
            (-error_ms) as u32
        };
        let q64: u64 = (mag as u64) * 1_000_000 / (time_delta as u64);
        let qc: u32 = if q64 > 1_000_000 {
            1_000_000
        } else {
            q64 as u32
        };
        let sample: i32 = if error_ms >= 0 {
            qc as i32
        } else {
            -(qc as i32)
        };
        proof {
            assert(sample == drift_sample_ppm(
                beacon_error_ms(old(self).last_sync, beacon_time),
                time_delta as int,
            ));
        }
        self.drift_compensation = ema8_bounded(self.drift_compensation, sample, 1_000_000);
        self.last_sync = beacon_time;
    }

    /// The network-time estimate at the last synchronization point, with
    /// the configured offset applied; the host adds elapsed local time.
    pub fn current_time(&self) -> (r: u32)
        ensures
            r == wrap_add32(self.last_sync, self.time_offset as u32),
    {
        self.last_sync.wrapping_add(#[verifier::truncate] (self.time_offset as u32))
    }

    /// Convert a GPS time to network time.
    pub fn gps_to_network_time(&self, gps_time: u32) -> (r: u32)
        ensures
            r == wrap_sub32(gps_time, GPS_EPOCH_OFFSET),
    {
        gps_time.wrapping_sub(GPS_EPOCH_OFFSET)
    }

    /// Convert a network time back to GPS time.
    pub fn network_to_gps_time(&self, network_time: u32) -> (r: u32)
        ensures
            r == wrap_add32(network_time, GPS_EPOCH_OFFSET),
    {
        network_time.wrapping_add(GPS_EPOCH_OFFSET)
    }

    /// Set the local time offset.
    pub fn set_time_offset(&mut self, offset: i32)
        ensures
            final(self).time_offset == offset,
            *final(self) == (NetworkTime { time_offset: offset, ..*old(self) }),
    {
        self.time_offset = offset;
    }
}

/// The two GPS conversions invert each other: converting a GPS time to
/// network time and back yields the starting time, for every input.
pub proof fn lemma_gps_time_round_trip(gps_time: u32)
    ensures
        wrap_add32(wrap_sub32(gps_time, GPS_EPOCH_OFFSET), GPS_EPOCH_OFFSET) == gps_time,
{
    let t = gps_time;
    assert(((((t - 315964800) + 0x1_0000_0000) % 0x1_0000_0000) as u32 + 315964800)
        % 0x1_0000_0000 == t) by (bit_vector);
}

/// An exponential moving average step with weight 7/8 on history, using
/// truncating division; inputs within the bound keep the result within it.
fn ema8_bounded(history: i32, sample: i32, bound: i32) -> (r: i32)
    requires
        0 < bound <= 100_000_000,
        -bound <= history <= bound,
        -bound <= sample <= bound,
    ensures
        -bound <= r <= bound,
        r == div8_trunc(history * 7 + sample),
{
    let n: i32 = history * 7 + sample;
    if n >= 0 {
        n / 8
    } else {
        -((-n) / 8)
    }
}

} // verus!
