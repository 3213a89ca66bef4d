//! Ping-slot configuration and scheduling for Class B: slot timing with
//! randomized offsets for collision avoidance.

use vstd::prelude::*;

verus! {

/// Maximum number of ping slots scheduled per beacon period.
pub const MAX_PING_SLOTS: usize = 16;

/// Ping-slot configuration.
#[derive(Debug, Clone, Copy)]
pub struct PingSlotConfig {
    /// Ping-slot periodicity exponent (0..=7).
    pub periodicity: u8,
    /// Data-rate index for ping slots.
    pub data_rate: u8,
    /// Frequency for ping slots in Hz.
    pub frequency: u32,
}

impl PingSlotConfig {
    /// Create a configuration, clamping the periodicity to 0..=7.
    pub fn new(periodicity: u8, data_rate: u8, frequency: u32) -> (r: Self)
        ensures
            r.periodicity == (if periodicity < 7 {
                periodicity
            } else {
                7u8
            }),
            r.periodicity <= 7,
            r.data_rate == data_rate,
            r.frequency == frequency,
    {
        Self {
            periodicity: if periodicity < 7 {
                periodicity
            } else {
                7
            },
            data_rate,
            frequency,
        }
    }

    /// Set the periodicity, clamping to 0..=7.
    pub fn set_periodicity(&mut self, periodicity: u8)
        ensures
            final(self).periodicity == (if periodicity < 7 {
                periodicity
            } else {
                7u8
            }),
            final(self).periodicity <= 7,
            final(self).data_rate == old(self).data_rate,
            final(self).frequency == old(self).frequency,
    {
        self.periodicity = if periodicity < 7 {
            periodicity
        } else {
            7
        };
    }

    /// The configured data-rate index.
    pub fn data_rate(&self) -> (r: u8)
        ensures
            r == self.data_rate,
    {
        self.data_rate
    }

    /// The configured frequency.
    pub fn frequency(&self) -> (r: u32)
        ensures
            r == self.frequency,
    {
        self.frequency
    }

    /// Ping slots per beacon period: `128 >> periodicity`.
    pub fn slots_per_beacon(&self) -> (r: u32)
        requires
            self.periodicity <= 7,
        ensures
            r == 128u32 >> self.periodicity,
    {
        128u32 >> self.periodicity
    }

    /// The ping period in slots: `32 << periodicity`, so that the slots of
    /// one beacon period exactly tile its window.
    pub fn period_slots(&self) -> (r: u32)
        requires
            self.periodicity <= 7,
        ensures
            r == 32u32 << self.periodicity,
            32 <= r <= 4096,
    {
        proof {
            let p = self.periodicity;
            assert(p <= 7 ==> 32 <= (32u32 << p) <= 4096) by (bit_vector);
        }
        32u32 << self.periodicity
    }
}

impl Default for PingSlotConfig {
    /// The default configuration: every slot, lowest data rate.
    fn default() -> (r: Self)
        ensures
            r == (PingSlotConfig { periodicity: 0u8, data_rate: 0u8, frequency: 0u32 }),
    {
        Self { periodicity: 0, data_rate: 0, frequency: 0 }
    }
}

/// The scheduled time of slot `k`: the reserved period, the first-slot
/// offset, then one ping period of 30-ms slots per subsequent slot.
pub open spec fn slot_time_spec(first_offset: u32, period_slots: u32, k: int) -> int {
    2_120 + first_offset + k * period_slots * 30
}

/// The first element of `slots` strictly greater than `t`, scanning in
/// order.
pub open spec fn first_slot_after(slots: Seq<u32>, t: u32) -> Option<u32>
    decreases slots.len(),
{
    if slots.len() == 0 {
        None
    } else if slots[0] > t {
        Some(slots[0])
    } else {
        first_slot_after(slots.skip(1), t)
    }
}

/// The ping-slot scheduler: the slot times of the current beacon period.
#[derive(Debug, Clone)]
pub struct PingSlotScheduler {
    /// Scheduled slot times, in milliseconds after the beacon.
    pub slots: Vec<u32>,
    /// Retained randomization seed.
    pub rand_seed: u32,
}

impl PingSlotScheduler {
    /// A scheduler with no slots scheduled.
    pub fn new() -> (r: Self)
        ensures
            r.slots@.len() == 0,
            r.rand_seed == 0,
    {
        Self { slots: Vec::new(), rand_seed: 0 }
    }

    /// Recompute the slot times of one beacon period: as many slots as the
    /// configuration asks for (capped at [`MAX_PING_SLOTS`]), the first at
    /// the given pseudo-random offset after the reserved period, each
    /// following one a full ping period of 30-ms slots later.
    pub fn update_schedule(&mut self, config: &PingSlotConfig, first_offset: u32)
        requires
            config.periodicity <= 7,
            first_offset < (32u32 << config.periodicity) * 30,
        ensures
            final(self).rand_seed == old(self).rand_seed,
            final(self).slots@.len() == (if (128u32 >> config.periodicity) < 16 {
                (128u32 >> config.periodicity) as int
            } else {
                16int
            }),
            forall|k: int|
                0 <= k < final(self).slots@.len() ==> #[trigger] final(self).slots@[k]
                    == slot_time_spec(first_offset, 32u32 << config.periodicity, k),
            forall|k: int|
                1 <= k < final(self).slots@.len() ==> #[trigger] final(self).slots@[k] >= final(self).slots@[k - 1] + 30,
            forall|k: int|
                0 <= k < final(self).slots@.len() ==> #[trigger] final(self).slots@[k] >= 2_120,
    {
        self.slots = Vec::new();
        let total = config.slots_per_beacon();
        let period = config.period_slots();
        proof {
            let p = config.periodicity;
            assert(128u32 >> p <= 128) by (bit_vector);
        }
        let num_slots: u32 = if total < 16 {
            total
        } else {
            16
        };
        let step: u32 = period * 30;
        let mut i: u32 = 0;
        while i < num_slots
            invariant
                num_slots <= 16,
                0 <= i <= num_slots,
                step == period * 30,
                period == 32u32 << config.periodicity,
                32 <= period <= 4096,
                first_offset < period * 30,
                self.slots@.len() == i,
                self.rand_seed == old(self).rand_seed,
                forall|k: int|
                    0 <= k < i ==> #[trigger] self.slots@[k] == slot_time_spec(
                        first_offset,
                        period,
                        k,
                    ),
            decreases num_slots - i,
        {
            proof {
                assert(i * step <= 15 * 122_880 && i * step == i * period * 30)
                    by (nonlinear_arith)
                    requires
                        i < 16u32,
                        step <= 122_880u32,
                        step == period * 30,
                ;
            }
            self.slots.push(2_120 + first_offset + i * step);
            i = i + 1;
        }
        proof {
            assert forall|k: int|
                1 <= k < self.slots@.len() implies #[trigger] self.slots@[k] >= self.slots@[k - 1]
                + 30 by {
                assert(self.slots@[k] == slot_time_spec(first_offset, period, k));
                assert(self.slots@[k - 1] == slot_time_spec(first_offset, period, k - 1));
                assert(k * period * 30 - (k - 1) * period * 30 == period * 30)
                    by (nonlinear_arith);
            }
        }
    }

    /// The next slot strictly after `current_time`, if any.
    pub fn next_slot(&self, current_time: u32) -> (r: Option<u32>)
        ensures
            r == first_slot_after(self.slots@, current_time),
    {
        proof {
            assert(self.slots@.skip(0) =~= self.slots@);
        }
        let mut i: usize = 0;
        while i < self.slots.len()
            invariant
                0 <= i <= self.slots@.len(),
                first_slot_after(self.slots@, current_time) == first_slot_after(
                    self.slots@.skip(i as int),
                    current_time,
                ),
                forall|m: int| 0 <= m < i ==> !(#[trigger] self.slots@[m] > current_time),
            decreases self.slots@.len() - i,
        {
            let s = self.slots[i];
            proof {
                assert(self.slots@.skip(i as int)[0] == self.slots@[i as int]);
                assert(self.slots@.skip(i as int).skip(1) =~= self.slots@.skip(i + 1));
            }
            if s > current_time {
                return Some(s);
            }
            i = i + 1;
        }
        proof {
            assert(self.slots@.skip(self.slots@.len() as int) =~= Seq::<u32>::empty());
        }
        None
    }

    /// Retain a seed for collision-avoidance randomization; the schedule
    /// itself follows the normative pseudo-random first-slot offset.
    pub fn set_random_seed(&mut self, seed: u32)
        ensures
            final(self).rand_seed == seed,
            final(self).slots@ == old(self).slots@,
    {
        self.rand_seed = seed;
    }
}

} // verus!
