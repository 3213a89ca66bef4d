//! The US915 regional channel plan: channel table, sub-band masks, channel
//! selection, receive-window parameters, payload caps and validators.

use vstd::prelude::*;

verus! {

/// Number of uplink channels in the US915 plan: 64 at 125 kHz plus 8 at
/// 500 kHz.
pub const MAX_CHANNELS: usize = 72;

/// Data rate, encoding a spreading factor and a bandwidth.
#[derive(Debug, Clone, Copy, PartialEq, Eq, Structural)]
pub enum DataRate {
    /// SF12 / 125 kHz
    SF12BW125,
    /// SF11 / 125 kHz
    SF11BW125,
    /// SF10 / 125 kHz
    SF10BW125,
    /// SF9 / 125 kHz
    SF9BW125,
    /// SF8 / 125 kHz
    SF8BW125,
    /// SF7 / 125 kHz
    SF7BW125,
    /// SF8 / 500 kHz
    SF8BW500,
}

/// The data rate denoted by an index, with the slowest rate for indices out
/// of range.
pub open spec fn data_rate_from_index(index: u8) -> DataRate {
    if index == 0 {
        DataRate::SF12BW125
    } else if index == 1 {
        DataRate::SF11BW125
    } else if index == 2 {
        DataRate::SF10BW125
    } else if index == 3 {
        DataRate::SF9BW125
    } else if index == 4 {
        DataRate::SF8BW125
    } else if index == 5 {
        DataRate::SF7BW125
    } else if index == 6 {
        DataRate::SF8BW500
    } else {
        DataRate::SF12BW125
    }
}

/// The spreading factor of a data rate.
pub open spec fn spreading_factor_spec(dr: DataRate) -> u8 {
    match dr {
        DataRate::SF12BW125 => 12,
        DataRate::SF11BW125 => 11,
        DataRate::SF10BW125 => 10,
        DataRate::SF9BW125 => 9,
        DataRate::SF8BW125 => 8,
        DataRate::SF8BW500 => 8,
        DataRate::SF7BW125 => 7,
    }
}

/// The bandwidth of a data rate in Hz.
pub open spec fn bandwidth_spec(dr: DataRate) -> u32 {
    match dr {
        DataRate::SF8BW500 => 500_000,
        _ => 125_000,
    }
}

/// The US915 uplink data-rate index of a rate, or -1 where the rate is not
/// a US915 uplink rate.
pub open spec fn us915_dr_index(dr: DataRate) -> int {
    match dr {
        DataRate::SF10BW125 => 0,
        DataRate::SF9BW125 => 1,
        DataRate::SF8BW125 => 2,
        DataRate::SF7BW125 => 3,
        DataRate::SF8BW500 => 4,
        _ => -1,
    }
}

/// The US915 uplink data rate denoted by an uplink index 0..=4.
pub open spec fn us915_dr_from_index(index: u8) -> DataRate {
    if index == 0 {
        DataRate::SF10BW125
    } else if index == 1 {
        DataRate::SF9BW125
    } else if index == 2 {
        DataRate::SF8BW125
    } else if index == 3 {
        DataRate::SF7BW125
    } else {
        DataRate::SF8BW500
    }
}

impl DataRate {
    /// Convert from a data-rate index, defaulting to the slowest rate.
    pub fn from_index(index: u8) -> (r: Self)
        ensures
            r == data_rate_from_index(index),
    {
        match index {
            0 => DataRate::SF12BW125,
            1 => DataRate::SF11BW125,
            2 => DataRate::SF10BW125,
            3 => DataRate::SF9BW125,
            4 => DataRate::SF8BW125,
            5 => DataRate::SF7BW125,
            6 => DataRate::SF8BW500,
            _ => DataRate::SF12BW125,
        }
    }

    /// The spreading factor of this rate.
    pub fn spreading_factor(&self) -> (r: u8)
        ensures
            r == spreading_factor_spec(*self),
    {
        match self {
            DataRate::SF12BW125 => 12,
            DataRate::SF11BW125 => 11,
            DataRate::SF10BW125 => 10,
            DataRate::SF9BW125 => 9,
            DataRate::SF8BW125 => 8,
            DataRate::SF8BW500 => 8,
            DataRate::SF7BW125 => 7,
        }
    }

    /// The bandwidth of this rate in Hz.
    pub fn bandwidth(&self) -> (r: u32)
        ensures
            r == bandwidth_spec(*self),
    {
        match self {
            DataRate::SF8BW500 => 500_000,
            _ => 125_000,
        }
    }
}

/// One uplink channel of the plan.
#[derive(Debug, Clone, Copy)]
pub struct Channel {
    /// Frequency in Hz.
    pub frequency: u32,
    /// Minimum data rate.
    pub min_dr: DataRate,
    /// Maximum data rate.
    pub max_dr: DataRate,
    /// Whether the channel may currently be used.
    pub enabled: bool,
}

/// The nominal frequency of uplink channel `i` of the US915 plan.
pub open spec fn uplink_frequency(i: int) -> int {
    if i < 64 {
        902_300_000 + 200_000 * i
    } else {
        903_000_000 + 1_600_000 * (i - 64)
    }
}

/// The fixed part of uplink channel `i`: frequency and data-rate range.
pub open spec fn channel_shape(c: Channel, i: int) -> bool {
    &&& c.frequency == uplink_frequency(i)
    &&& if i < 64 {
        c.min_dr == DataRate::SF10BW125 && c.max_dr == DataRate::SF7BW125
    } else {
        c.min_dr == DataRate::SF8BW500 && c.max_dr == DataRate::SF8BW500
    }
}

/// A channel equal to `c` except for its enabled flag.
pub open spec fn with_enabled(c: Channel, e: bool) -> Channel {
    Channel { enabled: e, ..c }
}

/// The predicate selecting enabled channels.
pub open spec fn enabled_pred() -> spec_fn(Channel) -> bool {
    |c: Channel| c.enabled
}

/// The subsequence of enabled channels, in table order.
pub open spec fn enabled_seq(s: Seq<Channel>) -> Seq<Channel> {
    s.filter(enabled_pred())
}

/// Whether sub-band `sb` (0..=7) enables channel `i`: its eight 125-kHz
/// channels and its single 500-kHz channel.
pub open spec fn sub_band_enables(sb: int, i: int) -> bool {
    (8 * sb <= i < 8 * (sb + 1)) || i == 64 + sb
}

/// The downlink / beacon channel `k` (0..=7) of the US915 plan.
pub open spec fn beacon_channel_spec(k: int) -> Channel {
    Channel {
        frequency: (923_300_000 + 600_000 * k) as u32,
        min_dr: DataRate::SF12BW125,
        max_dr: DataRate::SF12BW125,
        enabled: true,
    }
}

/// The US915 uplink index a channel's frequency and bandwidth denote.
pub open spec fn uplink_index_of(c: Channel) -> int {
    if c.max_dr == DataRate::SF8BW500 {
        64 + (c.frequency - 903_000_000) / 1_600_000
    } else {
        (c.frequency - 902_300_000) / 200_000
    }
}

/// A channel that belongs to the US915 uplink table.
pub open spec fn is_uplink_channel(c: Channel) -> bool {
    &&& 0 <= uplink_index_of(c) < 72
    &&& channel_shape(c, uplink_index_of(c))
}

/// The RX1 downlink data rate for an uplink data-rate index and an
/// RX1DROffset, per the US915 table: `uplink + 10 - offset`, clamped to the
/// downlink range 8..=13.
pub open spec fn rx1_downlink_dr(up: int, offset: int) -> u8 {
    let d = up + 10 - offset;
    if d < 8 {
        8u8
    } else if d > 13 {
        13u8
    } else {
        d as u8
    }
}

/// The number of channels among the first `n` that sub-band `sb` enables.
pub open spec fn expected_enabled(sb: int, n: int) -> int {
    (if n <= 8 * sb {
        0int
    } else if n >= 8 * sb + 8 {
        8int
    } else {
        n - 8 * sb
    }) + (if n > 64 + sb {
        1int
    } else {
        0int
    })
}

/// Counting the channels a sub-band enables: a prefix of length `n` of a
/// 72-entry table whose flags follow [`sub_band_enables`] holds exactly
/// [`expected_enabled`] enabled channels.
proof fn lemma_enabled_count(s: Seq<Channel>, sb: int, n: int)
    requires
        0 <= sb <= 7,
        0 <= n <= s.len(),
        s.len() == 72,
        forall|i: int| 0 <= i < 72 ==> ((#[trigger] s[i]).enabled <==> sub_band_enables(sb, i)),
    ensures
        enabled_seq(s.take(n)).len() == expected_enabled(sb, n),
    decreases n,
{
    reveal(Seq::filter);
    if n == 0 {
        assert(s.take(0) =~= Seq::<Channel>::empty());
    } else {
        lemma_enabled_count(s, sb, n - 1);
        assert(s.take(n).drop_last() =~= s.take(n - 1));
        assert(s.take(n).last() == s[n - 1]);
    }
}

/// Nine channels are enabled after selecting any sub-band: eight 125-kHz
/// channels and one 500-kHz channel.
pub proof fn lemma_sub_band_enables_nine(s: Seq<Channel>, sb: int)
    requires
        0 <= sb <= 7,
        s.len() == 72,
        forall|i: int| 0 <= i < 72 ==> ((#[trigger] s[i]).enabled <==> sub_band_enables(sb, i)),
    ensures
        enabled_seq(s).len() == 9,
{
    lemma_enabled_count(s, sb, 72);
    assert(s.take(72) =~= s);
}

/// The channel table after a LinkADR mask was applied with a given control
/// value: the selected bank of sixteen channels takes its enabled flags
/// from the mask bits, everything else is untouched.
pub open spec fn mask_applied(oldc: Seq<Channel>, newc: Seq<Channel>, mask: u16, cntl: u8) -> bool {
    &&& newc.len() == oldc.len()
    &&& forall|i: int|
        0 <= i < oldc.len() ==> #[trigger] newc[i] == (if 16 * cntl <= i < 16 * cntl + 16 {
            with_enabled(oldc[i], (mask >> (i - 16 * cntl) as u16) & 1 == 1)
        } else {
            oldc[i]
        })
}

/// A channel at table position `i` denotes uplink index `i` itself.
pub proof fn lemma_table_channel_is_uplink(c: Channel, i: int)
    requires
        0 <= i < 72,
        channel_shape(c, i),
    ensures
        is_uplink_channel(c),
        uplink_index_of(c) == i,
{
    if i < 64 {
        assert((902_300_000 + 200_000 * i - 902_300_000) / 200_000 == i) by (nonlinear_arith);
    } else {
        assert((903_000_000 + 1_600_000 * (i - 64) - 903_000_000) / 1_600_000 == i - 64)
            by (nonlinear_arith);
    }
}

/// Every channel of the enabled subsequence occurs in the table.
pub proof fn lemma_enabled_seq_membership(s: Seq<Channel>)
    ensures
        forall|i: int|
            0 <= i < enabled_seq(s).len() ==> s.contains(#[trigger] enabled_seq(s)[i]),
    decreases s.len(),
{
    reveal(Seq::filter);
    if s.len() == 0 {
    } else {
        lemma_enabled_seq_membership(s.drop_last());
        assert forall|i: int| 0 <= i < enabled_seq(s).len() implies s.contains(
            #[trigger] enabled_seq(s)[i],
        ) by {
            let head = s.drop_last();
            let x = enabled_seq(s)[i];
            if i < enabled_seq(head).len() {
                assert(head.contains(x));
                let j = choose|j: int| 0 <= j < head.len() && head[j] == x;
                assert(s[j] == x);
            } else {
                assert(x == s.last());
                assert(s[s.len() - 1] == x);
            }
        }
    }
}

/// The US915 region: the channel table and the mutable receive-window and
/// transmit parameters.
#[derive(Debug, Clone)]
pub struct US915 {
    /// The 72-entry uplink channel table.
    pub channels: Vec<Channel>,
    /// The current uplink data rate.
    pub data_rate: DataRate,
    /// The selected sub-band (0..=7).
    pub sub_band: u8,
    /// Cursor of the round-robin channel selector.
    pub last_channel: usize,
    /// Separate cursor for join-request channel selection over the 125-kHz
    /// set.
    pub join_cursor: usize,
    /// Cursor of the beacon-channel rotation.
    pub beacon_cursor: usize,
    /// RX1 data-rate offset (0..=3), mutable by RXParamSetupReq.
    pub rx1_dr_offset: u8,
    /// RX2 frequency in Hz, mutable by RXParamSetupReq.
    pub rx2_frequency: u32,
    /// RX2 downlink data-rate index (8..=13), mutable by RXParamSetupReq.
    pub rx2_data_rate: u8,
    /// Transmit-power index (0..=14), mutable by LinkADRReq.
    pub tx_power: u8,
    /// RX1 delay in milliseconds, mutable by RXTimingSetupReq.
    pub rx1_delay_ms: u32,
}

impl US915 {
    /// The invariant of a well-formed US915 region.
    pub open spec fn wf(&self) -> bool {
        &&& self.channels@.len() == 72
        &&& forall|i: int| 0 <= i < 72 ==> channel_shape(#[trigger] self.channels@[i], i)
        &&& us915_dr_index(self.data_rate) >= 0
        &&& self.sub_band <= 7
        &&& self.last_channel < 72
        &&& self.join_cursor < 64
        &&& self.beacon_cursor < 8
        &&& self.rx1_dr_offset <= 3
        &&& 8 <= self.rx2_data_rate <= 13
        &&& self.tx_power <= 14
        &&& 1000 <= self.rx1_delay_ms <= 15000
    }

    /// All region state except the channel table and the selector cursor.
    pub open spec fn params_unchanged(&self, other: &US915) -> bool {
        &&& self.join_cursor == other.join_cursor
        &&& self.beacon_cursor == other.beacon_cursor
        &&& self.data_rate == other.data_rate
        &&& self.sub_band == other.sub_band
        &&& self.rx1_dr_offset == other.rx1_dr_offset
        &&& self.rx2_frequency == other.rx2_frequency
        &&& self.rx2_data_rate == other.rx2_data_rate
        &&& self.tx_power == other.tx_power
        &&& self.rx1_delay_ms == other.rx1_delay_ms
    }

    /// Create the US915 plan: 64 125-kHz channels from 902.3 MHz, 8 500-kHz
    /// channels from 903.0 MHz, all enabled, with the normative defaults.
    pub fn new() -> (r: Self)
        ensures
            r.wf(),
            forall|i: int| 0 <= i < 72 ==> (#[trigger] r.channels@[i]).enabled,
            r.data_rate == DataRate::SF10BW125,
            r.sub_band == 0,
            r.last_channel == 0,
            r.join_cursor == 0,
            r.beacon_cursor == 0,
            r.rx1_dr_offset == 0,
            r.rx2_frequency == 923_300_000,
            r.rx2_data_rate == 8,
            r.tx_power == 0,
            r.rx1_delay_ms == 1000,
    {
        let mut channels: Vec<Channel> = Vec::new();
        let mut i: usize = 0;
        while i < 64
            invariant
                0 <= i <= 64,
                channels@.len() == i,
                forall|j: int|
                    0 <= j < i ==> channel_shape(#[trigger] channels@[j], j) && channels@[j].enabled,
            decreases 64 - i,
        {
            channels.push(
                Channel {
                    frequency: 902_300_000 + 200_000 * (i as u32),
                    min_dr: DataRate::SF10BW125,
                    max_dr: DataRate::SF7BW125,
                    enabled: true,
                },
            );
            i = i + 1;
        }
        let mut i2: usize = 0;
        while i2 < 8
            invariant
                0 <= i2 <= 8,
                channels@.len() == 64 + i2,
                forall|j: int|
                    0 <= j < channels@.len() ==> channel_shape(#[trigger] channels@[j], j)
                        && channels@[j].enabled,
            decreases 8 - i2,
        {
            channels.push(
                Channel {
                    frequency: 903_000_000 + 1_600_000 * (i2 as u32),
                    min_dr: DataRate::SF8BW500,
                    max_dr: DataRate::SF8BW500,
                    enabled: true,
                },
            );
            i2 = i2 + 1;
        }
        Self {
            channels,
            data_rate: DataRate::SF10BW125,
            sub_band: 0,
            last_channel: 0,
            join_cursor: 0,
            beacon_cursor: 0,
            rx1_dr_offset: 0,
            rx2_frequency: 923_300_000,
            rx2_data_rate: 8,
            tx_power: 0,
            rx1_delay_ms: 1000,
        }
    }

    /// The current uplink data rate.
    pub fn get_data_rate(&self) -> (r: DataRate)
        ensures
            r == self.data_rate,
    {
        self.data_rate
    }

    /// The enabled channels, in table order.
    pub fn get_enabled_channels(&self) -> (r: Vec<Channel>)
        ensures
            r@ == enabled_seq(self.channels@),
    {
        let mut out: Vec<Channel> = Vec::new();
        let mut i: usize = 0;
        while i < self.channels.len()
            invariant
                0 <= i <= self.channels@.len(),
                out@ == enabled_seq(self.channels@.take(i as int)),
            decreases self.channels@.len() - i,
        {
            proof {
                reveal(Seq::filter);
                assert(self.channels@.take(i + 1).drop_last() =~= self.channels@.take(i as int));
                assert(self.channels@.take(i + 1).last() == self.channels@[i as int]);
            }
            let c = self.channels[i];
            if c.enabled {
                out.push(c);
            }
            i = i + 1;
        }
        proof {
            assert(self.channels@.take(self.channels@.len() as int) =~= self.channels@);
        }
        out
    }

    /// Select a sub-band (0..=7, clamped): exactly its eight 125-kHz
    /// channels and its 500-kHz channel are enabled afterwards — nine
    /// channels in all.
    pub fn set_sub_band(&mut self, sub_band: u8)
        requires
            old(self).wf(),
        ensures
            final(self).wf(),
            final(self).sub_band == if sub_band < 7 {
                sub_band
            } else {
                7u8
            },
            final(self).channels@.len() == 72,
            forall|i: int|
                0 <= i < 72 ==> #[trigger] final(self).channels@[i] == with_enabled(
                    old(self).channels@[i],
                    sub_band_enables(final(self).sub_band as int, i),
                ),
            enabled_seq(final(self).channels@).len() == 9,
            final(self).data_rate == old(self).data_rate,
            final(self).last_channel == old(self).last_channel,
            final(self).join_cursor == old(self).join_cursor,
            final(self).beacon_cursor == old(self).beacon_cursor,
            final(self).rx1_dr_offset == old(self).rx1_dr_offset,
            final(self).rx2_frequency == old(self).rx2_frequency,
            final(self).rx2_data_rate == old(self).rx2_data_rate,
            final(self).tx_power == old(self).tx_power,
            final(self).rx1_delay_ms == old(self).rx1_delay_ms,
    {
        let sb: u8 = if sub_band < 7 {
            sub_band
        } else {
            7
        };
        self.sub_band = sb;
        let mut i: usize = 0;
        while i < self.channels.len()
            invariant
                old(self).wf(),
                self.channels@.len() == 72,
                0 <= i <= 72,
                sb == self.sub_band,
                sb <= 7,
                forall|j: int|
                    0 <= j < i ==> #[trigger] self.channels@[j] == with_enabled(
                        old(self).channels@[j],
                        sub_band_enables(sb as int, j),
                    ),
                forall|j: int| i <= j < 72 ==> self.channels@[j] == old(self).channels@[j],
                self.data_rate == old(self).data_rate,
                self.sub_band == sb,
                self.last_channel == old(self).last_channel,
                self.join_cursor == old(self).join_cursor,
                self.beacon_cursor == old(self).beacon_cursor,
                self.rx1_dr_offset == old(self).rx1_dr_offset,
                self.rx2_frequency == old(self).rx2_frequency,
                self.rx2_data_rate == old(self).rx2_data_rate,
                self.tx_power == old(self).tx_power,
                self.rx1_delay_ms == old(self).rx1_delay_ms,
            decreases self.channels@.len() - i,
        {
            let in_band: bool = (i / 8) as u8 == sb || i == 64 + (sb as usize);
            let c = self.channels[i];
            self.channels.set(i, Channel { enabled: in_band, ..c });
            proof {
                assert(in_band == sub_band_enables(sb as int, i as int));
            }
            i = i + 1;
        }
        proof {
            assert(forall|i: int|
                0 <= i < 72 ==> ((#[trigger] self.channels@[i]).enabled <==> sub_band_enables(
                    sb as int,
                    i,
                )));
            lemma_sub_band_enables_nine(self.channels@, sb as int);
        }
    }

    /// Configure the sub-band commonly used by community networks:
    /// sub-band 2, i.e. zero-based index 1.
    pub fn configure_ttn_us915(&mut self)
        requires
            old(self).wf(),
        ensures
            final(self).wf(),
            final(self).sub_band == 1,
            forall|i: int|
                0 <= i < 72 ==> #[trigger] final(self).channels@[i] == with_enabled(
                    old(self).channels@[i],
                    sub_band_enables(1, i),
                ),
            enabled_seq(final(self).channels@).len() == 9,
    {
        self.set_sub_band(1);
    }

    /// Round-robin selection over the enabled channels: each call moves the
    /// cursor one step, so every enabled channel is visited before any
    /// repeats.  Returns `None` when no channel is enabled.
    pub fn get_next_channel(&mut self) -> (r: Option<Channel>)
        requires
            old(self).wf(),
        ensures
            final(self).wf(),
            final(self).channels@ == old(self).channels@,
            final(self).params_unchanged(old(self)),
            ({
                let en = enabled_seq(old(self).channels@);
                if en.len() == 0 {
                    r is None && final(self).last_channel == old(self).last_channel
                } else {
                    let idx = ((old(self).last_channel + 1) as int) % (en.len() as int);
                    r == Some(en[idx]) && final(self).last_channel == idx
                }
            }),
    {
        let enabled = self.get_enabled_channels();
        if enabled.len() == 0 {
            return None;
        }
        let next = (self.last_channel + 1) % enabled.len();
        let channel = enabled[next];
        proof {
            assert(enabled_seq(self.channels@).len() <= self.channels@.len()) by {
                broadcast use vstd::prelude::Seq::lemma_filter_len;

            }
        }
        self.last_channel = next;
        Some(channel)
    }

    /// The channel at a table index, where the index is in range.
    pub fn get_channel(&self, index: u8) -> (r: Option<Channel>)
        requires
            self.wf(),
        ensures
            r == if index < 72 {
                Some(self.channels@[index as int])
            } else {
                Option::<Channel>::None
            },
    {
        if (index as usize) < self.channels.len() {
            Some(self.channels[index as usize])
        } else {
            None
        }
    }

    /// The region name.
    pub fn name(&self) -> (r: &'static str) {
        "US915"
    }

    /// The number of channels in the table.
    pub fn channels_len(&self) -> (r: usize)
        ensures
            r == self.channels@.len(),
    {
        self.channels.len()
    }

    /// The capacity of the channel table.
    pub fn get_max_channels(&self) -> (r: usize)
        ensures
            r == 72,
    {
        MAX_CHANNELS
    }

    /// Whether a frequency lies inside the US915 band.
    pub fn is_valid_frequency(&self, frequency: u32) -> (r: bool)
        ensures
            r == (902_000_000 <= frequency <= 928_000_000),
    {
        frequency >= self.min_frequency() && frequency <= self.max_frequency()
    }

    /// The lower band edge in Hz.
    pub fn min_frequency(&self) -> (r: u32)
        ensures
            r == 902_000_000,
    {
        902_000_000
    }

    /// The upper band edge in Hz.
    pub fn max_frequency(&self) -> (r: u32)
        ensures
            r == 928_000_000,
    {
        928_000_000
    }

    /// The current RX2 frequency.
    pub fn rx2_frequency(&self) -> (r: u32)
        ensures
            r == self.rx2_frequency,
    {
        self.rx2_frequency
    }

    /// The current RX2 downlink data-rate index.
    pub fn rx2_data_rate(&self) -> (r: u8)
        ensures
            r == self.rx2_data_rate,
    {
        self.rx2_data_rate
    }

    /// The maximum application payload for an uplink data-rate index, per
    /// the normative repeater-unaware table.
    pub fn max_payload_size(&self, data_rate: u8) -> (r: u8)
        ensures
            r == (if data_rate == 0 {
                19u8
            } else if data_rate == 1 {
                61u8
            } else if data_rate == 2 {
                133u8
            } else if data_rate == 3 {
                250u8
            } else if data_rate == 4 {
                250u8
            } else {
                0u8
            }),
    {
        match data_rate {
            0 => 19,
            1 => 61,
            2 => 133,
            3 => 250,
            4 => 250,
            _ => 0,
        }
    }

    /// Delay from the end of an uplink to the RX1 window, in milliseconds.
    pub fn receive_delay1(&self) -> (r: u32)
        ensures
            r == self.rx1_delay_ms,
    {
        self.rx1_delay_ms
    }

    /// Delay from the end of an uplink to the RX2 window: one second after
    /// RX1.
    pub fn receive_delay2(&self) -> (r: u32)
        requires
            self.wf(),
        ensures
            r == self.rx1_delay_ms + 1000,
    {
        self.rx1_delay_ms + 1000
    }

    /// Delay from the end of a join request to its first receive window.
    pub fn join_accept_delay1(&self) -> (r: u32)
        ensures
            r == 5000,
    {
        5000
    }

    /// Delay from the end of a join request to its second receive window.
    pub fn join_accept_delay2(&self) -> (r: u32)
        ensures
            r == 6000,
    {
        6000
    }

    /// Whether an uplink data-rate index is valid for US915.
    pub fn is_valid_data_rate(&self, data_rate: u8) -> (r: bool)
        ensures
            r == (data_rate <= 4),
    {
        data_rate <= 4
    }

    /// Whether a transmit-power index is valid for US915.
    pub fn is_valid_tx_power(&self, tx_power: u8) -> (r: bool)
        ensures
            r == (tx_power <= 14),
    {
        tx_power <= 14
    }

    /// Whether an RX1 data-rate offset is valid for US915.
    pub fn is_valid_rx1_dr_offset(&self, offset: u8) -> (r: bool)
        ensures
            r == (offset <= 3),
    {
        offset <= 3
    }

    /// Whether a downlink data-rate index is valid for the RX2 window.
    pub fn is_valid_rx2_data_rate(&self, data_rate: u8) -> (r: bool)
        ensures
            r == (8 <= data_rate <= 13),
    {
        8 <= data_rate && data_rate <= 13
    }

    /// Whether a LinkADR channel-mask control value is supported.
    pub fn is_valid_channel_mask(&self, _mask: u16, ch_mask_cntl: u8) -> (r: bool)
        ensures
            r == (ch_mask_cntl <= 4),
    {
        ch_mask_cntl <= 4
    }

    /// Set the uplink data rate by its US915 index.
    pub fn set_data_rate(&mut self, index: u8)
        requires
            old(self).wf(),
            index <= 4,
        ensures
            final(self).wf(),
            final(self).data_rate == us915_dr_from_index(index),
            final(self).channels@ == old(self).channels@,
            final(self).sub_band == old(self).sub_band,
            final(self).last_channel == old(self).last_channel,
            final(self).join_cursor == old(self).join_cursor,
            final(self).beacon_cursor == old(self).beacon_cursor,
            final(self).rx1_dr_offset == old(self).rx1_dr_offset,
            final(self).rx2_frequency == old(self).rx2_frequency,
            final(self).rx2_data_rate == old(self).rx2_data_rate,
            final(self).tx_power == old(self).tx_power,
            final(self).rx1_delay_ms == old(self).rx1_delay_ms,
    {
        self.data_rate = if index == 0 {
            DataRate::SF10BW125
        } else if index == 1 {
            DataRate::SF9BW125
        } else if index == 2 {
            DataRate::SF8BW125
        } else if index == 3 {
            DataRate::SF7BW125
        } else {
            DataRate::SF8BW500
        };
    }

    /// Set the transmit-power index.
    pub fn set_tx_power(&mut self, tx_power: u8)
        requires
            old(self).wf(),
            tx_power <= 14,
        ensures
            final(self).wf(),
            *final(self) == (US915 { tx_power, ..*old(self) }),
    {
        self.tx_power = tx_power;
    }

    /// Set the RX1 data-rate offset.
    pub fn set_rx1_dr_offset(&mut self, offset: u8)
        requires
            old(self).wf(),
            offset <= 3,
        ensures
            final(self).wf(),
            *final(self) == (US915 { rx1_dr_offset: offset, ..*old(self) }),
    {
        self.rx1_dr_offset = offset;
    }

    /// Set the RX2 frequency.
    pub fn set_rx2_frequency(&mut self, frequency: u32)
        requires
            old(self).wf(),
        ensures
            final(self).wf(),
            *final(self) == (US915 { rx2_frequency: frequency, ..*old(self) }),
    {
        self.rx2_frequency = frequency;
    }

    /// Set the RX2 downlink data-rate index.
    pub fn set_rx2_data_rate(&mut self, data_rate: u8)
        requires
            old(self).wf(),
            8 <= data_rate <= 13,
        ensures
            final(self).wf(),
            *final(self) == (US915 { rx2_data_rate: data_rate, ..*old(self) }),
    {
        self.rx2_data_rate = data_rate;
    }

    /// Set the RX1 delay from its RXTimingSetup encoding in seconds, where
    /// zero means one second.
    pub fn set_rx1_delay(&mut self, delay_s: u8)
        requires
            old(self).wf(),
            delay_s <= 15,
        ensures
            final(self).wf(),
            final(self).rx1_delay_ms == (if delay_s == 0 {
                1000int
            } else {
                1000 * delay_s
            }),
            *final(self) == (US915 { rx1_delay_ms: final(self).rx1_delay_ms, ..*old(self) }),
    {
        let d: u32 = if delay_s == 0 {
            1
        } else {
            delay_s as u32
        };
        self.rx1_delay_ms = 1000 * d;
    }

    /// Apply a LinkADR channel mask: control values 0..=4 select a bank of
    /// sixteen channels whose enabled flags are set from the mask bits.
    pub fn apply_channel_mask(&mut self, mask: u16, ch_mask_cntl: u8)
        requires
            old(self).wf(),
            ch_mask_cntl <= 4,
        ensures
            final(self).wf(),
            final(self).channels@.len() == 72,
            mask_applied(old(self).channels@, final(self).channels@, mask, ch_mask_cntl),
            final(self).params_unchanged(old(self)),
            final(self).last_channel == old(self).last_channel,
    {
        let base: usize = 16 * (ch_mask_cntl as usize);
        let mut b: usize = 0;
        while b < 16
            invariant
                old(self).wf(),
                base == 16 * ch_mask_cntl,
                ch_mask_cntl <= 4,
                0 <= b <= 16,
                self.channels@.len() == 72,
                forall|i: int|
                    0 <= i < 72 ==> #[trigger] self.channels@[i] == (if base <= i < base + b {
                        with_enabled(
                            old(self).channels@[i],
                            (mask >> (i - base) as u16) & 1 == 1,
                        )
                    } else {
                        old(self).channels@[i]
                    }),
                self.data_rate == old(self).data_rate,
                self.sub_band == old(self).sub_band,
                self.last_channel == old(self).last_channel,
                self.join_cursor == old(self).join_cursor,
                self.beacon_cursor == old(self).beacon_cursor,
                self.rx1_dr_offset == old(self).rx1_dr_offset,
                self.rx2_frequency == old(self).rx2_frequency,
                self.rx2_data_rate == old(self).rx2_data_rate,
                self.tx_power == old(self).tx_power,
                self.rx1_delay_ms == old(self).rx1_delay_ms,
            decreases 16 - b,
        {
            let i = base + b;
            if i < self.channels.len() {
                let on: bool = (mask >> (b as u16)) & 1 == 1;
                let c = self.channels[i];
                self.channels.set(i, Channel { enabled: on, ..c });
            }
            b = b + 1;
        }
    }

    /// The RX1 window for an uplink channel: the downlink channel is the
    /// uplink index modulo 8, the data rate follows the US915 offset table
    /// applied to the current uplink rate.
    pub fn rx1_window(&self, tx_channel: &Channel) -> (r: (u32, u8))
        requires
            self.wf(),
            is_uplink_channel(*tx_channel),
        ensures
            r.0 == 923_300_000 + 600_000 * (uplink_index_of(*tx_channel) % 8),
            r.1 == rx1_downlink_dr(us915_dr_index(self.data_rate), self.rx1_dr_offset as int),
    {
        let index: u32 = if matches!(tx_channel.max_dr, DataRate::SF8BW500) {
            64 + (tx_channel.frequency - 903_000_000) / 1_600_000
        } else {
            (tx_channel.frequency - 902_300_000) / 200_000
        };
        let frequency = 923_300_000 + 600_000 * (index % 8);
        let up = self.data_rate_index();
        let d: u8 = up + 10 - self.rx1_dr_offset;
        let dr: u8 = if d < 8 {
            8
        } else if d > 13 {
            13
        } else {
            d
        };
        (frequency, dr)
    }

    /// The RX2 window: the current RX2 frequency and data rate.
    pub fn rx2_window(&self) -> (r: (u32, u8))
        ensures
            r.0 == self.rx2_frequency,
            r.1 == self.rx2_data_rate,
    {
        (self.rx2_frequency, self.rx2_data_rate)
    }

    /// The configured transmit power in dBm: the US915 EIRP of 30 dBm
    /// stepped down 2 dB per index.
    pub fn tx_power_dbm(&self) -> (r: i8)
        requires
            self.wf(),
        ensures
            r == 30 - 2 * self.tx_power,
    {
        30 - 2 * (self.tx_power as i8)
    }

    /// The US915 uplink index of the current data rate.
    pub fn data_rate_index(&self) -> (r: u8)
        requires
            self.wf(),
        ensures
            r == us915_dr_index(self.data_rate),
    {
        match self.data_rate {
            DataRate::SF10BW125 => 0,
            DataRate::SF9BW125 => 1,
            DataRate::SF8BW125 => 2,
            DataRate::SF7BW125 => 3,
            DataRate::SF8BW500 => 4,
            _ => 0,
        }
    }

    /// The eight beacon / downlink channels: 923.3 MHz plus multiples of
    /// 600 kHz.
    pub fn get_beacon_channels(&self) -> (r: Vec<Channel>)
        ensures
            r@.len() == 8,
            forall|k: int| 0 <= k < 8 ==> #[trigger] r@[k] == beacon_channel_spec(k),
    {
        let mut channels: Vec<Channel> = Vec::new();
        let mut i: usize = 0;
        while i < 8
            invariant
                0 <= i <= 8,
                channels@.len() == i,
                forall|k: int| 0 <= k < i ==> #[trigger] channels@[k] == beacon_channel_spec(k),
            decreases 8 - i,
        {
            channels.push(
                Channel {
                    frequency: 923_300_000 + (i as u32) * 600_000,
                    min_dr: DataRate::SF12BW125,
                    max_dr: DataRate::SF12BW125,
                    enabled: true,
                },
            );
            i = i + 1;
        }
        channels
    }

    /// The next join-request channel: a dedicated cursor walks the 64
    /// 125-kHz channels in order.
    pub fn get_next_join_channel(&mut self) -> (r: Channel)
        requires
            old(self).wf(),
        ensures
            final(self).wf(),
            final(self).channels@ == old(self).channels@,
            final(self).last_channel == old(self).last_channel,
            final(self).data_rate == old(self).data_rate,
            final(self).sub_band == old(self).sub_band,
            final(self).rx1_dr_offset == old(self).rx1_dr_offset,
            final(self).rx2_frequency == old(self).rx2_frequency,
            final(self).rx2_data_rate == old(self).rx2_data_rate,
            final(self).tx_power == old(self).tx_power,
            final(self).rx1_delay_ms == old(self).rx1_delay_ms,
            final(self).join_cursor == (old(self).join_cursor + 1) % 64,
            final(self).beacon_cursor == old(self).beacon_cursor,
            r == old(self).channels@[final(self).join_cursor as int],
    {
        let next = (self.join_cursor + 1) % 64;
        self.join_cursor = next;
        self.channels[next]
    }

    /// The next beacon channel in rotation: a dedicated cursor walks all
    /// eight channels in order, so a scan visits every one.
    pub fn get_next_beacon_channel(&mut self) -> (r: Option<Channel>)
        requires
            old(self).wf(),
        ensures
            final(self).wf(),
            final(self).channels@ == old(self).channels@,
            final(self).last_channel == old(self).last_channel,
            final(self).join_cursor == old(self).join_cursor,
            final(self).data_rate == old(self).data_rate,
            final(self).sub_band == old(self).sub_band,
            final(self).rx1_dr_offset == old(self).rx1_dr_offset,
            final(self).rx2_frequency == old(self).rx2_frequency,
            final(self).rx2_data_rate == old(self).rx2_data_rate,
            final(self).tx_power == old(self).tx_power,
            final(self).rx1_delay_ms == old(self).rx1_delay_ms,
            final(self).beacon_cursor == (old(self).beacon_cursor + 1) % 8,
            r == Some(beacon_channel_spec(final(self).beacon_cursor as int)),
    {
        let beacon_channels = self.get_beacon_channels();
        let index = (self.beacon_cursor + 1) % 8;
        self.beacon_cursor = index;
        Some(beacon_channels[index])
    }
}

} // verus!
