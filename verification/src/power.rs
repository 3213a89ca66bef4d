//! Power management: battery thresholds, consumption accounting and duty
//! cycle in integer permille.

use vstd::prelude::*;

verus! {

/// Power consumption states.
#[derive(Debug, Clone, Copy, PartialEq, Eq, Structural)]
pub enum PowerState {
    /// Normal operation.
    Normal,
    /// Power-saving mode.
    PowerSaving,
    /// Critical battery level.
    Critical,
}

/// Largest time slice accounted in one step, in milliseconds.
pub const MAX_ACCOUNTED_MS: u64 = 500_000_000;

/// Saturating 16-bit addition.
pub open spec fn sat_add16(a: u16, b: int) -> u16 {
    if a + b > 65535 {
        65535u16
    } else {
        (a + b) as u16
    }
}

/// Saturating 64-bit addition.
pub open spec fn sat_add64(a: u64, b: u64) -> u64 {
    if a + b > 0xFFFF_FFFF_FFFF_FFFF {
        0xFFFF_FFFF_FFFF_FFFFu64
    } else {
        (a + b) as u64
    }
}

/// The milliampere estimate of a time slice at a rate of `rate` mA,
/// clamped to the accounting bounds.
pub open spec fn consumption_step(ms: u64, rate: int) -> int {
    let m: int = if ms > MAX_ACCOUNTED_MS {
        MAX_ACCOUNTED_MS as int
    } else {
        ms as int
    };
    let c = m * rate / 1000;
    if c > 65535 {
        65535int
    } else {
        c
    }
}

/// The duty cycle of the accounted times, in permille, over the
/// saturating total.
pub open spec fn duty_cycle_permille_spec(active: u64, sleep: u64) -> int {
    let total = sat_add64(active, sleep);
    if total == 0 {
        0int
    } else {
        active * 1000 / (total as int)
    }
}

/// Power consumption metrics.
#[derive(Debug, Clone, Copy)]
pub struct PowerMetrics {
    /// Battery level: 0 external power, 1..=254 level, 255 unknown.
    pub battery_level: u8,
    /// Estimated consumption in mA.
    pub current_consumption: u16,
    /// Accumulated transmit time in milliseconds.
    pub tx_time: u64,
    /// Accumulated receive time in milliseconds.
    pub rx_time: u64,
    /// Accumulated sleep time in milliseconds.
    pub sleep_time: u64,
}

impl PowerMetrics {
    /// Fresh metrics: battery unknown, nothing accounted.
    pub fn new() -> (r: Self)
        ensures
            r == (PowerMetrics {
                battery_level: 255u8,
                current_consumption: 0u16,
                tx_time: 0u64,
                rx_time: 0u64,
                sleep_time: 0u64,
            }),
    {
        Self { battery_level: 255, current_consumption: 0, tx_time: 0, rx_time: 0, sleep_time: 0 }
    }

    /// Record a battery reading.
    pub fn update_battery(&mut self, level: u8)
        ensures
            *final(self) == (PowerMetrics { battery_level: level, ..*old(self) }),
    {
        self.battery_level = level;
    }

    /// Account transmit time (typical draw 120 mA).
    pub fn add_tx_time(&mut self, duration_ms: u64)
        ensures
            final(self).tx_time == sat_add64(old(self).tx_time, duration_ms),
            final(self).current_consumption == sat_add16(
                old(self).current_consumption,
                consumption_step(duration_ms, 120),
            ),
            final(self).rx_time == old(self).rx_time,
            final(self).sleep_time == old(self).sleep_time,
            final(self).battery_level == old(self).battery_level,
    {
        self.tx_time = self.tx_time.saturating_add(duration_ms);
        self.current_consumption = self.current_consumption.saturating_add(
            consumption_of(duration_ms, 120),
        );
    }

    /// Account receive time (typical draw 12 mA).
    pub fn add_rx_time(&mut self, duration_ms: u64)
        ensures
            final(self).rx_time == sat_add64(old(self).rx_time, duration_ms),
            final(self).current_consumption == sat_add16(
                old(self).current_consumption,
                consumption_step(duration_ms, 12),
            ),
            final(self).tx_time == old(self).tx_time,
            final(self).sleep_time == old(self).sleep_time,
            final(self).battery_level == old(self).battery_level,
    {
        self.rx_time = self.rx_time.saturating_add(duration_ms);
        self.current_consumption = self.current_consumption.saturating_add(
            consumption_of(duration_ms, 12),
        );
    }

    /// Account sleep time (negligible draw).
    pub fn add_sleep_time(&mut self, duration_ms: u64)
        ensures
            final(self).sleep_time == sat_add64(old(self).sleep_time, duration_ms),
            final(self).current_consumption == sat_add16(
                old(self).current_consumption,
                consumption_step(duration_ms, 0),
            ),
            final(self).tx_time == old(self).tx_time,
            final(self).rx_time == old(self).rx_time,
            final(self).battery_level == old(self).battery_level,
    {
        self.sleep_time = self.sleep_time.saturating_add(duration_ms);
        self.current_consumption = self.current_consumption.saturating_add(
            consumption_of(duration_ms, 0),
        );
    }

    /// Total active (transmit plus receive) time, saturating.
    pub fn get_active_time(&self) -> (r: u64)
        ensures
            r == sat_add64(self.tx_time, self.rx_time),
    {
        self.tx_time.saturating_add(self.rx_time)
    }

    /// The duty cycle of the accounted times, in permille (0..=1000).
    pub fn get_duty_cycle_permille(&self) -> (r: u32)
        ensures
            r == duty_cycle_permille_spec(sat_add64(self.tx_time, self.rx_time), self.sleep_time),
            r <= 1000,
    {
        let active = self.get_active_time();
        let total = active.saturating_add(self.sleep_time);
        if total == 0 {
            return 0;
        }
        let permille: u64 = ((active as u128) * 1000 / (total as u128)) as u64;
        proof {
            assert((active as int) * 1000 / (total as int) <= 1000) by (nonlinear_arith)
                requires
                    0 <= active <= total,
                    total > 0,
            ;
        }
        permille as u32
    }
}

/// Compute one consumption step, clamped.
fn consumption_of(ms: u64, rate: u16) -> (r: u16)
    requires
        rate <= 1000,
    ensures
        r == consumption_step(ms, rate as int),
{
    let m: u64 = if ms > MAX_ACCOUNTED_MS {
        MAX_ACCOUNTED_MS
    } else {
        ms
    };
    proof {
        assert(m * (rate as u64) <= 500_000_000u64 * 1000) by (nonlinear_arith)
            requires
                m <= 500_000_000u64,
                rate <= 1000u16,
        ;
    }
    let c: u64 = m * (rate as u64) / 1000;
    if c > 65535 {
        65535
    } else {
        c as u16
    }
}

/// Power management configuration.
#[derive(Debug, Clone, Copy)]
pub struct PowerConfig {
    /// Critical battery threshold.
    pub critical_threshold: u8,
    /// Low battery threshold.
    pub low_threshold: u8,
    /// Maximum duty cycle in permille.
    pub max_duty_cycle_permille: u32,
    /// Whether power saving was explicitly enabled.
    pub power_saving_enabled: bool,
}

impl Default for PowerConfig {
    /// The default thresholds: critical at 10, low at 30, one percent duty.
    fn default() -> (r: Self)
        ensures
            r == (PowerConfig {
                critical_threshold: 10u8,
                low_threshold: 30u8,
                max_duty_cycle_permille: 10u32,
                power_saving_enabled: false,
            }),
    {
        Self {
            critical_threshold: 10,
            low_threshold: 30,
            max_duty_cycle_permille: 10,
            power_saving_enabled: false,
        }
    }
}

/// The power manager: configuration, metrics and the derived state.
#[derive(Debug, Clone, Copy)]
pub struct PowerManager {
    /// Configuration.
    pub config: PowerConfig,
    /// Metrics.
    pub metrics: PowerMetrics,
    /// Current power state.
    pub state: PowerState,
}

impl PowerManager {
    /// Create a power manager.
    pub fn new(config: PowerConfig) -> (r: Self)
        ensures
            r.config == config,
            r.metrics == (PowerMetrics {
                battery_level: 255u8,
                current_consumption: 0u16,
                tx_time: 0u64,
                rx_time: 0u64,
                sleep_time: 0u64,
            }),
            r.state == PowerState::Normal,
    {
        Self { config, metrics: PowerMetrics::new(), state: PowerState::Normal }
    }

    /// Record a battery reading and derive the power state from the
    /// thresholds.
    pub fn update_battery(&mut self, level: u8) -> (r: PowerState)
        ensures
            final(self).metrics.battery_level == level,
            final(self).config == old(self).config,
            final(self).state == r,
            r == (if level <= old(self).config.critical_threshold {
                PowerState::Critical
            } else if level <= old(self).config.low_threshold
                || old(self).config.power_saving_enabled {
                PowerState::PowerSaving
            } else {
                PowerState::Normal
            }),
    {
        self.metrics.update_battery(level);
        self.state = if level <= self.config.critical_threshold {
            PowerState::Critical
        } else if level <= self.config.low_threshold || self.config.power_saving_enabled {
            PowerState::PowerSaving
        } else {
            PowerState::Normal
        };
        self.state
    }

    /// Account a transmit operation.
    pub fn record_tx(&mut self, duration_ms: u64)
        ensures
            final(self).metrics.tx_time == sat_add64(old(self).metrics.tx_time, duration_ms),
            final(self).config == old(self).config,
            final(self).state == old(self).state,
    {
        self.metrics.add_tx_time(duration_ms);
    }

    /// Account a receive operation.
    pub fn record_rx(&mut self, duration_ms: u64)
        ensures
            final(self).metrics.rx_time == sat_add64(old(self).metrics.rx_time, duration_ms),
            final(self).config == old(self).config,
            final(self).state == old(self).state,
    {
        self.metrics.add_rx_time(duration_ms);
    }

    /// Account a sleep period.
    pub fn record_sleep(&mut self, duration_ms: u64)
        ensures
            final(self).metrics.sleep_time == sat_add64(old(self).metrics.sleep_time, duration_ms),
            final(self).config == old(self).config,
            final(self).state == old(self).state,
    {
        self.metrics.add_sleep_time(duration_ms);
    }

    /// Whether the accounted duty cycle exceeds the configured limit;
    /// transmissions must back off while it does.
    pub fn is_duty_cycle_exceeded(&self) -> (r: bool)
        ensures
            r == (duty_cycle_permille_spec(
                sat_add64(self.metrics.tx_time, self.metrics.rx_time),
                self.metrics.sleep_time,
            ) > self.config.max_duty_cycle_permille),
    {
        self.metrics.get_duty_cycle_permille() > self.config.max_duty_cycle_permille
    }

    /// Borrow the metrics.
    pub fn get_metrics(&self) -> (r: &PowerMetrics)
        ensures
            r == &self.metrics,
    {
        &self.metrics
    }

    /// The current power state.
    pub fn get_state(&self) -> (r: PowerState)
        ensures
            r == self.state,
    {
        self.state
    }

    /// Enable power saving; a normal state becomes power saving.
    pub fn enable_power_saving(&mut self)
        ensures
            final(self).config.power_saving_enabled,
            final(self).state == (if old(self).state == PowerState::Normal {
                PowerState::PowerSaving
            } else {
                old(self).state
            }),
            final(self).metrics == old(self).metrics,
    {
        self.config.power_saving_enabled = true;
        if matches!(self.state, PowerState::Normal) {
            self.state = PowerState::PowerSaving;
        }
    }

    /// Disable power saving; a power-saving state returns to normal once
    /// the battery is above the low threshold.
    pub fn disable_power_saving(&mut self)
        ensures
            !final(self).config.power_saving_enabled,
            final(self).state == (if old(self).state == PowerState::PowerSaving && old(
                self,
            ).metrics.battery_level > old(self).config.low_threshold {
                PowerState::Normal
            } else {
                old(self).state
            }),
            final(self).metrics == old(self).metrics,
    {
        self.config.power_saving_enabled = false;
        if matches!(self.state, PowerState::PowerSaving) && self.metrics.battery_level
            > self.config.low_threshold {
            self.state = PowerState::Normal;
        }
    }
}

} // verus!
