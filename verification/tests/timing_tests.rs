use lorawan::beacon::compute_crc16;
use lorawan::class_b::BeaconFrame;
use lorawan::class_b::PingSlotCalculator;
use lorawan::class_b::PingSlotState;
use lorawan::ping_slot::PingSlotConfig;
use lorawan::ping_slot::PingSlotScheduler;
use lorawan::power::PowerConfig;
use lorawan::power::PowerManager;
use lorawan::power::PowerMetrics;
use lorawan::power::PowerState;
use lorawan::timing::NetworkTime;

#[test]
fn test_time_conversion() {
    let time_sync = NetworkTime::new();

    let gps_time = 1234567890;
    let network_time = time_sync.gps_to_network_time(gps_time);
    assert_eq!(time_sync.network_to_gps_time(network_time), gps_time);
}

#[test]
fn test_network_time_update() {
    let mut t = NetworkTime::new();
    // The first observation only anchors.
    t.update(1_000);
    assert_eq!(t.last_sync, 1_000);
    assert_eq!(t.drift_compensation, 0);
    // A beacon 100 ms late is a valid drift sample.
    t.update(1_000 + 128_000 + 100);
    assert_eq!(t.last_sync, 129_100);
    assert!(t.drift_compensation > 0);
    // A wild jump is rejected as noise but still re-anchors.
    let drift_before = t.drift_compensation;
    t.update(129_100 + 128_000 + 50_000);
    assert_eq!(t.last_sync, 129_100 + 178_000);
    assert_eq!(t.drift_compensation, drift_before);
}

#[test]
fn test_ping_slot_calculation() {
    let mut config = PingSlotConfig::default();
    config.set_periodicity(1);  // 64 slots

    let mut scheduler = PingSlotScheduler::new();
    scheduler.set_random_seed(0x12345678);
    scheduler.update_schedule(&config, 0);

    assert_eq!(scheduler.slots.len(), 16);  // capped by the slot table

    let mut last_slot = 0;
    for (i, &slot) in scheduler.slots.iter().enumerate() {
        let spacing = slot.saturating_sub(last_slot);
        assert!(
            slot >= last_slot + 30,
            "Slot {} has insufficient spacing: {} ms (slot time: {}, last slot: {})",
            i,
            spacing,
            slot,
            last_slot
        );
        last_slot = slot;
    }
}

#[test]
fn test_next_slot() {
    let mut config = PingSlotConfig::default();
    config.set_periodicity(2);  // 32 slots

    let mut scheduler = PingSlotScheduler::new();
    scheduler.update_schedule(&config, 0);

    if let Some(first_slot) = scheduler.next_slot(0) {
        assert!(first_slot >= 2_120);
        assert!(scheduler.next_slot(first_slot).unwrap() > first_slot);
    }
    // Past the last slot, nothing is due.
    assert!(scheduler.next_slot(u32::MAX).is_none());
}

#[test]
fn test_ping_offset_is_deterministic_and_bounded() {
    let calc = PingSlotCalculator::new(0x01020304, 12345, 32);
    let a = calc.calculate_ping_offset();
    let b = calc.calculate_ping_offset();
    assert_eq!(a, b);
    assert!(a <= 31 * 30);
    assert_eq!(a % 30, 0);
    // A different beacon time moves the slot.
    let calc2 = PingSlotCalculator::new(0x01020304, 12346, 4096);
    let c = calc2.calculate_ping_offset();
    assert!(c <= 4095 * 30);
}

#[test]
fn test_ping_slot_state() {
    let calc = PingSlotCalculator::new(0x01020304, 777, 64);
    let mut state = PingSlotState::new(64, 923_300_000, 8);
    state.update_next_slot(&calc);
    assert_eq!(state.next_slot, calc.calculate_ping_offset());
    assert_eq!(state.get_missed_slots(), 0);
    state.record_missed_slot();
    state.record_missed_slot();
    state.record_missed_slot();
    assert_eq!(state.get_missed_slots(), 3);
    state.reset_missed_slots();
    assert_eq!(state.get_missed_slots(), 0);
}

#[test]
fn test_crc16_reference() {
    // CRC-16 with polynomial 0x1021 and zero start over "123456789".
    assert_eq!(compute_crc16(b"123456789"), 0x31C3);
    assert_eq!(compute_crc16(&[]), 0x0000);
}

#[test]
fn test_beacon_frame_parse() {
    let data = [
        0x12, 0x34, 0x56, 0x78, 0xAB, 0xCD, 0x07, 0x01, 0x02, 0x03, 0x04, 0x05, 0x06, 0x07,
        0x00, 0x00, 0x00,
    ];
    let f = BeaconFrame::parse(&data).unwrap();
    assert_eq!(f.time, 0x12345678);
    assert_eq!(f.crc, 0xABCD);
    assert_eq!(f.gwspec, 0x07);
    assert_eq!(f.info, [0x01, 0x02, 0x03, 0x04, 0x05, 0x06, 0x07]);
    assert!(BeaconFrame::parse(&data[..16]).is_err());
}

#[test]
fn test_power_manager_thresholds() {
    let mut pm = PowerManager::new(PowerConfig::default());
    assert_eq!(pm.get_state(), PowerState::Normal);
    assert_eq!(pm.update_battery(50), PowerState::Normal);
    assert_eq!(pm.update_battery(30), PowerState::PowerSaving);
    assert_eq!(pm.update_battery(10), PowerState::Critical);
    assert_eq!(pm.update_battery(200), PowerState::Normal);
    pm.enable_power_saving();
    assert_eq!(pm.get_state(), PowerState::PowerSaving);
    pm.disable_power_saving();
    assert_eq!(pm.get_state(), PowerState::Normal);
}

#[test]
fn test_duty_cycle_accounting() {
    let mut m = PowerMetrics::new();
    m.add_tx_time(10);
    m.add_sleep_time(990);
    assert_eq!(m.get_active_time(), 10);
    assert_eq!(m.get_duty_cycle_permille(), 10);

    let mut pm = PowerManager::new(PowerConfig::default());
    pm.record_tx(10);
    pm.record_sleep(990);
    // Exactly at the limit: not exceeded.
    assert!(!pm.is_duty_cycle_exceeded());
    pm.record_tx(10);
    assert!(pm.is_duty_cycle_exceeded());
}

#[test]
fn test_duty_cycle_empty() {
    let m = PowerMetrics::new();
    assert_eq!(m.get_duty_cycle_permille(), 0);
}

#[test]
fn test_normative_slot_spacing() {
    let mut config = PingSlotConfig::default();
    config.set_periodicity(3);  // 16 slots, period 256

    let mut scheduler = PingSlotScheduler::new();
    scheduler.update_schedule(&config, 90);
    assert_eq!(scheduler.slots.len(), 16);
    for (k, &slot) in scheduler.slots.iter().enumerate() {
        // Reserved period, first-slot offset, then one ping period of
        // 30-ms slots per step.
        assert_eq!(slot, 2_120 + 90 + k as u32 * 256 * 30);
    }
}
