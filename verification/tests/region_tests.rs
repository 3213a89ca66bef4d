use lorawan::region::DataRate;
use lorawan::region::US915;

#[test]
fn test_us915_channel_table() {
    let region = US915::new();
    assert_eq!(region.channels_len(), 72);
    assert_eq!(region.get_max_channels(), 72);
    // 125-kHz channels rise in 200-kHz steps from 902.3 MHz.
    assert_eq!(region.channels[0].frequency, 902_300_000);
    assert_eq!(region.channels[1].frequency, 902_500_000);
    assert_eq!(region.channels[63].frequency, 914_900_000);
    // 500-kHz channels rise in 1.6-MHz steps from 903.0 MHz.
    assert_eq!(region.channels[64].frequency, 903_000_000);
    assert_eq!(region.channels[65].frequency, 904_600_000);
    assert_eq!(region.channels[71].frequency, 914_200_000);
    assert_eq!(region.channels[64].max_dr, DataRate::SF8BW500);
}

#[test]
fn test_default_rx1_window() {
    let region = US915::new();
    // Uplink on channel index 0 (902.3 MHz) at the default rate.
    let ch0 = region.channels[0];
    assert_eq!(ch0.frequency, 902_300_000);
    let (f0, dr0) = region.rx1_window(&ch0);
    assert_eq!(f0, 923_300_000);
    assert_eq!(dr0, 10);
    // Uplink on channel index 5 (903.3 MHz).
    let ch5 = region.channels[5];
    assert_eq!(ch5.frequency, 903_300_000);
    let (f5, dr5) = region.rx1_window(&ch5);
    assert_eq!(f5, 926_300_000);
    assert_eq!(dr5, 10);
    // A 500-kHz channel also answers on its index modulo 8.
    let ch65 = region.channels[65];
    let (f65, _) = region.rx1_window(&ch65);
    assert_eq!(f65, 923_300_000 + 600_000);
}

#[test]
fn test_rx1_offset_table() {
    let mut region = US915::new();
    region.set_rx1_dr_offset(2);
    let ch0 = region.channels[0];
    // DR0 uplink with offset 2 answers at DR8.
    let (_, dr) = region.rx1_window(&ch0);
    assert_eq!(dr, 8);
    region.set_data_rate(4);
    region.set_rx1_dr_offset(0);
    // DR4 uplink with offset 0 answers at the downlink cap DR13.
    let (_, dr4) = region.rx1_window(&ch0);
    assert_eq!(dr4, 13);
}

#[test]
fn test_sub_band_two_selection() {
    let mut region = US915::new();
    // Zero-based index 1 selects sub-band 2.
    region.set_sub_band(1);
    let enabled = region.get_enabled_channels();
    assert_eq!(enabled.len(), 9);
    // The eight 125-kHz channels 8..=15.
    for (k, c) in enabled.iter().take(8).enumerate() {
        let idx = 8 + k as u32;
        assert_eq!(c.frequency, 902_300_000 + 200_000 * idx);
    }
    // Plus the 500-kHz channel at table index 65.
    assert_eq!(enabled[8].frequency, 904_600_000);
    assert_eq!(enabled[8].max_dr, DataRate::SF8BW500);

    // The round-robin selector visits all nine before repeating.
    let mut seen: Vec<u32> = Vec::new();
    for _ in 0..9 {
        let c = region.get_next_channel().unwrap();
        assert!(!seen.contains(&c.frequency));
        seen.push(c.frequency);
    }
    assert_eq!(seen.len(), 9);
}

#[test]
fn test_ttn_configuration() {
    let mut region = US915::new();
    region.configure_ttn_us915();
    let enabled = region.get_enabled_channels();
    assert_eq!(enabled.len(), 9);
    assert_eq!(enabled[0].frequency, 903_900_000);
}

#[test]
fn test_no_enabled_channels() {
    let mut region = US915::new();
    // Masking every bank off leaves no usable channel.
    for cntl in 0..5u8 {
        region.apply_channel_mask(0, cntl);
    }
    assert_eq!(region.get_enabled_channels().len(), 0);
    assert!(region.get_next_channel().is_none());
}

#[test]
fn test_channel_mask_bank() {
    let mut region = US915::new();
    for cntl in 0..5u8 {
        region.apply_channel_mask(0, cntl);
    }
    // Re-enable two channels of the first bank.
    region.apply_channel_mask(0b101, 0);
    let enabled = region.get_enabled_channels();
    assert_eq!(enabled.len(), 2);
    assert_eq!(enabled[0].frequency, 902_300_000);
    assert_eq!(enabled[1].frequency, 902_700_000);
}

#[test]
fn test_validators() {
    let region = US915::new();
    assert!(region.is_valid_frequency(902_000_000));
    assert!(region.is_valid_frequency(928_000_000));
    assert!(!region.is_valid_frequency(901_999_999));
    assert!(!region.is_valid_frequency(928_000_001));
    assert!(region.is_valid_data_rate(4));
    assert!(!region.is_valid_data_rate(5));
    assert!(region.is_valid_tx_power(14));
    assert!(!region.is_valid_tx_power(15));
    assert!(region.is_valid_rx1_dr_offset(3));
    assert!(!region.is_valid_rx1_dr_offset(4));
    assert!(region.is_valid_rx2_data_rate(8));
    assert!(region.is_valid_rx2_data_rate(13));
    assert!(!region.is_valid_rx2_data_rate(7));
}

#[test]
fn test_max_payload_sizes() {
    let region = US915::new();
    assert_eq!(region.max_payload_size(0), 19);
    assert_eq!(region.max_payload_size(1), 61);
    assert_eq!(region.max_payload_size(2), 133);
    assert_eq!(region.max_payload_size(3), 250);
    assert_eq!(region.max_payload_size(4), 250);
    assert_eq!(region.max_payload_size(5), 0);
}

#[test]
fn test_beacon_channels() {
    let region = US915::new();
    let channels = region.get_beacon_channels();
    assert_eq!(channels.len(), 8);
    for (k, c) in channels.iter().enumerate() {
        assert_eq!(c.frequency, 923_300_000 + 600_000 * k as u32);
    }
}

#[test]
fn test_receive_delays() {
    let mut region = US915::new();
    assert_eq!(region.receive_delay1(), 1000);
    assert_eq!(region.receive_delay2(), 2000);
    assert_eq!(region.join_accept_delay1(), 5000);
    assert_eq!(region.join_accept_delay2(), 6000);
    region.set_rx1_delay(5);
    assert_eq!(region.receive_delay1(), 5000);
    assert_eq!(region.receive_delay2(), 6000);
    region.set_rx1_delay(0);
    assert_eq!(region.receive_delay1(), 1000);
}

#[test]
fn test_data_rates() {
    assert_eq!(DataRate::from_index(0), DataRate::SF12BW125);
    assert_eq!(DataRate::from_index(6), DataRate::SF8BW500);
    assert_eq!(DataRate::from_index(9), DataRate::SF12BW125);
    assert_eq!(DataRate::SF12BW125.spreading_factor(), 12);
    assert_eq!(DataRate::SF7BW125.spreading_factor(), 7);
    assert_eq!(DataRate::SF8BW500.bandwidth(), 500_000);
    assert_eq!(DataRate::SF9BW125.bandwidth(), 125_000);
}

#[test]
fn test_get_channel_bounds() {
    let region = US915::new();
    assert!(region.get_channel(71).is_some());
    assert!(region.get_channel(72).is_none());
    assert_eq!(region.get_channel(0).unwrap().frequency, 902_300_000);
}

#[test]
fn test_beacon_channel_rotation() {
    let mut region = US915::new();
    let mut seen: Vec<u32> = Vec::new();
    for _ in 0..8 {
        let c = region.get_next_beacon_channel().unwrap();
        assert!(!seen.contains(&c.frequency));
        seen.push(c.frequency);
    }
    assert_eq!(seen.len(), 8);
    for f in &seen {
        assert!((923_300_000..=927_500_000).contains(f));
        assert_eq!((f - 923_300_000) % 600_000, 0);
    }
}
