use lorawan::config::AESKey;
use lorawan::config::DevAddr;
use lorawan::config::DeviceConfig;
use lorawan::config::SessionState;
use lorawan::crypto;
use lorawan::crypto::Direction;
use lorawan::mac::build_join_request;
use lorawan::region::DataRate;
use lorawan::region::US915;

#[test]
fn test_device_config() {
    let dev_eui = [0x01; 8];
    let app_eui = [0x02; 8];
    let app_key = AESKey::new([0x03; 16]);

    let config = DeviceConfig::new_otaa(dev_eui, app_eui, app_key);

    assert_eq!(&config.dev_eui, &dev_eui);
    assert_eq!(&config.app_eui, &app_eui);
    assert_eq!(config.app_key.as_bytes(), &[0x03; 16]);
    assert!(config.dev_addr.is_none());
}

#[test]
fn test_session_state() {
    let dev_addr = DevAddr::new([0x01, 0x02, 0x03, 0x04]);
    let nwk_skey = AESKey::new([0x01; 16]);
    let app_skey = AESKey::new([0x02; 16]);

    let session = SessionState::new_abp(dev_addr, nwk_skey, app_skey);

    assert_eq!(session.dev_addr, dev_addr);
    assert_eq!(session.nwk_skey.as_bytes(), &[0x01; 16]);
    assert_eq!(session.app_skey.as_bytes(), &[0x02; 16]);
    assert_eq!(session.fcnt_up, 0);
    assert_eq!(session.fcnt_down, 0);
}

#[test]
fn test_abp_activation() {
    let dev_addr = DevAddr::new([0x01; 4]);
    let nwk_skey = AESKey::new([0x01; 16]);
    let app_skey = AESKey::new([0x02; 16]);

    let session = SessionState::new_abp(dev_addr, nwk_skey, app_skey);
    assert!(session.is_active());
    assert!(session.is_joined());
    assert_eq!(session.fcnt_up, 0);
    assert_eq!(session.fcnt_down, 0);

    // An empty session is neither active nor joined.
    let empty = SessionState::new();
    assert!(!empty.is_active());
    assert!(!empty.is_joined());
}

#[test]
fn test_mic_computation() {
    let key = AESKey::new([0x01; 16]);
    let dev_addr = DevAddr::new([0x02; 4]);
    let data = [0x03; 32];

    let mic = crypto::compute_mic(&key, &data, dev_addr, 0, Direction::Up);
    assert_eq!(mic.len(), 4);

    // Deterministic: the same inputs give the same code.
    let mic2 = crypto::compute_mic(&key, &data, dev_addr, 0, Direction::Up);
    assert_eq!(mic, mic2);

    // The counter and the direction are both authenticated.
    let mic3 = crypto::compute_mic(&key, &data, dev_addr, 1, Direction::Up);
    assert_ne!(mic, mic3);
    let mic4 = crypto::compute_mic(&key, &data, dev_addr, 0, Direction::Down);
    assert_ne!(mic, mic4);
}

#[test]
fn test_payload_encryption() {
    let key = AESKey::new([0x01; 16]);
    let dev_addr = DevAddr::new([0x02; 4]);
    let data = [0x03; 32];

    let encrypted = crypto::encrypt_payload(&key, dev_addr, 0, Direction::Up, &data);
    assert_eq!(encrypted.len(), data.len());
    assert_ne!(&encrypted[..], &data[..]);

    let decrypted = crypto::encrypt_payload(&key, dev_addr, 0, Direction::Up, &encrypted);
    assert_eq!(&decrypted[..], &data[..]);
}

#[test]
fn test_join_request() {
    let app_key = AESKey::new([0x01; 16]);
    let dev_eui = [0x02; 8];
    let app_eui = [0x03; 8];

    let frame = build_join_request(&dev_eui, &app_eui, &app_key, 0x0708);
    assert_eq!(frame.len(), 23);
    assert_eq!(frame[0], 0x00);
    // AppEUI and DevEUI are sent in reversed byte order.
    assert_eq!(&frame[1..9], &[0x03; 8]);
    assert_eq!(&frame[9..17], &[0x02; 8]);
    // DevNonce is little-endian.
    assert_eq!(frame[17], 0x08);
    assert_eq!(frame[18], 0x07);
}

#[test]
fn test_crypto_encrypt_decrypt() {
    let key = AESKey::new([0x01; 16]);
    let dev_addr = DevAddr::new([0x01, 0x02, 0x03, 0x04]);
    let fcnt = 1;
    let payload = b"Hello LoRaWAN";

    let encrypted = crypto::encrypt_payload(&key, dev_addr, fcnt, Direction::Up, payload);
    let decrypted = crypto::encrypt_payload(&key, dev_addr, fcnt, Direction::Up, &encrypted);

    assert_eq!(&decrypted[..], payload);
}

#[test]
fn test_crypto_mic() {
    let key = AESKey::new([0x01; 16]);
    let dev_addr = DevAddr::new([0x01, 0x02, 0x03, 0x04]);
    let fcnt = 1;
    let data = b"Test Data";

    let mic = crypto::compute_mic(&key, data, dev_addr, fcnt, Direction::Up);

    assert_eq!(mic.len(), 4);
}

#[test]
fn test_crypto_join() {
    let app_key = AESKey::new([0x01; 16]);
    let app_nonce = [0x01, 0x02, 0x03];
    let net_id = [0x04, 0x05, 0x06];
    let dev_nonce = 0x0708;

    let (nwk_skey, app_skey) =
        crypto::derive_session_keys(&app_key, &app_nonce, &net_id, dev_nonce);

    assert_eq!(nwk_skey.as_bytes().len(), 16);
    assert_eq!(app_skey.as_bytes().len(), 16);
    // The two keys use different derivation prefixes.
    assert_ne!(nwk_skey.as_bytes(), app_skey.as_bytes());
}

#[test]
fn test_us915_region() {
    let mut region = US915::new();

    // Default configuration: the full plan, slowest uplink rate.
    assert_eq!(region.get_data_rate(), DataRate::SF10BW125);
    assert_eq!(region.get_enabled_channels().len(), 72);

    // Sub-band selection keeps exactly 9 channels.
    region.set_sub_band(2);
    assert_eq!(region.get_enabled_channels().len(), 9);

    region.set_sub_band(2);
    assert_eq!(region.get_enabled_channels().len(), 9);

    // RX1 answers on the downlink channel given by the uplink index
    // modulo 8, with the offset table applied to the uplink rate.
    let channel = region.get_next_channel().unwrap();
    let (rx1_freq, rx1_dr) = region.rx1_window(&channel);
    assert!((923_300_000..=927_500_000).contains(&rx1_freq));
    assert_eq!((rx1_freq - 923_300_000) % 600_000, 0);
    assert_eq!(rx1_dr, 10);

    let (rx2_freq, rx2_dr) = region.rx2_window();
    assert_eq!(rx2_freq, 923_300_000);
    assert_eq!(rx2_dr, 8);
}
