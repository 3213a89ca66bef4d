use std::cell::RefCell;
use std::rc::Rc;

use aes::cipher::BlockDecrypt;
use aes::cipher::KeyInit;
use lorawan::beacon::compute_crc16;
use lorawan::beacon::BeaconState;
use lorawan::beacon::BeaconTracker;
use lorawan::class_b::ClassB;
use lorawan::commands::MacCommand;
use lorawan::mac::MacError;
use lorawan::class_c::ClassC;
use lorawan::class_c::RxWindowState;
use lorawan::classes::OperatingMode;
use lorawan::config::AESKey;
use lorawan::config::DevAddr;
use lorawan::config::DeviceConfig;
use lorawan::config::SessionState;
use lorawan::crypto;
use lorawan::crypto::Direction;
use lorawan::device::LoRaWANDevice;
use lorawan::mac::MacLayer;
use lorawan::radio::Radio;
use lorawan::radio::RadioError;
use lorawan::radio::RxConfig;
use lorawan::radio::TxConfig;
use lorawan::region::US915;

/// Shared state of the mock radio, observable from the test.
#[derive(Default)]
pub struct MockState {
    pub frequency: u32,
    pub power: i8,
    pub last_tx: Option<Vec<u8>>,
    pub rx_data: Option<Vec<u8>>,
    pub rx_configs: Vec<(u32, u32)>,
    pub error_mode: bool,
    pub time_counter: u32,
    pub low_power: Option<bool>,
}

/// A scripted in-memory radio for the tests.
#[derive(Clone)]
pub struct MockRadio {
    pub state: Rc<RefCell<MockState>>,
}

impl MockRadio {
    pub fn new() -> Self {
        Self { state: Rc::new(RefCell::new(MockState::default())) }
    }

    pub fn handle(&self) -> Rc<RefCell<MockState>> {
        self.state.clone()
    }

    pub fn set_rx_data(&self, data: &[u8]) {
        self.state.borrow_mut().rx_data = Some(data.to_vec());
    }

    pub fn set_error_mode(&self, enabled: bool) {
        self.state.borrow_mut().error_mode = enabled;
    }

    fn fail(&self) -> bool {
        self.state.borrow().error_mode
    }
}

impl Radio for MockRadio {
    fn init(&mut self) -> Result<(), RadioError> {
        if self.fail() { Err(RadioError::Transport) } else { Ok(()) }
    }

    fn set_frequency(&mut self, freq: u32) -> Result<(), RadioError> {
        if self.fail() {
            return Err(RadioError::Transport);
        }
        self.state.borrow_mut().frequency = freq;
        Ok(())
    }

    fn set_tx_power(&mut self, power: i8) -> Result<(), RadioError> {
        if self.fail() {
            return Err(RadioError::Transport);
        }
        self.state.borrow_mut().power = power;
        Ok(())
    }

    fn transmit(&mut self, data: &[u8]) -> Result<(), RadioError> {
        if self.fail() {
            return Err(RadioError::Transport);
        }
        self.state.borrow_mut().last_tx = Some(data.to_vec());
        Ok(())
    }

    fn receive(&mut self) -> Result<Vec<u8>, RadioError> {
        if self.fail() {
            return Err(RadioError::Transport);
        }
        match self.state.borrow_mut().rx_data.take() {
            Some(d) => Ok(d),
            None => Ok(Vec::new()),
        }
    }

    fn configure_tx(&mut self, config: TxConfig) -> Result<(), RadioError> {
        if self.fail() {
            return Err(RadioError::Transport);
        }
        let mut s = self.state.borrow_mut();
        s.frequency = config.frequency;
        s.power = config.power;
        Ok(())
    }

    fn configure_rx(&mut self, config: RxConfig) -> Result<(), RadioError> {
        if self.fail() {
            return Err(RadioError::Transport);
        }
        let mut s = self.state.borrow_mut();
        s.frequency = config.frequency;
        s.rx_configs.push((config.frequency, config.timeout_ms));
        Ok(())
    }

    fn get_rssi(&mut self) -> Result<i16, RadioError> {
        if self.fail() { Err(RadioError::Transport) } else { Ok(-50) }
    }

    fn get_snr(&mut self) -> Result<i8, RadioError> {
        if self.fail() { Err(RadioError::Transport) } else { Ok(10) }
    }

    fn is_transmitting(&mut self) -> Result<bool, RadioError> {
        if self.fail() { Err(RadioError::Transport) } else { Ok(false) }
    }

    fn set_rx_gain(&mut self, _gain: u8) -> Result<(), RadioError> {
        if self.fail() { Err(RadioError::Transport) } else { Ok(()) }
    }

    fn set_low_power_mode(&mut self, enabled: bool) -> Result<(), RadioError> {
        if self.fail() {
            return Err(RadioError::Transport);
        }
        self.state.borrow_mut().low_power = Some(enabled);
        Ok(())
    }

    fn sleep(&mut self) -> Result<(), RadioError> {
        if self.fail() { Err(RadioError::Transport) } else { Ok(()) }
    }

    fn reset(&mut self) -> Result<(), RadioError> {
        if self.fail() { Err(RadioError::Transport) } else { Ok(()) }
    }

    fn get_time(&mut self) -> u32 {
        self.state.borrow().time_counter
    }
}

fn abp_session() -> SessionState {
    SessionState::new_abp(
        DevAddr::new([0x01, 0x02, 0x03, 0x04]),
        AESKey::new([0x01; 16]),
        AESKey::new([0x01; 16]),
    )
}

#[test]
fn test_class_c_continuous_reception() {
    let radio = MockRadio::new();
    let region = US915::new();
    let session = SessionState::new();
    let mac = MacLayer::new(radio, region, session);
    let mut device = ClassC::new(mac, 923_300_000, 8);

    assert!(device.receive().is_ok());
    assert_eq!(device.operating_mode(), OperatingMode::ClassC);
}

#[test]
fn test_class_c_power_management() {
    let radio = MockRadio::new();
    let region = US915::new();
    let session = SessionState::new();
    let mac = MacLayer::new(radio, region, session);
    let mut device = ClassC::new(mac, 923_300_000, 8);

    device.update_power_state(20);  // low battery
    assert!(device.receive().is_ok());
}

#[test]
fn test_class_b_beacon_sync() {
    let radio = MockRadio::new();
    let region = US915::new();
    let session = SessionState::new();
    let mac = MacLayer::new(radio, region, session);
    let mut device = ClassB::new(mac);

    device.start().unwrap();
    assert!(device.process().is_ok());
}

#[test]
fn test_class_b_ping_slots() {
    let radio = MockRadio::new();
    let region = US915::new();
    let session = SessionState::new();
    let mac = MacLayer::new(radio, region, session);
    let mut device = ClassB::new(mac);

    assert!(device.receive().is_ok());
}

#[test]
fn test_error_recovery() {
    let radio = MockRadio::new();
    let handle = radio.handle();
    let region = US915::new();
    let session = SessionState::new();
    let mac = MacLayer::new(radio, region, session);
    let mut device = ClassC::new(mac, 923_300_000, 8);

    // A radio fault during processing is surfaced once recovery cannot
    // reset the radio either.
    handle.borrow_mut().error_mode = true;
    assert!(device.process().is_err());
    // With the radio healthy again the device recovers and keeps working.
    handle.borrow_mut().error_mode = false;
    assert!(device.process().is_ok());
    assert!(device.receive().is_ok());
}

#[test]
fn test_window_switching() {
    let radio = MockRadio::new();
    let region = US915::new();
    let session = abp_session();
    let mac = MacLayer::new(radio, region, session);
    let mut device = ClassC::new(mac, 923_300_000, 8);

    let data = [1, 2, 3, 4];
    assert!(device.send_data(1, &data, false).is_ok());
    assert!(device.receive().is_ok());
}

#[test]
fn test_class_c_rx2_resume() {
    let radio = MockRadio::new();
    let handle = radio.handle();
    let region = US915::new();
    let session = abp_session();
    let mac = MacLayer::new(radio, region, session);
    let mut device = ClassC::new(mac, 923_300_000, 8);

    assert_eq!(device.rx_window_state(), RxWindowState::Rx2Active);
    assert!(device.send_data(1, &[0xAA], false).is_ok());
    // Back in RX2 before send_data returned.
    assert_eq!(device.rx_window_state(), RxWindowState::Rx2Active);
    // The radio ends configured on the authoritative RX2 parameters,
    // right after the transient RX1 window.
    let s = handle.borrow();
    assert_eq!(s.frequency, 923_300_000);
    let n = s.rx_configs.len();
    assert!(n >= 2);
    assert_eq!(s.rx_configs[n - 1], (923_300_000, 0));
    // The RX1 window used the downlink channel of the uplink index.
    let (rx1_freq, rx1_timeout) = s.rx_configs[n - 2];
    assert_eq!(rx1_timeout, 1000);
    assert_eq!((rx1_freq - 923_300_000) % 600_000, 0);
}

#[test]
fn test_class_c_rx2_follows_rxparamsetup() {
    let radio = MockRadio::new();
    let handle = radio.handle();
    let region = US915::new();
    let session = abp_session();
    let mac = MacLayer::new(radio, region, session);
    let mut device = ClassC::new(mac, 923_300_000, 8);

    // The network changes the RX2 parameters; the next resume uses them.
    device.configure_rx2(924_500_000, 10).unwrap();
    assert!(device.send_data(1, &[0x01], false).is_ok());
    let s = handle.borrow();
    let n = s.rx_configs.len();
    assert_eq!(s.rx_configs[n - 1], (924_500_000, 0));
}

#[test]
fn test_abp_uplink_frame() {
    let radio = MockRadio::new();
    let handle = radio.handle();
    // The address 0x01020304, held in its on-air little-endian order.
    let addr = DevAddr::new([0x04, 0x03, 0x02, 0x01]);
    let config = DeviceConfig::new_abp(
        [0x0A; 8],
        [0x0B; 8],
        addr,
        AESKey::new([0x01; 16]),
        AESKey::new([0x01; 16]),
    );
    let mut device =
        LoRaWANDevice::new(radio, config, US915::new(), OperatingMode::ClassA).unwrap();

    let payload = [0x68, 0x69];  // "hi"
    device.send_data(1, &payload, false).unwrap();

    let s = handle.borrow();
    let frame = s.last_tx.as_ref().unwrap();
    // MHDR: unconfirmed data up.
    assert_eq!(frame[0], 0x40);
    // FHDR: DevAddr on the air, FCtrl 0, FCnt 0.
    assert_eq!(&frame[1..8], &[0x04, 0x03, 0x02, 0x01, 0x00, 0x00, 0x00]);
    // FPort 1.
    assert_eq!(frame[8], 0x01);
    // FRMPayload: the payload under the application session key at
    // counter 0, uplink direction.
    let key = AESKey::new([0x01; 16]);
    let expected = crypto::encrypt_payload(&key, addr, 0, Direction::Up, &payload);
    assert_eq!(&frame[9..11], &expected[..]);
    assert_eq!(frame.len(), 15);
    // MIC: first four bytes of the CMAC over everything before it.
    let mic = crypto::compute_mic(&key, &frame[..11], addr, 0, Direction::Up);
    assert_eq!(&frame[11..15], &mic[..]);
    drop(s);

    // After the send the uplink counter moved to one.
    assert_eq!(device.get_session_state().fcnt_up, 1);
}

#[test]
fn test_uplink_counter_strictly_increases() {
    let radio = MockRadio::new();
    let config = DeviceConfig::new_abp(
        [0x0A; 8],
        [0x0B; 8],
        DevAddr::new([0x01, 0x02, 0x03, 0x04]),
        AESKey::new([0x01; 16]),
        AESKey::new([0x02; 16]),
    );
    let mut device =
        LoRaWANDevice::new(radio, config, US915::new(), OperatingMode::ClassC).unwrap();
    for expected in 1..=5u32 {
        device.send_data(1, &[0x00], false).unwrap();
        assert_eq!(device.get_session_state().fcnt_up, expected);
    }
}

#[test]
fn test_mac_command_round_trip() {
    let radio = MockRadio::new();
    let handle = radio.handle();
    let addr = DevAddr::new([0x01, 0x02, 0x03, 0x04]);
    let nwk = AESKey::new([0x01; 16]);
    let config = DeviceConfig::new_abp([0x0A; 8], [0x0B; 8], addr, nwk, AESKey::new([0x01; 16]));
    let mut device =
        LoRaWANDevice::new(radio.clone(), config, US915::new(), OperatingMode::ClassC).unwrap();

    // Build a downlink with FPort 0 whose FRMPayload decrypts to a
    // DevStatusReq, counter 1, addressed to this device.
    let enc = crypto::encrypt_payload(&nwk, addr, 1, Direction::Down, &[0x06]);
    let mut frame: Vec<u8> = vec![0x60, 0x01, 0x02, 0x03, 0x04, 0x00, 0x01, 0x00, 0x00];
    frame.extend_from_slice(&enc);
    let mic = crypto::compute_mic(&nwk, &frame, addr, 1, Direction::Down);
    frame.extend_from_slice(&mic);
    radio.set_rx_data(&frame);

    device.process().unwrap();
    assert_eq!(device.get_session_state().fcnt_down, 1);

    // The answer rides in the FOpts of the next uplink.
    device.send_data(1, &[0x55], false).unwrap();
    let s = handle.borrow();
    let up = s.last_tx.as_ref().unwrap();
    let foptslen = (up[5] & 0x0F) as usize;
    assert_eq!(foptslen, 3);
    // Battery unknown (255) and the last SNR reading of 10 dB.
    assert_eq!(&up[8..11], &[0x86, 0xFF, 0x0A]);
}

#[test]
fn test_downlink_replay_is_dropped() {
    let radio = MockRadio::new();
    let addr = DevAddr::new([0x01, 0x02, 0x03, 0x04]);
    let nwk = AESKey::new([0x01; 16]);
    let config = DeviceConfig::new_abp([0x0A; 8], [0x0B; 8], addr, nwk, AESKey::new([0x01; 16]));
    let mut device =
        LoRaWANDevice::new(radio.clone(), config, US915::new(), OperatingMode::ClassC).unwrap();

    let enc = crypto::encrypt_payload(&nwk, addr, 1, Direction::Down, &[0x06]);
    let mut frame: Vec<u8> = vec![0x60, 0x01, 0x02, 0x03, 0x04, 0x00, 0x01, 0x00, 0x00];
    frame.extend_from_slice(&enc);
    let mic = crypto::compute_mic(&nwk, &frame, addr, 1, Direction::Down);
    frame.extend_from_slice(&mic);

    radio.set_rx_data(&frame);
    device.process().unwrap();
    assert_eq!(device.get_session_state().fcnt_down, 1);

    // The identical frame again: the counter would not increase, so the
    // frame is silently dropped and the counter stays.
    radio.set_rx_data(&frame);
    device.process().unwrap();
    assert_eq!(device.get_session_state().fcnt_down, 1);
}

#[test]
fn test_downlink_commands() {
    let mut custom_data: Vec<u8> = Vec::new();
    custom_data.extend_from_slice(&[0x01, 0x02, 0x03]);

    let cmd = lorawan::commands::MacCommand::DevStatusReq;

    match cmd {
        lorawan::commands::MacCommand::DevStatusReq => {
            // Test passed
        }
        _ => panic!("Wrong command type"),
    }
}

#[test]
fn test_class_switching_keeps_session() {
    let radio = MockRadio::new();
    let config = DeviceConfig::new_abp(
        [0x0A; 8],
        [0x0B; 8],
        DevAddr::new([0x01, 0x02, 0x03, 0x04]),
        AESKey::new([0x01; 16]),
        AESKey::new([0x02; 16]),
    );
    let mut device =
        LoRaWANDevice::new(radio, config, US915::new(), OperatingMode::ClassA).unwrap();
    device.send_data(1, &[0x01], false).unwrap();
    assert_eq!(device.operating_mode(), OperatingMode::ClassA);
    let device = device.set_operating_mode(OperatingMode::ClassC);
    assert_eq!(device.operating_mode(), OperatingMode::ClassC);
    assert_eq!(device.get_session_state().fcnt_up, 1);
}

#[test]
fn test_class_a_windows_block_second_uplink() {
    let radio = MockRadio::new();
    let config = DeviceConfig::new_abp(
        [0x0A; 8],
        [0x0B; 8],
        DevAddr::new([0x01, 0x02, 0x03, 0x04]),
        AESKey::new([0x01; 16]),
        AESKey::new([0x02; 16]),
    );
    let mut device =
        LoRaWANDevice::new(radio.clone(), config, US915::new(), OperatingMode::ClassA).unwrap();
    device.send_data(1, &[0x01], false).unwrap();
    // The receive windows of the first uplink are still pending.
    assert!(device.send_data(1, &[0x02], false).is_err());
    assert_eq!(device.get_session_state().fcnt_up, 1);
    // Once RX2Delay plus the RX2 window passed, transmission is allowed.
    radio.state.borrow_mut().time_counter = 2501;
    for _ in 0..4 {
        device.process().unwrap();  // walks the windows to idle
    }
    assert!(device.send_data(1, &[0x02], false).is_ok());
    assert_eq!(device.get_session_state().fcnt_up, 2);
}

#[test]
fn test_invalid_port_refused() {
    let radio = MockRadio::new();
    let config = DeviceConfig::new_abp(
        [0x0A; 8],
        [0x0B; 8],
        DevAddr::new([0x01, 0x02, 0x03, 0x04]),
        AESKey::new([0x01; 16]),
        AESKey::new([0x02; 16]),
    );
    let mut device =
        LoRaWANDevice::new(radio, config, US915::new(), OperatingMode::ClassC).unwrap();
    assert!(device.send_data(0, &[0x01], false).is_err());
    assert!(device.send_data(224, &[0x01], false).is_err());
    let big = [0u8; 243];
    assert!(device.send_data(1, &big, false).is_err());
    assert_eq!(device.get_session_state().fcnt_up, 0);
}

#[test]
fn test_join_accept_decryption() {
    let app_key_bytes = [
        0x2B, 0x7E, 0x15, 0x16, 0x28, 0xAE, 0xD2, 0xA6, 0xAB, 0xF7, 0x15, 0x88, 0x09, 0xCF,
        0x4F, 0x3C,
    ];
    let app_key = AESKey::new(app_key_bytes);
    // The accept fields: AppNonce, NetID, DevAddr, DLSettings, RxDelay.
    let app_nonce = [0x01, 0x02, 0x03];
    let net_id = [0x04, 0x05, 0x06];
    let fields = [0x01, 0x02, 0x03, 0x04, 0x05, 0x06, 0x07, 0x08, 0x09, 0x0A, 0x00, 0x01];
    let mut mic_input: Vec<u8> = vec![0x20];
    mic_input.extend_from_slice(&fields);
    let mic = crypto::compute_join_request_mic(&app_key, &mic_input);
    let mut plain = [0u8; 16];
    plain[..12].copy_from_slice(&fields);
    plain[12..].copy_from_slice(&mic);
    // The server sends the block the device's ECB encryption undoes.
    let cipher = aes::Aes128::new_from_slice(&app_key_bytes).unwrap();
    let mut block = aes::cipher::generic_array::GenericArray::clone_from_slice(&plain);
    cipher.decrypt_block(&mut block);
    let mut accept: Vec<u8> = vec![0x20];
    accept.extend_from_slice(&block);

    let radio = MockRadio::new();
    let mut mac = MacLayer::new(radio, US915::new(), SessionState::new());
    mac.process_join_accept(&app_key, &accept).unwrap();

    let session = mac.get_session_state();
    assert!(session.is_joined());
    assert_eq!(session.dev_addr.as_bytes(), &[0x07, 0x08, 0x09, 0x0A]);
    assert_eq!(session.fcnt_up, 0);
    assert_eq!(session.fcnt_down, 0);
    let (nwk, app) = crypto::derive_session_keys(&app_key, &app_nonce, &net_id, 0);
    assert_eq!(session.nwk_skey.as_bytes(), nwk.as_bytes());
    assert_eq!(session.app_skey.as_bytes(), app.as_bytes());
}

#[test]
fn test_join_accept_rejects_bad_mic() {
    let app_key = AESKey::new([0x2B; 16]);
    let radio = MockRadio::new();
    let mut mac = MacLayer::new(radio, US915::new(), SessionState::new());
    // A random block fails the integrity check after decryption.
    let mut accept: Vec<u8> = vec![0x20];
    accept.extend_from_slice(&[0x5A; 16]);
    assert!(mac.process_join_accept(&app_key, &accept).is_err());
    assert!(!mac.get_session_state().is_joined());
    // Wrong lengths and a wrong header are refused as such.
    assert!(mac.process_join_accept(&app_key, &[0x20; 10]).is_err());
    let mut wrong_hdr: Vec<u8> = vec![0x40];
    wrong_hdr.extend_from_slice(&[0x00; 16]);
    assert!(mac.process_join_accept(&app_key, &wrong_hdr).is_err());
}

#[test]
fn test_join_request_advances_nonce() {
    let radio = MockRadio::new();
    let handle = radio.handle();
    let mut mac = MacLayer::new(radio, US915::new(), SessionState::new());
    mac.join_request([0x02; 8], [0x03; 8], &AESKey::new([0x01; 16])).unwrap();
    assert_eq!(mac.get_session_state().dev_nonce, 1);
    let s = handle.borrow();
    let frame = s.last_tx.as_ref().unwrap();
    assert_eq!(frame.len(), 23);
    assert_eq!(frame[0], 0x00);
}

#[test]
fn test_beacon_loss_after_three_misses() {
    let radio = MockRadio::new();
    let handle = radio.handle();
    let mut mac = MacLayer::new(radio, US915::new(), SessionState::new());
    let mut tracker = BeaconTracker::new();
    tracker.state = BeaconState::Synchronized;
    tracker.last_beacon_time = 0;
    handle.borrow_mut().time_counter = 128_000;  // inside the guarded window

    // Three consecutive windows without a beacon lose synchronization.
    tracker.process(&mut mac).unwrap();
    assert_eq!(tracker.state, BeaconState::Synchronized);
    tracker.process(&mut mac).unwrap();
    assert_eq!(tracker.state, BeaconState::Synchronized);
    tracker.process(&mut mac).unwrap();
    assert_eq!(tracker.state, BeaconState::Lost);
    assert_eq!(tracker.missed_beacons, 3);
}

#[test]
fn test_beacon_recovery() {
    let radio = MockRadio::new();
    let mut mac = MacLayer::new(radio.clone(), US915::new(), SessionState::new());
    let mut tracker = BeaconTracker::new();
    tracker.state = BeaconState::Lost;
    tracker.missed_beacons = 3;

    // A valid beacon: correct CRC over the time bytes, non-zero info.
    let time: u32 = 0x00012345;
    let tb = time.to_be_bytes();
    let crc = compute_crc16(&tb);
    let mut frame: Vec<u8> = Vec::new();
    frame.extend_from_slice(&tb);
    frame.extend_from_slice(&crc.to_be_bytes());
    frame.push(0x00);  // gwspec
    frame.extend_from_slice(&[0x01, 0x00, 0x00, 0x00, 0x00, 0x00, 0x00]);  // info
    frame.extend_from_slice(&[0x00, 0x00, 0x00]);  // padding to 17 bytes
    radio.set_rx_data(&frame);

    tracker.process(&mut mac).unwrap();
    assert_eq!(tracker.state, BeaconState::Synchronized);
    assert_eq!(tracker.missed_beacons, 0);
    assert_eq!(tracker.last_beacon_time(), time);
    assert!(tracker.is_synchronized());
}

#[test]
fn test_duty_cycle_backoff() {
    let radio = MockRadio::new();
    let mut mac = MacLayer::new(radio, US915::new(), abp_session());
    // The network caps the duty cycle at 1/16.
    mac.process_mac_command(MacCommand::DutyCycleReq { max_duty_cycle: 4 }).unwrap();
    // The first uplink goes out and its time on air is accounted; with
    // no sleep accounted yet, the duty cycle is saturated.
    assert!(mac.send_unconfirmed(1, &[0x01]).is_ok());
    assert_eq!(mac.send_unconfirmed(1, &[0x02]), Err(MacError::Timeout));
    // After enough idle time the device may transmit again.
    mac.power.record_sleep(10_000_000);
    assert!(mac.send_unconfirmed(1, &[0x03]).is_ok());
}

#[test]
fn test_ack_bit_after_confirmed_downlink() {
    let radio = MockRadio::new();
    let handle = radio.handle();
    let addr = DevAddr::new([0x01, 0x02, 0x03, 0x04]);
    let nwk = AESKey::new([0x01; 16]);
    let mut mac = MacLayer::new(radio.clone(), US915::new(), abp_session());

    // A confirmed downlink (MHDR 0xA0) without a port.
    let mut frame: Vec<u8> = vec![0xA0, 0x01, 0x02, 0x03, 0x04, 0x00, 0x01, 0x00];
    let mic = crypto::compute_mic(&nwk, &frame, addr, 1, Direction::Down);
    frame.extend_from_slice(&mic);
    radio.set_rx_data(&frame);
    let buffer = mac.receive().unwrap();
    mac.decrypt_payload(&buffer).unwrap();

    // The next uplink acknowledges it in FCtrl.
    mac.send_unconfirmed(1, &[0x42]).unwrap();
    let s = handle.borrow();
    let up = s.last_tx.as_ref().unwrap();
    assert_eq!(up[5] & 0x20, 0x20);
    drop(s);

    // The acknowledgment is sent only once.
    mac.send_unconfirmed(1, &[0x42]).unwrap();
    let s = handle.borrow();
    let up = s.last_tx.as_ref().unwrap();
    assert_eq!(up[5] & 0x20, 0x00);
}

#[test]
fn test_fopts_commands_are_processed() {
    let radio = MockRadio::new();
    let handle = radio.handle();
    let addr = DevAddr::new([0x01, 0x02, 0x03, 0x04]);
    let nwk = AESKey::new([0x01; 16]);
    let mut mac = MacLayer::new(radio.clone(), US915::new(), abp_session());

    // A downlink carrying a DevStatusReq in plaintext FOpts, no port.
    let mut frame: Vec<u8> = vec![0x60, 0x01, 0x02, 0x03, 0x04, 0x01, 0x01, 0x00, 0x06];
    let mic = crypto::compute_mic(&nwk, &frame, addr, 1, Direction::Down);
    frame.extend_from_slice(&mic);
    radio.set_rx_data(&frame);
    let buffer = mac.receive().unwrap();
    mac.decrypt_payload(&buffer).unwrap();

    mac.send_unconfirmed(1, &[0x42]).unwrap();
    let s = handle.borrow();
    let up = s.last_tx.as_ref().unwrap();
    assert_eq!(up[5] & 0x0F, 3);
    assert_eq!(&up[8..11], &[0x86, 0xFF, 0x00]);
}

#[test]
fn test_flush_mac_commands() {
    let radio = MockRadio::new();
    let handle = radio.handle();
    let mut mac = MacLayer::new(radio, US915::new(), abp_session());
    mac.process_mac_command(MacCommand::DevStatusReq).unwrap();
    mac.flush_mac_commands().unwrap();

    // The answers went out as the payload of an FPort-0 uplink.
    let s = handle.borrow();
    let up = s.last_tx.as_ref().unwrap();
    assert_eq!(up[8], 0x00);
    assert_eq!(up[5] & 0x0F, 0);
    assert_eq!(up.len(), 13 + 3);
    drop(s);
    assert_eq!(mac.get_session_state().fcnt_up, 1);
    // The queue is empty afterwards: the next uplink carries no FOpts.
    mac.send_unconfirmed(1, &[0x01]).unwrap();
    let s = handle.borrow();
    let up = s.last_tx.as_ref().unwrap();
    assert_eq!(up[5] & 0x0F, 0);
}

#[test]
fn test_downlink_error_variants() {
    let radio = MockRadio::new();
    let addr = DevAddr::new([0x01, 0x02, 0x03, 0x04]);
    let nwk = AESKey::new([0x01; 16]);
    let mut mac = MacLayer::new(radio, US915::new(), abp_session());

    // Too short to be a frame.
    assert!(matches!(mac.decrypt_payload(&[0x60, 0x01]), Err(MacError::InvalidLength)));

    // Addressed to another device.
    let mut other: Vec<u8> = vec![0x60, 0x09, 0x09, 0x09, 0x09, 0x00, 0x01, 0x00];
    let mic = crypto::compute_mic(&nwk, &other, DevAddr::new([0x09; 4]), 1, Direction::Down);
    other.extend_from_slice(&mic);
    assert!(matches!(mac.decrypt_payload(&other), Err(MacError::InvalidAddress)));

    // Right address, tampered integrity code.
    let mut ours: Vec<u8> = vec![0x60, 0x01, 0x02, 0x03, 0x04, 0x00, 0x01, 0x00];
    let mic = crypto::compute_mic(&nwk, &ours, addr, 1, Direction::Down);
    ours.extend_from_slice(&mic);
    let mut tampered = ours.clone();
    tampered[8] ^= 0x01;
    assert!(matches!(mac.decrypt_payload(&tampered), Err(MacError::InvalidMic)));

    // The untampered frame is accepted and raises the counter.
    assert!(mac.decrypt_payload(&ours).is_ok());
    assert_eq!(mac.get_session_state().fcnt_down, 1);

    // Replaying it now fails the counter window.
    assert!(matches!(mac.decrypt_payload(&ours), Err(MacError::InvalidFrame)));
}

#[test]
fn test_confirmed_uplink_retry_budget() {
    let radio = MockRadio::new();
    let handle = radio.handle();
    let mut mac = MacLayer::new(radio, US915::new(), abp_session());
    // The network allows three transmissions per confirmed uplink.
    mac.process_mac_command(MacCommand::LinkADRReq {
        data_rate: 0,
        tx_power: 0,
        ch_mask: 0xFFFF,
        ch_mask_cntl: 0,
        nb_trans: 3,
    })
    .unwrap();
    assert_eq!(mac.nb_trans, 3);

    mac.send_confirmed(1, &[0x42]).unwrap();
    assert!(mac.confirm_pending);
    assert_eq!(mac.confirm_retries_left, 2);
    assert_eq!(mac.get_session_state().fcnt_up, 1);
    let first = handle.borrow().last_tx.clone().unwrap();
    assert_eq!(first[0], 0x80);  // confirmed data up

    // Retransmissions repeat the identical frame without moving the
    // counter, until the budget runs out.
    assert_eq!(mac.retransmit_pending().unwrap(), true);
    assert_eq!(handle.borrow().last_tx.clone().unwrap(), first);
    assert_eq!(mac.get_session_state().fcnt_up, 1);
    assert_eq!(mac.retransmit_pending().unwrap(), true);
    assert_eq!(mac.confirm_retries_left, 0);
    assert_eq!(mac.retransmit_pending().unwrap(), false);
    assert!(!mac.confirm_pending);
}

#[test]
fn test_ack_downlink_clears_confirmation() {
    let radio = MockRadio::new();
    let addr = DevAddr::new([0x01, 0x02, 0x03, 0x04]);
    let nwk = AESKey::new([0x01; 16]);
    let mut mac = MacLayer::new(radio.clone(), US915::new(), abp_session());

    mac.send_confirmed(1, &[0x42]).unwrap();
    assert!(mac.confirm_pending);

    // A downlink with the ACK bit in FCtrl acknowledges the uplink.
    let mut frame: Vec<u8> = vec![0x60, 0x01, 0x02, 0x03, 0x04, 0x20, 0x01, 0x00];
    let mic = crypto::compute_mic(&nwk, &frame, addr, 1, Direction::Down);
    frame.extend_from_slice(&mic);
    mac.decrypt_payload(&frame).unwrap();
    assert!(!mac.confirm_pending);
    assert_eq!(mac.retransmit_pending().unwrap(), false);
}

#[test]
fn test_tx_power_reaches_radio() {
    let radio = MockRadio::new();
    let handle = radio.handle();
    let mut mac = MacLayer::new(radio, US915::new(), abp_session());
    mac.send_unconfirmed(1, &[0x01]).unwrap();
    assert_eq!(handle.borrow().power, 30);  // index 0: full EIRP
    mac.process_mac_command(MacCommand::LinkADRReq {
        data_rate: 0,
        tx_power: 4,
        ch_mask: 0xFFFF,
        ch_mask_cntl: 0,
        nb_trans: 0,
    })
    .unwrap();
    mac.send_unconfirmed(1, &[0x02]).unwrap();
    assert_eq!(handle.borrow().power, 22);  // 30 dBm minus 2 dB per index
}

#[test]
fn test_power_saving_duty_cycles_receiver() {
    let radio = MockRadio::new();
    let handle = radio.handle();
    let mac = MacLayer::new(radio, US915::new(), abp_session());
    let mut device = ClassC::new(mac, 923_300_000, 8);
    device.update_power_state(20);  // low battery latches power saving
    device.send_data(1, &[0x01], false).unwrap();
    // RX2 resumed in the duty-cycled low-power receive mode.
    assert_eq!(handle.borrow().low_power, Some(true));
    assert_eq!(device.rx_window_state(), RxWindowState::Rx2Active);
}

#[test]
fn test_critical_battery_blocks_reception() {
    let radio = MockRadio::new();
    let addr = DevAddr::new([0x01, 0x02, 0x03, 0x04]);
    let nwk = AESKey::new([0x01; 16]);
    let mac = MacLayer::new(radio.clone(), US915::new(), abp_session());
    let mut device = ClassC::new(mac, 923_300_000, 8);

    let mut frame: Vec<u8> = vec![0x60, 0x01, 0x02, 0x03, 0x04, 0x00, 0x01, 0x00];
    let mic = crypto::compute_mic(&nwk, &frame, addr, 1, Direction::Down);
    frame.extend_from_slice(&mic);
    radio.set_rx_data(&frame);

    // At a critical level the receiver stays off between uplinks.
    device.update_power_state(5);
    device.process().unwrap();
    assert_eq!(device.get_session_state().fcnt_down, 0);

    // On external power reception resumes.
    device.update_power_state(0);
    device.process().unwrap();
    assert_eq!(device.get_session_state().fcnt_down, 1);
}
