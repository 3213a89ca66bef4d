use lorawan::commands::MacCommand;
use lorawan::config::AESKey;
use lorawan::config::DevAddr;
use lorawan::crypto;
use lorawan::crypto::Direction;
use lorawan::mac::parse_frame;
use lorawan::mac::reconstruct_fcnt;
use lorawan::mac::verify_mic;
use lorawan::mac::MacError;

/// The AES-128 single-block reference vector, exercised through the
/// ECB-style join-accept path: a wrapper that handed its input back
/// unchanged would fail this.
#[test]
fn test_aes_reference_vector() {
    let key = AESKey::new([
        0x00, 0x01, 0x02, 0x03, 0x04, 0x05, 0x06, 0x07, 0x08, 0x09, 0x0A, 0x0B, 0x0C, 0x0D,
        0x0E, 0x0F,
    ]);
    let plaintext = [
        0x00, 0x11, 0x22, 0x33, 0x44, 0x55, 0x66, 0x77, 0x88, 0x99, 0xAA, 0xBB, 0xCC, 0xDD,
        0xEE, 0xFF,
    ];
    let expected = [
        0x69, 0xC4, 0xE0, 0xD8, 0x6A, 0x7B, 0x04, 0x30, 0xD8, 0xCD, 0xB7, 0x80, 0x70, 0xB4,
        0xC5, 0x5A,
    ];
    let out = crypto::encrypt_join_accept(&key, &plaintext);
    assert_eq!(&out[..], &expected[..]);
}

#[test]
fn test_encrypt_empty_payload() {
    let key = AESKey::new([0x01; 16]);
    let addr = DevAddr::new([0x01, 0x02, 0x03, 0x04]);
    let out = crypto::encrypt_payload(&key, addr, 0, Direction::Up, &[]);
    assert_eq!(out.len(), 0);
}

#[test]
fn test_encrypt_differs_per_counter() {
    let key = AESKey::new([0x01; 16]);
    let addr = DevAddr::new([0x01, 0x02, 0x03, 0x04]);
    let a = crypto::encrypt_payload(&key, addr, 0, Direction::Up, &[0x42; 20]);
    let b = crypto::encrypt_payload(&key, addr, 1, Direction::Up, &[0x42; 20]);
    assert_ne!(&a[..], &b[..]);
}

#[test]
fn test_mic_depends_on_every_byte() {
    let key = AESKey::new([0x01; 16]);
    let addr = DevAddr::new([0x01, 0x02, 0x03, 0x04]);
    let mut data = [0x03; 40];
    let mic = crypto::compute_mic(&key, &data, addr, 7, Direction::Down);
    data[39] ^= 0x01;
    let mic2 = crypto::compute_mic(&key, &data, addr, 7, Direction::Down);
    assert_ne!(mic, mic2);
}

#[test]
fn test_join_request_mic_lengths() {
    let key = AESKey::new([0x2B; 16]);
    // A message below one block and one that spills over.
    let short = [0x01; 10];
    let long = [0x01; 23];
    assert_eq!(crypto::compute_join_request_mic(&key, &short).len(), 4);
    assert_eq!(crypto::compute_join_request_mic(&key, &long).len(), 4);
    assert_ne!(
        crypto::compute_join_request_mic(&key, &short),
        crypto::compute_join_request_mic(&key, &long)
    );
}

/// The AES-CMAC reference vectors: the MIC is the first four bytes of the
/// subkeyed CMAC tag, for the empty, one-block, partial and multi-block
/// messages.
#[test]
fn test_cmac_reference_vectors() {
    let key = AESKey::new([
        0x2B, 0x7E, 0x15, 0x16, 0x28, 0xAE, 0xD2, 0xA6, 0xAB, 0xF7, 0x15, 0x88, 0x09, 0xCF,
        0x4F, 0x3C,
    ]);
    let msg: [u8; 64] = [
        0x6B, 0xC1, 0xBE, 0xE2, 0x2E, 0x40, 0x9F, 0x96, 0xE9, 0x3D, 0x7E, 0x11, 0x73, 0x93,
        0x17, 0x2A, 0xAE, 0x2D, 0x8A, 0x57, 0x1E, 0x03, 0xAC, 0x9C, 0x9E, 0xB7, 0x6F, 0xAC,
        0x45, 0xAF, 0x8E, 0x51, 0x30, 0xC8, 0x1C, 0x46, 0xA3, 0x5C, 0xE4, 0x11, 0xE5, 0xFB,
        0xC1, 0x19, 0x1A, 0x0A, 0x52, 0xEF, 0xF6, 0x9F, 0x24, 0x45, 0xDF, 0x4F, 0x9B, 0x17,
        0xAD, 0x2B, 0x41, 0x7B, 0xE6, 0x6C, 0x37, 0x10,
    ];
    // Empty message.
    assert_eq!(
        crypto::compute_join_request_mic(&key, &[]),
        [0xBB, 0x1D, 0x69, 0x29]
    );
    // One complete block.
    assert_eq!(
        crypto::compute_join_request_mic(&key, &msg[..16]),
        [0x07, 0x0A, 0x16, 0xB4]
    );
    // A partial final block (40 bytes).
    assert_eq!(
        crypto::compute_join_request_mic(&key, &msg[..40]),
        [0xDF, 0xA6, 0x67, 0x47]
    );
    // Four complete blocks.
    assert_eq!(
        crypto::compute_join_request_mic(&key, &msg),
        [0x51, 0xF0, 0xBE, 0xBF]
    );
}

#[test]
fn test_parse_frame_layout() {
    // MHDR ‖ DevAddr ‖ FCtrl(foptslen 2) ‖ FCnt ‖ FOpts ‖ FPort ‖ FRM ‖ MIC
    let frame = [
        0x60, 0x04, 0x03, 0x02, 0x01, 0x02, 0x2A, 0x00, 0x02, 0x84, 0x01, 0xAB, 0xCD, 0x11,
        0x22, 0x33, 0x44,
    ];
    let p = parse_frame(&frame).unwrap();
    assert_eq!(p.mhdr, 0x60);
    assert_eq!(p.dev_addr.as_bytes(), &[0x04, 0x03, 0x02, 0x01]);
    assert_eq!(p.f_cnt, 0x002A);
    assert_eq!(&p.f_opts[..], &[0x02, 0x84]);
    assert_eq!(p.f_port, Some(0x01));
    assert_eq!(&p.frm_payload[..], &[0xAB, 0xCD]);
    assert_eq!(p.mic, [0x11, 0x22, 0x33, 0x44]);
}

#[test]
fn test_parse_frame_no_port() {
    // The shortest frame: no FOpts, no port, no payload.
    let frame = [0x60, 0x04, 0x03, 0x02, 0x01, 0x00, 0x01, 0x00, 0x11, 0x22, 0x33, 0x44];
    let p = parse_frame(&frame).unwrap();
    assert_eq!(p.f_port, None);
    assert_eq!(p.frm_payload.len(), 0);
    assert_eq!(p.f_cnt, 1);
}

#[test]
fn test_parse_frame_too_short() {
    let frame = [0x60, 0x04, 0x03];
    assert!(matches!(parse_frame(&frame), Err(MacError::InvalidLength)));
    // The announced FOpts must fit too.
    let bad = [0x60, 0x04, 0x03, 0x02, 0x01, 0x0F, 0x01, 0x00, 0x11, 0x22, 0x33, 0x44];
    assert!(matches!(parse_frame(&bad), Err(MacError::InvalidLength)));
}

#[test]
fn test_verify_mic_detects_tampering() {
    let key = AESKey::new([0x01; 16]);
    let addr = DevAddr::new([0x01, 0x02, 0x03, 0x04]);
    let mut frame: Vec<u8> = vec![0x40, 0x04, 0x03, 0x02, 0x01, 0x00, 0x00, 0x00, 0x01, 0x55];
    let mic = crypto::compute_mic(&key, &frame, addr, 0, Direction::Up);
    frame.extend_from_slice(&mic);
    assert!(verify_mic(&key, &frame, addr, 0, Direction::Up));
    frame[9] ^= 0x01;
    assert!(!verify_mic(&key, &frame, addr, 0, Direction::Up));
}

#[test]
fn test_reconstruct_window() {
    // The next counter value is accepted.
    assert_eq!(reconstruct_fcnt(0, 1), Some(1));
    // A duplicate is refused.
    assert_eq!(reconstruct_fcnt(5, 5), None);
    // A roll-back is refused.
    assert_eq!(reconstruct_fcnt(5, 3), None);
    // The low 16 bits roll over into the next segment.
    assert_eq!(reconstruct_fcnt(0x1FFFF, 0x0001), Some(0x20001));
    // A jump beyond half the window is refused.
    assert_eq!(reconstruct_fcnt(10, 0x9000), None);
    // The largest accepted jump is exactly 2^15.
    assert_eq!(reconstruct_fcnt(0, 0x8000), Some(0x8000));
    assert_eq!(reconstruct_fcnt(0, 0x8001), None);
}

#[test]
fn test_mac_command_parse_fields() {
    let cmd = MacCommand::from_bytes(0x03, &[0x21, 0xFF, 0x00, 0x45]).unwrap();
    assert_eq!(
        cmd,
        MacCommand::LinkADRReq {
            data_rate: 2,
            tx_power: 1,
            ch_mask: 0x00FF,
            ch_mask_cntl: 4,
            nb_trans: 5,
        }
    );
    assert_eq!(cmd.len(), 4);

    let ans = MacCommand::from_bytes(0x86, &[0xFE, 0x1F]).unwrap();
    assert_eq!(ans, MacCommand::DevStatusAns { battery: 254, margin: 31 });

    // An unknown identifier parses to nothing.
    assert!(MacCommand::from_bytes(0x42, &[0x00]).is_none());
    // A truncated payload parses to nothing.
    assert!(MacCommand::from_bytes(0x03, &[0x21, 0xFF]).is_none());
}

#[test]
fn test_mac_command_serialize() {
    let cmd = MacCommand::LinkADRReq {
        data_rate: 2,
        tx_power: 1,
        ch_mask: 0x00FF,
        ch_mask_cntl: 4,
        nb_trans: 5,
    };
    assert_eq!(&cmd.to_bytes()[..], &[0x03, 0x21, 0xFF, 0x00, 0x45]);
    let ans = MacCommand::DevStatusAns { battery: 255, margin: 0 };
    assert_eq!(&ans.to_bytes()[..], &[0x86, 0xFF, 0x00]);
    let req = MacCommand::DevStatusReq;
    assert_eq!(&req.to_bytes()[..], &[0x06]);
}

#[test]
fn test_mac_command_validation() {
    let bad = MacCommand::LinkADRReq {
        data_rate: 16,
        tx_power: 0,
        ch_mask: 0,
        ch_mask_cntl: 0,
        nb_trans: 1,
    };
    assert_eq!(bad.process(), Err(MacError::InvalidValue));
    let unknown = MacCommand::TxParamSetupReq {
        downlink_dwell_time: false,
        uplink_dwell_time: false,
        max_eirp: 5,
    };
    assert_eq!(unknown.process(), Err(MacError::UnknownCommand));
    let req = MacCommand::DevStatusReq;
    match req.process().unwrap() {
        Some(MacCommand::DevStatusAns { battery, margin }) => {
            assert_eq!(battery, 255);
            assert!((-32..=31).contains(&margin));
        }
        other => panic!("unexpected answer: {:?}", other),
    }
}

#[test]
fn test_session_key_derivation_prefixes() {
    let app_key = AESKey::new([0x2B; 16]);
    let (nwk, app) = crypto::derive_session_keys(&app_key, &[1, 2, 3], &[4, 5, 6], 0x0102);
    // The network key equals the block encryption of the tagged nonce
    // block, which the ECB path can reproduce.
    let mut block = [0u8; 16];
    block[0] = 0x01;
    block[1..4].copy_from_slice(&[1, 2, 3]);
    block[4..7].copy_from_slice(&[4, 5, 6]);
    block[7] = 0x02;
    block[8] = 0x01;
    let expected = crypto::encrypt_join_accept(&app_key, &block);
    assert_eq!(nwk.as_bytes(), &expected[..]);
    block[0] = 0x02;
    let expected_app = crypto::encrypt_join_accept(&app_key, &block);
    assert_eq!(app.as_bytes(), &expected_app[..]);
}
