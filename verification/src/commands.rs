//! MAC commands of LoRaWAN 1.0.3: identifiers, parsing, serialization and
//! the per-command validation rules.

use vstd::prelude::*;

use crate::mac::MacError;

verus! {

/// MAC command identifiers.
#[derive(Debug, Clone, Copy, PartialEq, Eq, Structural)]
#[allow(missing_docs)]
pub enum CommandIdentifier {
    LinkCheckReq,
    LinkCheckAns,
    LinkADRReq,
    LinkADRAns,
    DutyCycleReq,
    DutyCycleAns,
    RXParamSetupReq,
    RXParamSetupAns,
    DevStatusReq,
    DevStatusAns,
    NewChannelReq,
    NewChannelAns,
    RXTimingSetupReq,
    RXTimingSetupAns,
    TxParamSetupReq,
    TxParamSetupAns,
    DlChannelReq,
    DlChannelAns,
}

/// The on-air CID byte of an identifier; answers from the network carry the
/// high bit in this encoding.
pub open spec fn cid_byte(c: CommandIdentifier) -> u8 {
    match c {
        CommandIdentifier::LinkCheckReq => 0x02,
        CommandIdentifier::LinkCheckAns => 0x82,
        CommandIdentifier::LinkADRReq => 0x03,
        CommandIdentifier::LinkADRAns => 0x83,
        CommandIdentifier::DutyCycleReq => 0x04,
        CommandIdentifier::DutyCycleAns => 0x84,
        CommandIdentifier::RXParamSetupReq => 0x05,
        CommandIdentifier::RXParamSetupAns => 0x85,
        CommandIdentifier::DevStatusReq => 0x06,
        CommandIdentifier::DevStatusAns => 0x86,
        CommandIdentifier::NewChannelReq => 0x07,
        CommandIdentifier::NewChannelAns => 0x87,
        CommandIdentifier::RXTimingSetupReq => 0x08,
        CommandIdentifier::RXTimingSetupAns => 0x88,
        CommandIdentifier::TxParamSetupReq => 0x09,
        CommandIdentifier::TxParamSetupAns => 0x89,
        CommandIdentifier::DlChannelReq => 0x0A,
        CommandIdentifier::DlChannelAns => 0x8A,
    }
}

impl CommandIdentifier {
    /// The CID byte of this identifier.
    pub fn as_byte(&self) -> (r: u8)
        ensures
            r == cid_byte(*self),
    {
        match self {
            CommandIdentifier::LinkCheckReq => 0x02,
            CommandIdentifier::LinkCheckAns => 0x82,
            CommandIdentifier::LinkADRReq => 0x03,
            CommandIdentifier::LinkADRAns => 0x83,
            CommandIdentifier::DutyCycleReq => 0x04,
            CommandIdentifier::DutyCycleAns => 0x84,
            CommandIdentifier::RXParamSetupReq => 0x05,
            CommandIdentifier::RXParamSetupAns => 0x85,
            CommandIdentifier::DevStatusReq => 0x06,
            CommandIdentifier::DevStatusAns => 0x86,
            CommandIdentifier::NewChannelReq => 0x07,
            CommandIdentifier::NewChannelAns => 0x87,
            CommandIdentifier::RXTimingSetupReq => 0x08,
            CommandIdentifier::RXTimingSetupAns => 0x88,
            CommandIdentifier::TxParamSetupReq => 0x09,
            CommandIdentifier::TxParamSetupAns => 0x89,
            CommandIdentifier::DlChannelReq => 0x0A,
            CommandIdentifier::DlChannelAns => 0x8A,
        }
    }
}

/// A MAC command with its payload fields.
#[derive(Debug, Clone, Copy, PartialEq, Eq, Structural)]
pub enum MacCommand {
    /// Link check request.
    LinkCheckReq,
    /// Link check answer.
    LinkCheckAns {
        /// Link margin in dB.
        margin: u8,
        /// Number of gateways that received the request.
        gateway_count: u8,
    },
    /// Link ADR request.
    LinkADRReq {
        /// Requested data-rate index.
        data_rate: u8,
        /// Requested transmit-power index.
        tx_power: u8,
        /// Channel mask.
        ch_mask: u16,
        /// Channel-mask control.
        ch_mask_cntl: u8,
        /// Number of transmissions per uplink.
        nb_trans: u8,
    },
    /// Link ADR answer.
    LinkADRAns {
        /// Power acknowledged.
        power_ack: bool,
        /// Data rate acknowledged.
        data_rate_ack: bool,
        /// Channel mask acknowledged.
        channel_mask_ack: bool,
    },
    /// Duty cycle request.
    DutyCycleReq {
        /// Maximum duty cycle exponent.
        max_duty_cycle: u8,
    },
    /// Duty cycle answer.
    DutyCycleAns,
    /// RX parameter setup request.
    RXParamSetupReq {
        /// RX1 data-rate offset.
        rx1_dr_offset: u8,
        /// RX2 data-rate index.
        rx2_data_rate: u8,
        /// RX2 frequency, as the raw 3-byte field.
        freq: u32,
    },
    /// RX parameter setup answer.
    RXParamSetupAns {
        /// RX1 offset acknowledged.
        rx1_dr_offset_ack: bool,
        /// RX2 data rate acknowledged.
        rx2_data_rate_ack: bool,
        /// Channel acknowledged.
        channel_ack: bool,
    },
    /// Device status request.
    DevStatusReq,
    /// Device status answer.
    DevStatusAns {
        /// Battery level: 0 external power, 1..=254 level, 255 unknown.
        battery: u8,
        /// SNR margin in dB, -32..=31.
        margin: i8,
    },
    /// New channel request.
    NewChannelReq {
        /// Channel index.
        ch_index: u8,
        /// Frequency, as the raw 3-byte field.
        freq: u32,
        /// Maximum data rate.
        max_dr: u8,
        /// Minimum data rate.
        min_dr: u8,
    },
    /// New channel answer.
    NewChannelAns {
        /// Frequency acknowledged.
        channel_freq_ok: bool,
        /// Data-rate range acknowledged.
        data_rate_ok: bool,
    },
    /// RX timing setup request.
    RXTimingSetupReq {
        /// RX1 delay in seconds (0..=15, 0 meaning 1).
        delay: u8,
    },
    /// RX timing setup answer.
    RXTimingSetupAns,
    /// TX parameter setup request.
    TxParamSetupReq {
        /// Downlink dwell-time limit.
        downlink_dwell_time: bool,
        /// Uplink dwell-time limit.
        uplink_dwell_time: bool,
        /// Maximum EIRP index.
        max_eirp: u8,
    },
    /// TX parameter setup answer.
    TxParamSetupAns,
    /// Downlink channel request.
    DlChannelReq {
        /// Channel index.
        ch_index: u8,
        /// Frequency, as the raw 3-byte field.
        freq: u32,
    },
    /// Downlink channel answer.
    DlChannelAns {
        /// Frequency acknowledged.
        channel_freq_ok: bool,
        /// Uplink frequency exists.
        uplink_freq_exists: bool,
    },
}

/// The command a CID byte and payload bytes denote, or `None` for an
/// unknown CID or a payload shorter than the command requires.
pub open spec fn parse_command(cid: u8, p: Seq<u8>) -> Option<MacCommand> {
    if cid == 0x02 {
        Some(MacCommand::LinkCheckReq)
    } else if cid == 0x82 && p.len() >= 2 {
        Some(MacCommand::LinkCheckAns { margin: p[0], gateway_count: p[1] })
    } else if cid == 0x03 && p.len() >= 4 {
        Some(
            MacCommand::LinkADRReq {
                data_rate: p[0] >> 4,
                tx_power: p[0] & 0x0F,
                ch_mask: (p[1] + p[2] * 256) as u16,
                ch_mask_cntl: p[3] >> 4,
                nb_trans: p[3] & 0x0F,
            },
        )
    } else if cid == 0x83 && p.len() >= 1 {
        Some(
            MacCommand::LinkADRAns {
                power_ack: p[0] & 0x04 != 0,
                data_rate_ack: p[0] & 0x02 != 0,
                channel_mask_ack: p[0] & 0x01 != 0,
            },
        )
    } else if cid == 0x04 && p.len() >= 1 {
        Some(MacCommand::DutyCycleReq { max_duty_cycle: p[0] })
    } else if cid == 0x84 {
        Some(MacCommand::DutyCycleAns)
    } else if cid == 0x05 && p.len() >= 4 {
        Some(
            MacCommand::RXParamSetupReq {
                rx1_dr_offset: p[0] >> 4,
                rx2_data_rate: p[0] & 0x0F,
                freq: (p[1] + p[2] * 256 + p[3] * 65536) as u32,
            },
        )
    } else if cid == 0x85 && p.len() >= 1 {
        Some(
            MacCommand::RXParamSetupAns {
                rx1_dr_offset_ack: p[0] & 0x04 != 0,
                rx2_data_rate_ack: p[0] & 0x02 != 0,
                channel_ack: p[0] & 0x01 != 0,
            },
        )
    } else if cid == 0x06 {
        Some(MacCommand::DevStatusReq)
    } else if cid == 0x86 && p.len() >= 2 {
        Some(MacCommand::DevStatusAns { battery: p[0], margin: p[1] as i8 })
    } else if cid == 0x07 && p.len() >= 5 {
        Some(
            MacCommand::NewChannelReq {
                ch_index: p[0],
                freq: (p[1] + p[2] * 256 + p[3] * 65536) as u32,
                max_dr: p[4] >> 4,
                min_dr: p[4] & 0x0F,
            },
        )
    } else if cid == 0x87 && p.len() >= 1 {
        Some(
            MacCommand::NewChannelAns {
                channel_freq_ok: p[0] & 0x02 != 0,
                data_rate_ok: p[0] & 0x01 != 0,
            },
        )
    } else if cid == 0x08 && p.len() >= 1 {
        Some(MacCommand::RXTimingSetupReq { delay: p[0] & 0x0F })
    } else if cid == 0x88 {
        Some(MacCommand::RXTimingSetupAns)
    } else if cid == 0x09 && p.len() >= 1 {
        Some(
            MacCommand::TxParamSetupReq {
                downlink_dwell_time: p[0] & 0x20 != 0,
                uplink_dwell_time: p[0] & 0x10 != 0,
                max_eirp: p[0] & 0x0F,
            },
        )
    } else if cid == 0x89 {
        Some(MacCommand::TxParamSetupAns)
    } else if cid == 0x0A && p.len() >= 4 {
        Some(
            MacCommand::DlChannelReq {
                ch_index: p[0],
                freq: (p[1] + p[2] * 256 + p[3] * 65536) as u32,
            },
        )
    } else if cid == 0x8A && p.len() >= 1 {
        Some(
            MacCommand::DlChannelAns {
                channel_freq_ok: p[0] & 0x02 != 0,
                uplink_freq_exists: p[0] & 0x01 != 0,
            },
        )
    } else {
        None
    }
}

/// The payload length of a command, excluding its CID byte.
pub open spec fn cmd_len(cmd: MacCommand) -> int {
    match cmd {
        MacCommand::LinkCheckReq => 0,
        MacCommand::LinkCheckAns { .. } => 2,
        MacCommand::LinkADRReq { .. } => 4,
        MacCommand::LinkADRAns { .. } => 1,
        MacCommand::DutyCycleReq { .. } => 1,
        MacCommand::DutyCycleAns => 0,
        MacCommand::RXParamSetupReq { .. } => 4,
        MacCommand::RXParamSetupAns { .. } => 1,
        MacCommand::DevStatusReq => 0,
        MacCommand::DevStatusAns { .. } => 2,
        MacCommand::NewChannelReq { .. } => 5,
        MacCommand::NewChannelAns { .. } => 1,
        MacCommand::RXTimingSetupReq { .. } => 1,
        MacCommand::RXTimingSetupAns => 0,
        MacCommand::TxParamSetupReq { .. } => 1,
        MacCommand::TxParamSetupAns => 0,
        MacCommand::DlChannelReq { .. } => 4,
        MacCommand::DlChannelAns { .. } => 1,
    }
}

/// The answer-flag byte built from up to three booleans.
pub open spec fn ack_bits(b2: bool, b1: bool, b0: bool) -> u8 {
    ((if b2 {
        4u8
    } else {
        0u8
    }) + (if b1 {
        2u8
    } else {
        0u8
    }) + (if b0 {
        1u8
    } else {
        0u8
    })) as u8
}

/// The on-air bytes of a command: its CID byte followed by its payload.
pub open spec fn serialize_command(cmd: MacCommand) -> Seq<u8> {
    match cmd {
        MacCommand::LinkCheckReq => seq![0x02u8],
        MacCommand::LinkCheckAns { margin, gateway_count } => seq![0x82u8, margin, gateway_count],
        MacCommand::LinkADRReq { data_rate, tx_power, ch_mask, ch_mask_cntl, nb_trans } => seq![
            0x03u8,
            (data_rate << 4) | (tx_power & 0x0F),
            (ch_mask % 256) as u8,
            ((ch_mask / 256) % 256) as u8,
            (ch_mask_cntl << 4) | (nb_trans & 0x0F),
        ],
        MacCommand::LinkADRAns { power_ack, data_rate_ack, channel_mask_ack } => seq![
            0x83u8,
            ack_bits(power_ack, data_rate_ack, channel_mask_ack),
        ],
        MacCommand::DutyCycleReq { max_duty_cycle } => seq![0x04u8, max_duty_cycle],
        MacCommand::DutyCycleAns => seq![0x84u8],
        MacCommand::RXParamSetupReq { rx1_dr_offset, rx2_data_rate, freq } => seq![
            0x05u8,
            (rx1_dr_offset << 4) | (rx2_data_rate & 0x0F),
            (freq % 256) as u8,
            ((freq / 256) % 256) as u8,
            ((freq / 65536) % 256) as u8,
        ],
        MacCommand::RXParamSetupAns { rx1_dr_offset_ack, rx2_data_rate_ack, channel_ack } => seq![
            0x85u8,
            ack_bits(rx1_dr_offset_ack, rx2_data_rate_ack, channel_ack),
        ],
        MacCommand::DevStatusReq => seq![0x06u8],
        MacCommand::DevStatusAns { battery, margin } => seq![0x86u8, battery, margin as u8],
        MacCommand::NewChannelReq { ch_index, freq, max_dr, min_dr } => seq![
            0x07u8,
            ch_index,
            (freq % 256) as u8,
            ((freq / 256) % 256) as u8,
            ((freq / 65536) % 256) as u8,
            (max_dr << 4) | (min_dr & 0x0F),
        ],
        MacCommand::NewChannelAns { channel_freq_ok, data_rate_ok } => seq![
            0x87u8,
            ack_bits(false, channel_freq_ok, data_rate_ok),
        ],
        MacCommand::RXTimingSetupReq { delay } => seq![0x08u8, delay & 0x0F],
        MacCommand::RXTimingSetupAns => seq![0x88u8],
        MacCommand::TxParamSetupReq { downlink_dwell_time, uplink_dwell_time, max_eirp } => seq![
            0x09u8,
            ((if downlink_dwell_time {
                0x20u8
            } else {
                0u8
            }) + (if uplink_dwell_time {
                0x10u8
            } else {
                0u8
            }) + (max_eirp & 0x0F)) as u8,
        ],
        MacCommand::TxParamSetupAns => seq![0x89u8],
        MacCommand::DlChannelReq { ch_index, freq } => seq![
            0x0Au8,
            ch_index,
            (freq % 256) as u8,
            ((freq / 256) % 256) as u8,
            ((freq / 65536) % 256) as u8,
        ],
        MacCommand::DlChannelAns { channel_freq_ok, uplink_freq_exists } => seq![
            0x8Au8,
            ack_bits(false, channel_freq_ok, uplink_freq_exists),
        ],
    }
}

/// The validation outcome of a command, mirroring the per-command rules:
/// requests with out-of-range fields are refused, requests otherwise
/// produce their default answer, answers need no processing.
pub open spec fn process_spec(cmd: MacCommand) -> Result<Option<MacCommand>, MacError> {
    match cmd {
        MacCommand::LinkCheckReq => Ok(None),
        MacCommand::LinkCheckAns { .. } => Ok(None),
        MacCommand::LinkADRReq { data_rate, tx_power, .. } => {
            if data_rate > 15 || tx_power > 15 {
                Err(MacError::InvalidValue)
            } else {
                Ok(
                    Some(
                        MacCommand::LinkADRAns {
                            power_ack: true,
                            data_rate_ack: true,
                            channel_mask_ack: true,
                        },
                    ),
                )
            }
        },
        MacCommand::DutyCycleReq { .. } => Ok(Some(MacCommand::DutyCycleAns)),
        MacCommand::RXParamSetupReq { rx1_dr_offset, rx2_data_rate, .. } => {
            if rx1_dr_offset > 7 || rx2_data_rate > 15 {
                Err(MacError::InvalidValue)
            } else {
                Ok(
                    Some(
                        MacCommand::RXParamSetupAns {
                            rx1_dr_offset_ack: true,
                            rx2_data_rate_ack: true,
                            channel_ack: true,
                        },
                    ),
                )
            }
        },
        MacCommand::DevStatusReq => Ok(
            Some(MacCommand::DevStatusAns { battery: 255, margin: 0 }),
        ),
        MacCommand::NewChannelReq { max_dr, min_dr, .. } => {
            if max_dr > 15 || min_dr > 15 || min_dr > max_dr {
                Err(MacError::InvalidValue)
            } else {
                Ok(Some(MacCommand::NewChannelAns { channel_freq_ok: true, data_rate_ok: true }))
            }
        },
        MacCommand::RXTimingSetupReq { delay } => {
            if delay > 15 {
                Err(MacError::InvalidValue)
            } else {
                Ok(Some(MacCommand::RXTimingSetupAns))
            }
        },
        MacCommand::TxParamSetupReq { .. } => Err(MacError::UnknownCommand),
        MacCommand::DlChannelReq { .. } => Err(MacError::UnknownCommand),
        MacCommand::LinkADRAns { .. } => Ok(None),
        MacCommand::DutyCycleAns => Ok(None),
        MacCommand::RXParamSetupAns { .. } => Ok(None),
        MacCommand::DevStatusAns { .. } => Ok(None),
        MacCommand::NewChannelAns { .. } => Ok(None),
        MacCommand::RXTimingSetupAns => Ok(None),
        MacCommand::TxParamSetupAns => Ok(None),
        MacCommand::DlChannelAns { .. } => Ok(None),
    }
}

impl MacCommand {
    /// Parse a MAC command from its CID byte and the following payload.
    pub fn from_bytes(cid: u8, payload: &[u8]) -> (r: Option<Self>)
        ensures
            r == parse_command(cid, payload@),
    {
        match cid {
            0x02 => Some(MacCommand::LinkCheckReq),
            0x82 if payload.len() >= 2 => Some(
                MacCommand::LinkCheckAns { margin: payload[0], gateway_count: payload[1] },
            ),
            0x03 if payload.len() >= 4 => Some(
                MacCommand::LinkADRReq {
                    data_rate: payload[0] >> 4,
                    tx_power: payload[0] & 0x0F,
                    ch_mask: payload[1] as u16 + payload[2] as u16 * 256,
                    ch_mask_cntl: payload[3] >> 4,
                    nb_trans: payload[3] & 0x0F,
                },
            ),
            0x83 if payload.len() >= 1 => Some(
                MacCommand::LinkADRAns {
                    power_ack: payload[0] & 0x04 != 0,
                    data_rate_ack: payload[0] & 0x02 != 0,
                    channel_mask_ack: payload[0] & 0x01 != 0,
                },
            ),
            0x04 if payload.len() >= 1 => Some(
                MacCommand::DutyCycleReq { max_duty_cycle: payload[0] },
            ),
            0x84 => Some(MacCommand::DutyCycleAns),
            0x05 if payload.len() >= 4 => Some(
                MacCommand::RXParamSetupReq {
                    rx1_dr_offset: payload[0] >> 4,
                    rx2_data_rate: payload[0] & 0x0F,
                    freq: payload[1] as u32 + payload[2] as u32 * 256 + payload[3] as u32 * 65536,
                },
            ),
            0x85 if payload.len() >= 1 => Some(
                MacCommand::RXParamSetupAns {
                    rx1_dr_offset_ack: payload[0] & 0x04 != 0,
                    rx2_data_rate_ack: payload[0] & 0x02 != 0,
                    channel_ack: payload[0] & 0x01 != 0,
                },
            ),
            0x06 => Some(MacCommand::DevStatusReq),
            0x86 if payload.len() >= 2 => Some(
                MacCommand::DevStatusAns { battery: payload[0], margin: payload[1] as i8 },
            ),
            0x07 if payload.len() >= 5 => Some(
                MacCommand::NewChannelReq {
                    ch_index: payload[0],
                    freq: payload[1] as u32 + payload[2] as u32 * 256 + payload[3] as u32 * 65536,
                    max_dr: payload[4] >> 4,
                    min_dr: payload[4] & 0x0F,
                },
            ),
            0x87 if payload.len() >= 1 => Some(
                MacCommand::NewChannelAns {
                    channel_freq_ok: payload[0] & 0x02 != 0,
                    data_rate_ok: payload[0] & 0x01 != 0,
                },
            ),
            0x08 if payload.len() >= 1 => Some(
                MacCommand::RXTimingSetupReq { delay: payload[0] & 0x0F },
            ),
            0x88 => Some(MacCommand::RXTimingSetupAns),
            0x09 if payload.len() >= 1 => Some(
                MacCommand::TxParamSetupReq {
                    downlink_dwell_time: payload[0] & 0x20 != 0,
                    uplink_dwell_time: payload[0] & 0x10 != 0,
                    max_eirp: payload[0] & 0x0F,
                },
            ),
            0x89 => Some(MacCommand::TxParamSetupAns),
            0x0A if payload.len() >= 4 => Some(
                MacCommand::DlChannelReq {
                    ch_index: payload[0],
                    freq: payload[1] as u32 + payload[2] as u32 * 256 + payload[3] as u32 * 65536,
                },
            ),
            0x8A if payload.len() >= 1 => Some(
                MacCommand::DlChannelAns {
                    channel_freq_ok: payload[0] & 0x02 != 0,
                    uplink_freq_exists: payload[0] & 0x01 != 0,
                },
            ),
            _ => None,
        }
    }

    /// The payload length of this command, excluding its CID byte.
    pub fn len(&self) -> (r: usize)
        ensures
            r == cmd_len(*self),
    {
        match self {
            MacCommand::LinkCheckReq => 0,
            MacCommand::LinkCheckAns { .. } => 2,
            MacCommand::LinkADRReq { .. } => 4,
            MacCommand::LinkADRAns { .. } => 1,
            MacCommand::DutyCycleReq { .. } => 1,
            MacCommand::DutyCycleAns => 0,
            MacCommand::RXParamSetupReq { .. } => 4,
            MacCommand::RXParamSetupAns { .. } => 1,
            MacCommand::DevStatusReq => 0,
            MacCommand::DevStatusAns { .. } => 2,
            MacCommand::NewChannelReq { .. } => 5,
            MacCommand::NewChannelAns { .. } => 1,
            MacCommand::RXTimingSetupReq { .. } => 1,
            MacCommand::RXTimingSetupAns => 0,
            MacCommand::TxParamSetupReq { .. } => 1,
            MacCommand::TxParamSetupAns => 0,
            MacCommand::DlChannelReq { .. } => 4,
            MacCommand::DlChannelAns { .. } => 1,
        }
    }

    /// Serialize this command to its on-air bytes.
    pub fn to_bytes(&self) -> (r: Vec<u8>)
        ensures
            r@ == serialize_command(*self),
            r@.len() == 1 + cmd_len(*self),
    {
        let mut out: Vec<u8> = Vec::new();
        match self {
            MacCommand::LinkCheckReq => {
                out.push(0x02);
            },
            MacCommand::LinkCheckAns { margin, gateway_count } => {
                out.push(0x82);
                out.push(*margin);
                out.push(*gateway_count);
            },
            MacCommand::LinkADRReq { data_rate, tx_power, ch_mask, ch_mask_cntl, nb_trans } => {
                out.push(0x03);
                out.push((*data_rate << 4) | (*tx_power & 0x0F));
                out.push((*ch_mask % 256) as u8);
                out.push(((*ch_mask / 256) % 256) as u8);
                out.push((*ch_mask_cntl << 4) | (*nb_trans & 0x0F));
            },
            MacCommand::LinkADRAns { power_ack, data_rate_ack, channel_mask_ack } => {
                out.push(0x83);
                out.push(ack_byte(*power_ack, *data_rate_ack, *channel_mask_ack));
            },
            MacCommand::DutyCycleReq { max_duty_cycle } => {
                out.push(0x04);
                out.push(*max_duty_cycle);
            },
            MacCommand::DutyCycleAns => {
                out.push(0x84);
            },
            MacCommand::RXParamSetupReq { rx1_dr_offset, rx2_data_rate, freq } => {
                out.push(0x05);
                out.push((*rx1_dr_offset << 4) | (*rx2_data_rate & 0x0F));
                out.push((*freq % 256) as u8);
                out.push(((*freq / 256) % 256) as u8);
                out.push(((*freq / 65536) % 256) as u8);
            },
            MacCommand::RXParamSetupAns { rx1_dr_offset_ack, rx2_data_rate_ack, channel_ack } => {
                out.push(0x85);
                out.push(ack_byte(*rx1_dr_offset_ack, *rx2_data_rate_ack, *channel_ack));
            },
            MacCommand::DevStatusReq => {
                out.push(0x06);
            },
            MacCommand::DevStatusAns { battery, margin } => {
                out.push(0x86);
                out.push(*battery);
                out.push(#[verifier::truncate] (*margin as u8));
            },
            MacCommand::NewChannelReq { ch_index, freq, max_dr, min_dr } => {
                out.push(0x07);
                out.push(*ch_index);
                out.push((*freq % 256) as u8);
                out.push(((*freq / 256) % 256) as u8);
                out.push(((*freq / 65536) % 256) as u8);
                out.push((*max_dr << 4) | (*min_dr & 0x0F));
            },
            MacCommand::NewChannelAns { channel_freq_ok, data_rate_ok } => {
                out.push(0x87);
                out.push(ack_byte(false, *channel_freq_ok, *data_rate_ok));
            },
            MacCommand::RXTimingSetupReq { delay } => {
                out.push(0x08);
                out.push(*delay & 0x0F);
            },
            MacCommand::RXTimingSetupAns => {
                out.push(0x88);
            },
            MacCommand::TxParamSetupReq { downlink_dwell_time, uplink_dwell_time, max_eirp } => {
                out.push(0x09);
                let d: u8 = if *downlink_dwell_time {
                    0x20
                } else {
                    0
                };
                let u: u8 = if *uplink_dwell_time {
                    0x10
                } else {
                    0
                };
                let m: u8 = *max_eirp & 0x0F;
                proof {
                    let e = *max_eirp;
                    assert(e & 0x0F < 16) by (bit_vector);
                }
                out.push(d + u + m);
            },
            MacCommand::TxParamSetupAns => {
                out.push(0x89);
            },
            MacCommand::DlChannelReq { ch_index, freq } => {
                out.push(0x0A);
                out.push(*ch_index);
                out.push((*freq % 256) as u8);
                out.push(((*freq / 256) % 256) as u8);
                out.push(((*freq / 65536) % 256) as u8);
            },
            MacCommand::DlChannelAns { channel_freq_ok, uplink_freq_exists } => {
                out.push(0x8A);
                out.push(ack_byte(false, *channel_freq_ok, *uplink_freq_exists));
            },
        }
        proof {
            assert(out@ =~= serialize_command(*self));
        }
        out
    }

    /// Validate this command: refuse out-of-range request fields, produce
    /// the default answer for a request, pass answers through.
    pub fn process(&self) -> (r: Result<Option<MacCommand>, MacError>)
        ensures
            r == process_spec(*self),
    {
        match self {
            MacCommand::LinkCheckReq => Ok(None),
            MacCommand::LinkCheckAns { .. } => Ok(None),
            MacCommand::LinkADRReq { data_rate, tx_power, .. } => {
                if *data_rate > 15 || *tx_power > 15 {
                    Err(MacError::InvalidValue)
                } else {
                    Ok(
                        Some(
                            MacCommand::LinkADRAns {
                                power_ack: true,
                                data_rate_ack: true,
                                channel_mask_ack: true,
                            },
                        ),
                    )
                }
            },
            MacCommand::DutyCycleReq { .. } => Ok(Some(MacCommand::DutyCycleAns)),
            MacCommand::RXParamSetupReq { rx1_dr_offset, rx2_data_rate, .. } => {
                if *rx1_dr_offset > 7 || *rx2_data_rate > 15 {
                    Err(MacError::InvalidValue)
                } else {
                    Ok(
                        Some(
                            MacCommand::RXParamSetupAns {
                                rx1_dr_offset_ack: true,
                                rx2_data_rate_ack: true,
                                channel_ack: true,
                            },
                        ),
                    )
                }
            },
            MacCommand::DevStatusReq => Ok(
                Some(MacCommand::DevStatusAns { battery: 255, margin: 0 }),
            ),
            MacCommand::NewChannelReq { max_dr, min_dr, .. } => {
                if *max_dr > 15 || *min_dr > 15 || *min_dr > *max_dr {
                    Err(MacError::InvalidValue)
                } else {
                    Ok(
                        Some(
                            MacCommand::NewChannelAns { channel_freq_ok: true, data_rate_ok: true },
                        ),
                    )
                }
            },
            MacCommand::RXTimingSetupReq { delay } => {
                if *delay > 15 {
                    Err(MacError::InvalidValue)
                } else {
                    Ok(Some(MacCommand::RXTimingSetupAns))
                }
            },
            MacCommand::TxParamSetupReq { .. } => Err(MacError::UnknownCommand),
            MacCommand::DlChannelReq { .. } => Err(MacError::UnknownCommand),
            MacCommand::LinkADRAns { .. } => Ok(None),
            MacCommand::DutyCycleAns => Ok(None),
            MacCommand::RXParamSetupAns { .. } => Ok(None),
            MacCommand::DevStatusAns { .. } => Ok(None),
            MacCommand::NewChannelAns { .. } => Ok(None),
            MacCommand::RXTimingSetupAns => Ok(None),
            MacCommand::TxParamSetupAns => Ok(None),
            MacCommand::DlChannelAns { .. } => Ok(None),
        }
    }
}

/// Build an answer-flag byte from up to three booleans.
fn ack_byte(b2: bool, b1: bool, b0: bool) -> (r: u8)
    ensures
        r == ack_bits(b2, b1, b0),
{
    let x2: u8 = if b2 {
        4
    } else {
        0
    };
    let x1: u8 = if b1 {
        2
    } else {
        0
    };
    let x0: u8 = if b0 {
        1
    } else {
        0
    };
    x2 + x1 + x0
}

} // verus!
