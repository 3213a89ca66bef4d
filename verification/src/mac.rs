//! The MAC layer: frame building and parsing, integrity verification,
//! payload encryption, frame-counter management, the MAC-command engine and
//! the join procedure.

use vstd::prelude::*;

use crate::commands::cmd_len;
use crate::commands::parse_command;
use crate::commands::serialize_command;
use crate::commands::MacCommand;
use crate::config::AESKey;
use crate::config::DevAddr;
use crate::config::EUI64;
use crate::config::SessionState;
use crate::crypto;
use crate::crypto::ctr_stream;
use crate::crypto::join_mic_bytes;
use crate::crypto::mic_bytes;
use crate::crypto::u16_le;
use crate::crypto::Direction;
use crate::phy::PhyLayer;
use crate::power::PowerConfig;
use crate::power::PowerManager;
use crate::radio::Radio;
use crate::radio::RadioError;
use crate::region::channel_shape;
use crate::region::enabled_seq;
use crate::region::is_uplink_channel;
use crate::region::rx1_downlink_dr;
use crate::region::uplink_index_of;
use crate::region::us915_dr_index;
use crate::region::Channel;
use crate::region::DataRate;
use crate::region::US915;

verus! {

broadcast use {crate::config::lemma_dev_addr_len, crate::config::lemma_aes_key_len};

/// Maximum MAC payload size in bytes.
pub const MAX_MAC_PAYLOAD: usize = 242;

/// Maximum frame size in bytes.
pub const MAX_FRAME_SIZE: usize = 256;

/// Maximum number of queued MAC commands.
pub const MAX_MAC_COMMANDS: usize = 8;

/// MAC layer errors.
#[derive(Debug, Clone, Copy, PartialEq, Eq, Structural)]
pub enum MacError {
    /// An error reported by the radio port.
    Radio(RadioError),
    /// Malformed frame.
    InvalidFrame,
    /// A length field or buffer length is out of range.
    InvalidLength,
    /// A field value is out of range.
    InvalidValue,
    /// Unknown MAC command.
    UnknownCommand,
    /// A fixed-size buffer or queue is full.
    BufferTooSmall,
    /// The device has no active session.
    NotJoined,
    /// The message integrity code does not match.
    InvalidMic,
    /// The frame is addressed to another device.
    InvalidAddress,
    /// A frequency lies outside the regional band.
    InvalidFrequency,
    /// A data-rate index is not valid for the region.
    InvalidDataRate,
    /// No usable channel.
    InvalidChannel,
    /// An application port is out of range.
    InvalidPort,
    /// A payload exceeds the regional cap.
    InvalidPayloadSize,
    /// Invalid configuration.
    InvalidConfig,
    /// An operation timed out.
    Timeout,
}

/// `x + 1` with 32-bit wrap-around.
pub open spec fn wrap_inc(x: u32) -> u32 {
    ((x + 1) % 0x1_0000_0000) as u32
}

/// Frame control field of an uplink frame header.
#[derive(Debug, Clone, Copy, PartialEq, Eq, Structural)]
pub struct FCtrl {
    /// Adaptive data rate enabled.
    pub adr: bool,
    /// ADR acknowledgment request.
    pub adr_ack_req: bool,
    /// Acknowledgment of a confirmed downlink.
    pub ack: bool,
    /// Frame-pending bit.
    pub fpending: bool,
    /// Length of the FOpts field (0..=15).
    pub foptslen: u8,
}

/// The single-byte encoding of a frame control field.
pub open spec fn fctrl_byte(f: FCtrl) -> u8 {
    (if f.adr {
        0x80u8
    } else {
        0u8
    }) | (if f.adr_ack_req {
        0x40u8
    } else {
        0u8
    }) | (if f.ack {
        0x20u8
    } else {
        0u8
    }) | (if f.fpending {
        0x10u8
    } else {
        0u8
    }) | (f.foptslen & 0x0F)
}

impl FCtrl {
    /// A frame control field with every flag clear.
    pub fn new() -> (r: Self)
        ensures
            r == (FCtrl {
                adr: false,
                adr_ack_req: false,
                ack: false,
                fpending: false,
                foptslen: 0u8,
            }),
    {
        Self { adr: false, adr_ack_req: false, ack: false, fpending: false, foptslen: 0 }
    }

    /// Encode the field as its on-air byte.
    pub fn to_byte(&self) -> (r: u8)
        ensures
            r == fctrl_byte(*self),
    {
        let a: u8 = if self.adr {
            0x80
        } else {
            0
        };
        let b: u8 = if self.adr_ack_req {
            0x40
        } else {
            0
        };
        let c: u8 = if self.ack {
            0x20
        } else {
            0
        };
        let d: u8 = if self.fpending {
            0x10
        } else {
            0
        };
        a | b | c | d | (self.foptslen & 0x0F)
    }
}

/// The low nibble of a frame control byte is the FOpts length it encodes.
pub proof fn lemma_fctrl_low_nibble(f: FCtrl)
    requires
        f.foptslen <= 15,
    ensures
        fctrl_byte(f) & 0x0F == f.foptslen,
{
    let a: u8 = if f.adr {
        0x80u8
    } else {
        0u8
    };
    let b: u8 = if f.adr_ack_req {
        0x40u8
    } else {
        0u8
    };
    let c: u8 = if f.ack {
        0x20u8
    } else {
        0u8
    };
    let d: u8 = if f.fpending {
        0x10u8
    } else {
        0u8
    };
    let n = f.foptslen;
    assert((a | b | c | d | (n & 0x0F)) & 0x0F == n) by (bit_vector)
        requires
            (a == 0x80 || a == 0) && (b == 0x40 || b == 0) && (c == 0x20 || c == 0) && (d == 0x10
                || d == 0) && n <= 15,
    ;
}

/// The bytes of a frame header: `DevAddr(LE4) ‖ FCtrl(1) ‖ FCnt(LE2) ‖
/// FOpts`.
pub open spec fn fhdr_bytes(dev_addr: Seq<u8>, f_ctrl: FCtrl, f_cnt: u16, f_opts: Seq<u8>) -> Seq<
    u8,
> {
    dev_addr + seq![fctrl_byte(f_ctrl)] + u16_le(f_cnt) + f_opts
}

/// Frame header of an uplink frame.
#[derive(Debug)]
pub struct FHDR {
    /// Device address.
    pub dev_addr: DevAddr,
    /// Frame control field.
    pub f_ctrl: FCtrl,
    /// Low sixteen bits of the frame counter.
    pub f_cnt: u16,
    /// Piggybacked MAC commands (at most 15 bytes).
    pub f_opts: Vec<u8>,
}

impl FHDR {
    /// Serialize the frame header to its on-air bytes.
    pub fn serialize(&self) -> (r: Vec<u8>)
        requires
            self.f_opts@.len() <= 15,
        ensures
            r@ == fhdr_bytes(self.dev_addr@, self.f_ctrl, self.f_cnt, self.f_opts@),
    {
        let mut buffer: Vec<u8> = Vec::new();
        let addr = self.dev_addr.as_bytes();
        buffer.push(addr[0]);
        buffer.push(addr[1]);
        buffer.push(addr[2]);
        buffer.push(addr[3]);
        buffer.push(self.f_ctrl.to_byte());
        buffer.push((self.f_cnt % 256) as u8);
        buffer.push(((self.f_cnt / 256) % 256) as u8);
        let mut i: usize = 0;
        while i < self.f_opts.len()
            invariant
                0 <= i <= self.f_opts@.len() <= 15,
                buffer@.len() == 7 + i,
                buffer@ =~= self.dev_addr@ + seq![fctrl_byte(self.f_ctrl)] + u16_le(self.f_cnt)
                    + self.f_opts@.take(i as int),
            decreases self.f_opts@.len() - i,
        {
            buffer.push(self.f_opts[i]);
            proof {
                assert(self.f_opts@.take(i + 1) =~= self.f_opts@.take(i as int).push(
                    self.f_opts@[i as int],
                ));
            }
            i = i + 1;
        }
        proof {
            assert(self.f_opts@.take(self.f_opts@.len() as int) =~= self.f_opts@);
            assert(buffer@ =~= fhdr_bytes(self.dev_addr@, self.f_ctrl, self.f_cnt, self.f_opts@));
        }
        buffer
    }
}

/// The MHDR byte of an uplink data frame.
pub open spec fn uplink_mhdr(confirmed: bool) -> u8 {
    if confirmed {
        0x80u8
    } else {
        0x40u8
    }
}

/// The complete on-air bytes of an uplink data frame built from a session:
/// MHDR, frame header with the low counter bits and piggybacked commands,
/// port, encrypted payload, and the MIC over everything before it.
pub open spec fn uplink_frame_bytes(
    session: SessionState,
    confirmed: bool,
    ack: bool,
    f_port: u8,
    data: Seq<u8>,
    f_opts: Seq<u8>,
) -> Seq<u8> {
    let f_ctrl = FCtrl {
        adr: false,
        adr_ack_req: false,
        ack,
        fpending: false,
        foptslen: f_opts.len() as u8,
    };
    let key = if f_port == 0 {
        session.nwk_skey@
    } else {
        session.app_skey@
    };
    let body = seq![uplink_mhdr(confirmed)] + fhdr_bytes(
        session.dev_addr@,
        f_ctrl,
        (session.fcnt_up % 0x10000) as u16,
        f_opts,
    ) + seq![f_port] + ctr_stream(key, session.dev_addr@, session.fcnt_up, Direction::Up, data);
    body + mic_bytes(session.nwk_skey@, body, session.dev_addr@, session.fcnt_up, Direction::Up)
}

/// Build the on-air bytes of an uplink data frame.
#[verifier::rlimit(60)]
pub fn build_uplink_frame(
    session: &SessionState,
    confirmed: bool,
    ack: bool,
    f_port: u8,
    data: &[u8],
    f_opts: &Vec<u8>,
) -> (r: Vec<u8>)
    requires
        data@.len() + f_opts@.len() <= 242,
        f_opts@.len() <= 15,
    ensures
        r@ == uplink_frame_bytes(*session, confirmed, ack, f_port, data@, f_opts@),
        r@.len() == 13 + data@.len() + f_opts@.len(),
{
    let mut buffer: Vec<u8> = Vec::new();
    buffer.push(if confirmed {
        0x80
    } else {
        0x40
    });
    let mut f_ctrl = FCtrl::new();
    f_ctrl.ack = ack;
    f_ctrl.foptslen = f_opts.len() as u8;
    proof {
        assert(f_ctrl == (FCtrl {
            adr: false,
            adr_ack_req: false,
            ack,
            fpending: false,
            foptslen: f_opts@.len() as u8,
        }));
    }
    let fhdr = FHDR {
        dev_addr: session.dev_addr,
        f_ctrl,
        f_cnt: (session.fcnt_up % 65536) as u16,
        f_opts: clone_bytes(f_opts),
    };
    let hdr = fhdr.serialize();
    proof {
        assert(hdr@ == fhdr_bytes(
            session.dev_addr@,
            f_ctrl,
            (session.fcnt_up % 0x10000) as u16,
            f_opts@,
        ));
    }
    let mut i: usize = 0;
    while i < hdr.len()
        invariant
            0 <= i <= hdr@.len(),
            buffer@ =~= seq![uplink_mhdr(confirmed)] + hdr@.take(i as int),
        decreases hdr@.len() - i,
    {
        buffer.push(hdr[i]);
        proof {
            assert(hdr@.take(i + 1) =~= hdr@.take(i as int).push(hdr@[i as int]));
        }
        i = i + 1;
    }
    proof {
        assert(hdr@.take(hdr@.len() as int) =~= hdr@);
    }
    buffer.push(f_port);
    proof {
        assert(buffer@ =~= seq![uplink_mhdr(confirmed)] + hdr@ + seq![f_port]);
    }
    let key = if f_port == 0 {
        &session.nwk_skey
    } else {
        &session.app_skey
    };
    let encrypted = crypto::encrypt_payload(
        key,
        session.dev_addr,
        session.fcnt_up,
        Direction::Up,
        data,
    );
    let mut j: usize = 0;
    let ghost body_prefix = buffer@;
    while j < encrypted.len()
        invariant
            0 <= j <= encrypted@.len(),
            buffer@ =~= body_prefix + encrypted@.take(j as int),
        decreases encrypted@.len() - j,
    {
        buffer.push(encrypted[j]);
        proof {
            assert(encrypted@.take(j + 1) =~= encrypted@.take(j as int).push(
                encrypted@[j as int],
            ));
        }
        j = j + 1;
    }
    proof {
        assert(encrypted@.take(encrypted@.len() as int) =~= encrypted@);
    }
    let ghost spec_key = if f_port == 0 {
        session.nwk_skey@
    } else {
        session.app_skey@
    };
    let ghost body = seq![uplink_mhdr(confirmed)] + fhdr_bytes(
        session.dev_addr@,
        f_ctrl,
        (session.fcnt_up % 0x10000) as u16,
        f_opts@,
    ) + seq![f_port] + ctr_stream(
        spec_key,
        session.dev_addr@,
        session.fcnt_up,
        Direction::Up,
        data@,
    );
    proof {
        assert(buffer@ =~= body);
        assert(body.len() == 9 + f_opts@.len() + data@.len());
    }
    let mic = crypto::compute_mic(
        &session.nwk_skey,
        buffer.as_slice(),
        session.dev_addr,
        session.fcnt_up,
        Direction::Up,
    );
    buffer.push(mic[0]);
    buffer.push(mic[1]);
    buffer.push(mic[2]);
    buffer.push(mic[3]);
    proof {
        assert(buffer@ =~= body + mic@);
        assert(buffer@ =~= uplink_frame_bytes(*session, confirmed, ack, f_port, data@, f_opts@));
    }
    buffer
}

/// Copy a byte vector.
fn clone_bytes(v: &Vec<u8>) -> (r: Vec<u8>)
    ensures
        r@ == v@,
{
    let mut out: Vec<u8> = Vec::new();
    let mut i: usize = 0;
    while i < v.len()
        invariant
            0 <= i <= v@.len(),
            out@ =~= v@.take(i as int),
        decreases v@.len() - i,
    {
        out.push(v[i]);
        proof {
            assert(v@.take(i + 1) =~= v@.take(i as int).push(v@[i as int]));
        }
        i = i + 1;
    }
    proof {
        assert(v@.take(v@.len() as int) =~= v@);
    }
    out
}

/// The FOpts length a received frame's control byte announces.
pub open spec fn fopts_len_of(d: Seq<u8>) -> int {
    (d[5] & 0x0F) as int
}

/// Whether a byte string is a structurally valid MAC frame: MHDR, a full
/// frame header, the announced FOpts, an optional port octet with payload,
/// and the trailing MIC, all within the frame buffer size.
pub open spec fn parse_ok(d: Seq<u8>) -> bool {
    &&& 12 <= d.len() <= 256
    &&& d.len() >= 12 + fopts_len_of(d)
}

/// The MHDR byte of a frame.
pub open spec fn parsed_mhdr(d: Seq<u8>) -> u8 {
    d[0]
}

/// The device-address bytes of a frame, in on-air order.
pub open spec fn parsed_addr(d: Seq<u8>) -> Seq<u8> {
    d.subrange(1, 5)
}

/// The frame control byte of a frame.
pub open spec fn parsed_fctrl(d: Seq<u8>) -> u8 {
    d[5]
}

/// The 16-bit frame counter of a frame.
pub open spec fn parsed_fcnt(d: Seq<u8>) -> u16 {
    (d[6] + d[7] * 256) as u16
}

/// The FOpts bytes of a frame.
pub open spec fn parsed_fopts(d: Seq<u8>) -> Seq<u8> {
    d.subrange(8, 8 + fopts_len_of(d))
}

/// The port octet of a frame, where one is present.
pub open spec fn parsed_fport(d: Seq<u8>) -> Option<u8> {
    if d.len() > 12 + fopts_len_of(d) {
        Some(d[8 + fopts_len_of(d)])
    } else {
        None
    }
}

/// The (still encrypted) FRMPayload bytes of a frame.
pub open spec fn parsed_frm(d: Seq<u8>) -> Seq<u8> {
    if d.len() > 12 + fopts_len_of(d) {
        d.subrange(9 + fopts_len_of(d), d.len() - 4)
    } else {
        Seq::empty()
    }
}

/// The trailing MIC bytes of a frame.
pub open spec fn parsed_mic(d: Seq<u8>) -> Seq<u8> {
    d.subrange(d.len() - 4, d.len() as int)
}

/// A parsed MAC frame.
pub struct ParsedFrame {
    /// The MHDR byte.
    pub mhdr: u8,
    /// The device address, in on-air byte order.
    pub dev_addr: DevAddr,
    /// The raw frame control byte.
    pub f_ctrl: u8,
    /// The 16-bit frame counter from the header.
    pub f_cnt: u16,
    /// The plaintext FOpts bytes.
    pub f_opts: Vec<u8>,
    /// The port octet, where present.
    pub f_port: Option<u8>,
    /// The FRMPayload bytes, still encrypted.
    pub frm_payload: Vec<u8>,
    /// The trailing MIC.
    pub mic: [u8; 4],
}

/// Parse a received byte string as a MAC frame.
pub fn parse_frame(data: &[u8]) -> (r: Result<ParsedFrame, MacError>)
    ensures
        r is Ok <==> parse_ok(data@),
        r matches Err(e) ==> e == MacError::InvalidLength,
        r matches Ok(p) ==> {
            &&& p.mhdr == parsed_mhdr(data@)
            &&& p.dev_addr@ == parsed_addr(data@)
            &&& p.f_ctrl == parsed_fctrl(data@)
            &&& p.f_cnt == parsed_fcnt(data@)
            &&& p.f_opts@ == parsed_fopts(data@)
            &&& p.f_port == parsed_fport(data@)
            &&& p.frm_payload@ == parsed_frm(data@)
            &&& p.mic@ == parsed_mic(data@)
        },
{
    let len = data.len();
    if len < 12 || len > 256 {
        return Err(MacError::InvalidLength);
    }
    let foptslen = (data[5] & 0x0F) as usize;
    if len < 12 + foptslen {
        return Err(MacError::InvalidLength);
    }
    let dev_addr = DevAddr::new([data[1], data[2], data[3], data[4]]);
    proof {
        assert(dev_addr@ =~= parsed_addr(data@));
    }
    let f_cnt: u16 = data[6] as u16 + data[7] as u16 * 256;
    let mut f_opts: Vec<u8> = Vec::new();
    let mut i: usize = 8;
    while i < 8 + foptslen
        invariant
            8 <= i <= 8 + foptslen,
            foptslen == fopts_len_of(data@),
            12 + foptslen <= data@.len() <= 256,
            f_opts@.len() == i - 8,
            forall|m: int| 0 <= m < f_opts@.len() ==> f_opts@[m] == data@[8 + m],
        decreases 8 + foptslen - i,
    {
        f_opts.push(data[i]);
        i = i + 1;
    }
    proof {
        assert(f_opts@ =~= parsed_fopts(data@));
    }
    let (f_port, frm_payload) = if len > 12 + foptslen {
        let port = data[8 + foptslen];
        let mut frm: Vec<u8> = Vec::new();
        let mut j: usize = 9 + foptslen;
        while j < len - 4
            invariant
                9 + foptslen <= j <= len - 4,
                foptslen == fopts_len_of(data@),
                len == data@.len(),
                12 + foptslen < len <= 256,
                frm@.len() == j - 9 - foptslen,
                forall|m: int| 0 <= m < frm@.len() ==> frm@[m] == data@[9 + foptslen + m],
            decreases len - 4 - j,
        {
            frm.push(data[j]);
            j = j + 1;
        }
        proof {
            assert(frm@ =~= parsed_frm(data@));
        }
        (Some(port), frm)
    } else {
        let frm: Vec<u8> = Vec::new();
        proof {
            assert(frm@ =~= parsed_frm(data@));
        }
        (None, frm)
    };
    let mic = [data[len - 4], data[len - 3], data[len - 2], data[len - 1]];
    proof {
        assert(mic@ =~= parsed_mic(data@));
    }
    Ok(
        ParsedFrame {
            mhdr: data[0],
            dev_addr,
            f_ctrl: data[5],
            f_cnt,
            f_opts,
            f_port,
            frm_payload,
            mic,
        },
    )
}

/// The 32-bit counter a received 16-bit counter denotes against a stored
/// counter, per the rolling-window rule: the reconstruction must be strictly
/// greater than the stored value and at most `2^15` above it.
pub open spec fn reconstruct_spec(stored: u32, received: u16) -> Option<u32> {
    let c1 = (stored / 0x10000) * 0x10000 + received;
    let c2 = c1 + 0x10000;
    if stored < c1 <= stored + 0x8000 {
        Some(c1 as u32)
    } else if c2 <= 0xFFFF_FFFF && stored < c2 <= stored + 0x8000 {
        Some(c2 as u32)
    } else {
        None
    }
}

/// Reconstruct a full 32-bit downlink counter from its low sixteen bits.
pub fn reconstruct_fcnt(stored: u32, received: u16) -> (r: Option<u32>)
    ensures
        r == reconstruct_spec(stored, received),
        r matches Some(v) ==> stored < v <= stored + 0x8000 && v % 0x10000 == received,
{
    let base: u64 = (stored as u64 / 0x10000) * 0x10000;
    let c1: u64 = base + received as u64;
    let c2: u64 = c1 + 0x10000;
    let s = stored as u64;
    if s < c1 && c1 <= s + 0x8000 {
        let v = c1 as u32;
        proof {
            assert(v % 0x10000 == received) by (nonlinear_arith)
                requires
                    v == (stored as u64 / 0x10000) * 0x10000 + received,
                    received < 0x10000,
                    stored <= 0xFFFF_FFFFu32,
            ;
        }
        Some(v)
    } else if c2 <= 0xFFFF_FFFF && s < c2 && c2 <= s + 0x8000 {
        let v = c2 as u32;
        proof {
            assert(v % 0x10000 == received) by (nonlinear_arith)
                requires
                    v == (stored as u64 / 0x10000) * 0x10000 + 0x10000 + received,
                    received < 0x10000,
                    v <= 0xFFFF_FFFFu64,
            ;
        }
        Some(v)
    } else {
        None
    }
}

/// Check the trailing MIC of a frame against the MIC computed over the rest
/// of the frame with the given key, address, full counter and direction.
pub fn verify_mic(key: &AESKey, frame: &[u8], dev_addr: DevAddr, fcnt: u32, dir: Direction) -> (r:
    bool)
    requires
        4 <= frame@.len() <= 259,
    ensures
        r == (parsed_mic(frame@) == mic_bytes(
            key@,
            frame@.take(frame@.len() - 4),
            dev_addr@,
            fcnt,
            dir,
        )),
{
    let len = frame.len();
    let body = &frame[0..len - 4];
    proof {
        assert(body@ =~= frame@.take(frame@.len() - 4));
    }
    let computed = crypto::compute_mic(key, body, dev_addr, fcnt, dir);
    let ok = computed[0] == frame[len - 4] && computed[1] == frame[len - 3] && computed[2]
        == frame[len - 2] && computed[3] == frame[len - 1];
    proof {
        if ok {
            assert(parsed_mic(frame@) =~= computed@);
        } else {
            assert(parsed_mic(frame@) != computed@);
        }
    }
    ok
}

/// Every frame built by [`build_uplink_frame`] parses back to its parts,
/// and the MIC found by the parser is exactly the MIC of the rest of the
/// frame under the network session key: parsing then verifying succeeds.
pub proof fn lemma_uplink_frame_parses(
    session: SessionState,
    confirmed: bool,
    ack: bool,
    f_port: u8,
    data: Seq<u8>,
    f_opts: Seq<u8>,
)
    requires
        data.len() + f_opts.len() <= 242,
        f_opts.len() <= 15,
        session.dev_addr@.len() == 4,
    ensures
        ({
            let frame = uplink_frame_bytes(session, confirmed, ack, f_port, data, f_opts);
            let key = if f_port == 0 {
                session.nwk_skey@
            } else {
                session.app_skey@
            };
            &&& parse_ok(frame)
            &&& parsed_mhdr(frame) == uplink_mhdr(confirmed)
            &&& parsed_addr(frame) == session.dev_addr@
            &&& parsed_fcnt(frame) == (session.fcnt_up % 0x10000) as u16
            &&& parsed_fopts(frame) == f_opts
            &&& parsed_fport(frame) == Some(f_port)
            &&& parsed_frm(frame) == ctr_stream(
                key,
                session.dev_addr@,
                session.fcnt_up,
                Direction::Up,
                data,
            )
            &&& parsed_mic(frame) == mic_bytes(
                session.nwk_skey@,
                frame.take(frame.len() - 4),
                session.dev_addr@,
                session.fcnt_up,
                Direction::Up,
            )
        }),
{
    let f_ctrl = FCtrl {
        adr: false,
        adr_ack_req: false,
        ack,
        fpending: false,
        foptslen: f_opts.len() as u8,
    };
    let key = if f_port == 0 {
        session.nwk_skey@
    } else {
        session.app_skey@
    };
    let enc = ctr_stream(key, session.dev_addr@, session.fcnt_up, Direction::Up, data);
    let body = seq![uplink_mhdr(confirmed)] + fhdr_bytes(
        session.dev_addr@,
        f_ctrl,
        (session.fcnt_up % 0x10000) as u16,
        f_opts,
    ) + seq![f_port] + enc;
    let frame = uplink_frame_bytes(session, confirmed, ack, f_port, data, f_opts);
    assert(enc.len() == data.len());
    assert(body.len() == 9 + f_opts.len() + data.len());
    assert(frame.len() == body.len() + 4);
    lemma_fctrl_low_nibble(f_ctrl);
    assert(frame[5] == fctrl_byte(f_ctrl));
    assert(fopts_len_of(frame) == f_opts.len());
    assert(parse_ok(frame));
    assert(parsed_addr(frame) =~= session.dev_addr@);
    assert(parsed_fopts(frame) =~= f_opts);
    assert(parsed_fport(frame) == Some(f_port));
    assert(parsed_frm(frame) =~= enc);
    assert(parsed_mic(frame) =~= mic_bytes(
        session.nwk_skey@,
        body,
        session.dev_addr@,
        session.fcnt_up,
        Direction::Up,
    ));
    assert(frame.take(frame.len() - 4) =~= body);
    assert(parsed_fcnt(frame) == (session.fcnt_up % 0x10000) as u16) by {
        let lo = ((session.fcnt_up % 0x10000) as u16);
        assert(frame[6] == (lo % 256) as u8);
        assert(frame[7] == ((lo / 256) % 256) as u8);
        assert((lo % 256) + ((lo / 256) % 256) * 256 == lo);
    }
}

/// The concatenated on-air bytes of a command queue.
pub open spec fn serialize_commands(cmds: Seq<MacCommand>) -> Seq<u8>
    decreases cmds.len(),
{
    if cmds.len() == 0 {
        Seq::empty()
    } else {
        serialize_command(cmds[0]) + serialize_commands(cmds.skip(1))
    }
}

/// Serialization distributes over appending one command.
pub proof fn lemma_serialize_commands_push(cmds: Seq<MacCommand>, cmd: MacCommand)
    ensures
        serialize_commands(cmds.push(cmd)) == serialize_commands(cmds) + serialize_command(cmd),
    decreases cmds.len(),
{
    if cmds.len() == 0 {
        assert(cmds.push(cmd).skip(1) =~= Seq::<MacCommand>::empty());
        assert(cmds.push(cmd)[0] == cmd);
        assert(serialize_commands(Seq::<MacCommand>::empty()) =~= Seq::<u8>::empty());
        assert(serialize_commands(cmds.push(cmd)) =~= serialize_command(cmd));
        assert(serialize_commands(cmds) + serialize_command(cmd) =~= serialize_command(cmd));
    } else {
        lemma_serialize_commands_push(cmds.skip(1), cmd);
        assert(cmds.push(cmd).skip(1) =~= cmds.skip(1).push(cmd));
        assert(serialize_commands(cmds.push(cmd)) =~= serialize_commands(cmds) + serialize_command(
            cmd,
        ));
    }
}

/// The command sequence encoded in a plaintext MAC-command byte string:
/// parsing stops at the first unknown command and discards what follows.
pub open spec fn parse_commands(p: Seq<u8>) -> Seq<MacCommand>
    decreases p.len(),
{
    if p.len() == 0 {
        Seq::empty()
    } else {
        match parse_command(p[0], p.skip(1)) {
            Some(cmd) => {
                if 1 + cmd_len(cmd) <= p.len() {
                    seq![cmd] + parse_commands(p.skip(1 + cmd_len(cmd)))
                } else {
                    seq![cmd]
                }
            },
            None => Seq::empty(),
        }
    }
}

/// A command parsed from the head of a byte string fits inside it.
pub proof fn lemma_parse_command_fits(p: Seq<u8>)
    requires
        p.len() > 0,
        parse_command(p[0], p.skip(1)) is Some,
    ensures
        1 + cmd_len(parse_command(p[0], p.skip(1))->Some_0) <= p.len(),
{
}

/// Whether the pending answers are piggybacked in a data frame's FOpts:
/// only on a non-zero port and only where they fit beside the payload.
pub open spec fn piggyback_ok(pending: Seq<MacCommand>, f_port: u8, data_len: int) -> bool {
    &&& f_port != 0
    &&& serialize_commands(pending).len() <= 15
    &&& data_len + serialize_commands(pending).len() <= 242
}

/// The estimated time on air of a LoRa frame in milliseconds, for
/// coding rate 4/5 with explicit header: the preamble of 12.25 symbols
/// plus the payload symbols, at the symbol duration `2^SF / BW`.
pub open spec fn time_on_air_ms_spec(len: int, sf: int, bw: int) -> int {
    let num = 8 * len - 4 * sf + 44;
    let extra = if num <= 0 {
        0int
    } else {
        ((num + 4 * sf - 1) / (4 * sf)) * 5
    };
    let symbols_x4 = 49 + 4 * (8 + extra);
    let t_sym_us = pow2(sf) * 1_000_000 / bw;
    symbols_x4 * t_sym_us / 4000
}

/// `2^n` for small `n`.
pub open spec fn pow2(n: int) -> int
    decreases n,
{
    if n <= 0 {
        1int
    } else {
        2 * pow2(n - 1)
    }
}

/// Estimate the time on air of a frame.
pub fn time_on_air_ms(len: usize, sf: u8, bw: u32) -> (r: u64)
    requires
        len <= 256,
        7 <= sf <= 12,
        bw == 125_000 || bw == 500_000,
    ensures
        r == time_on_air_ms_spec(len as int, sf as int, bw as int),
{
    let num: i64 = 8 * (len as i64) - 4 * (sf as i64) + 44;
    let extra: u64 = if num <= 0 {
        0
    } else {
        ((num as u64 + 4 * (sf as u64) - 1) / (4 * (sf as u64))) * 5
    };
    proof {
        assert(extra <= 400) by (nonlinear_arith)
            requires
                num > 0 ==> extra == (((num as u64) + 4 * (sf as u64) - 1) / (4 * (sf
                    as u64))) * 5,
                num <= 0 ==> extra == 0,
                0 < num ==> num <= 2092,
                7 <= sf <= 12,
        ;
    }
    let symbols_x4: u64 = 49 + 4 * (8 + extra);
    let p: u64 = match sf {
        7 => 128,
        8 => 256,
        9 => 512,
        10 => 1024,
        11 => 2048,
        _ => 4096,
    };
    proof {
        reveal_with_fuel(pow2, 13);
        assert(p == pow2(sf as int));
    }
    let t_sym_us: u64 = p * 1_000_000 / (bw as u64);
    proof {
        assert(t_sym_us <= 32768);
        assert(symbols_x4 * t_sym_us <= 1681 * 32768) by (nonlinear_arith)
            requires
                symbols_x4 <= 1681u64,
                t_sym_us <= 32768u64,
        ;
    }
    symbols_x4 * t_sym_us / 4000
}

/// The MAC layer: PHY access, the region, the session and the queue of
/// pending MAC-command answers.
pub struct MacLayer<R: Radio> {
    /// The PHY layer.
    pub phy: PhyLayer<R>,
    /// The regional channel plan and parameters.
    pub region: US915,
    /// The mutable session state.
    pub session: SessionState,
    /// MAC-command answers waiting to be sent (at most eight).
    pub pending_commands: Vec<MacCommand>,
    /// Whether the next uplink must carry the ACK bit.
    pub ack_pending: bool,
    /// Maximum duty cycle exponent requested by the network; zero means
    /// no duty-cycle limitation.
    pub max_duty_cycle: u8,
    /// Duty-cycle and consumption accounting.
    pub power: PowerManager,
    /// Transmissions per confirmed uplink, set by LinkADRReq (1..=15).
    pub nb_trans: u8,
    /// Whether a confirmed uplink still awaits its acknowledgment.
    pub confirm_pending: bool,
    /// Remaining retransmissions of the pending confirmed uplink.
    pub confirm_retries_left: u8,
    /// The bytes of the pending confirmed uplink, kept for retransmission.
    pub pending_frame: Vec<u8>,
    /// The signal-to-noise ratio of the last reception, for DevStatusAns.
    pub last_snr: i8,
}

impl<R: Radio> MacLayer<R> {
    /// The invariant of a well-formed MAC layer.
    pub open spec fn wf(&self) -> bool {
        &&& self.region.wf()
        &&& self.pending_commands@.len() <= 8
        &&& 1 <= self.nb_trans <= 15
        &&& self.pending_frame@.len() <= 256
    }

    /// Whether the duty-cycle gate refuses transmissions: a cap was
    /// configured and the accounted duty cycle exceeds it.
    pub open spec fn duty_blocked(&self) -> bool {
        &&& self.max_duty_cycle > 0
        &&& crate::power::duty_cycle_permille_spec(
            crate::power::sat_add64(self.power.metrics.tx_time, self.power.metrics.rx_time),
            self.power.metrics.sleep_time,
        ) > self.power.config.max_duty_cycle_permille
    }

    /// The fields of the session that identify it: everything except the
    /// frame counters.
    pub open spec fn session_identity_unchanged(&self, other: &Self) -> bool {
        &&& self.session.dev_addr == other.session.dev_addr
        &&& self.session.nwk_skey@ == other.session.nwk_skey@
        &&& self.session.app_skey@ == other.session.app_skey@
        &&& self.session.dev_nonce == other.session.dev_nonce
        &&& self.session.activation == other.session.activation
    }

    /// Create a new MAC layer.
    pub fn new(radio: R, region: US915, session: SessionState) -> (r: Self)
        requires
            region.wf(),
        ensures
            r.wf(),
            r.region == region,
            r.session == session,
            r.pending_commands@.len() == 0,
            r.ack_pending == false,
            r.max_duty_cycle == 0,
            r.nb_trans == 1,
            !r.confirm_pending,
            r.confirm_retries_left == 0,
            r.last_snr == 0,
    {
        Self {
            phy: PhyLayer::new(radio),
            region,
            session,
            pending_commands: Vec::new(),
            ack_pending: false,
            max_duty_cycle: 0,
            power: PowerManager::new(PowerConfig::default()),
            nb_trans: 1,
            confirm_pending: false,
            confirm_retries_left: 0,
            pending_frame: Vec::new(),
            last_snr: 0,
        }
    }

    /// Borrow the radio.
    pub fn get_radio(&self) -> (r: &R)
        ensures
            r == &self.phy.radio,
    {
        &self.phy.radio
    }

    /// The current session state.
    pub fn get_session_state(&self) -> (r: SessionState)
        ensures
            r == self.session,
    {
        self.session
    }

    /// The current device address.
    pub fn get_device_address(&self) -> (r: Option<DevAddr>)
        ensures
            r == Some(self.session.dev_addr),
    {
        Some(self.session.dev_addr)
    }

    /// The uplink frame counter.
    pub fn get_frame_counter_up(&self) -> (r: u32)
        ensures
            r == self.session.fcnt_up,
    {
        self.session.fcnt_up
    }

    /// The downlink frame counter.
    pub fn get_frame_counter_down(&self) -> (r: u32)
        ensures
            r == self.session.fcnt_down,
    {
        self.session.fcnt_down
    }

    /// The platform clock in milliseconds.
    pub fn get_time(&mut self) -> (r: u32)
        ensures
            *final(self) == (MacLayer { phy: final(self).phy, ..*old(self) }),
            final(self).wf() == old(self).wf(),
    {
        self.phy.get_time()
    }

    /// Configure the radio for reception.
    pub fn set_rx_config(&mut self, frequency: u32, data_rate: DataRate, timeout_ms: u32) -> (r:
        Result<(), MacError>)
        ensures
            *final(self) == (MacLayer { phy: final(self).phy, ..*old(self) }),
            final(self).wf() == old(self).wf(),
    {
        match self.phy.configure_rx(frequency, data_rate, timeout_ms) {
            Ok(()) => Ok(()),
            Err(e) => Err(MacError::Radio(e)),
        }
    }

    /// Queue a MAC command to be sent with the next uplink.
    pub fn queue_mac_command(&mut self, command: MacCommand) -> (r: Result<(), MacError>)
        requires
            old(self).wf(),
        ensures
            final(self).wf(),
            *final(self) == (MacLayer {
                pending_commands: final(self).pending_commands,
                ..*old(self)
            }),
            if old(self).pending_commands@.len() < 8 {
                r is Ok && final(self).pending_commands@ == old(self).pending_commands@.push(
                    command,
                )
            } else {
                r == Err::<(), MacError>(MacError::BufferTooSmall)
                    && final(self).pending_commands@ == old(self).pending_commands@
            },
    {
        if self.pending_commands.len() < MAX_MAC_COMMANDS {
            self.pending_commands.push(command);
            Ok(())
        } else {
            Err(MacError::BufferTooSmall)
        }
    }

    /// Raise the downlink frame counter by one, wrapping.
    pub fn increment_frame_counter_down(&mut self)
        ensures
            final(self).session.fcnt_down == wrap_inc(old(self).session.fcnt_down),
            final(self).session == (SessionState {
                fcnt_down: final(self).session.fcnt_down,
                ..old(self).session
            }),
            *final(self) == (MacLayer { session: final(self).session, ..*old(self) }),
            final(self).wf() == old(self).wf(),
    {
        self.session.fcnt_down = self.session.fcnt_down.wrapping_add(1);
    }

    /// Receive a frame from the radio.
    pub fn receive(&mut self) -> (r: Result<Vec<u8>, MacError>)
        ensures
            *final(self) == (MacLayer { phy: final(self).phy, ..*old(self) }),
            final(self).wf() == old(self).wf(),
    {
        match self.phy.receive() {
            Ok(v) => Ok(v),
            Err(e) => Err(MacError::Radio(e)),
        }
    }

    /// Select the next uplink channel, round-robin over the enabled set.
    pub fn get_next_channel(&mut self) -> (r: Result<Channel, MacError>)
        requires
            old(self).wf(),
        ensures
            final(self).wf(),
            final(self).region.channels@ == old(self).region.channels@,
            final(self).region.params_unchanged(&old(self).region),
            final(self).session == old(self).session,
            final(self).pending_commands@ == old(self).pending_commands@,
            final(self).ack_pending == old(self).ack_pending,
            ({
                let en = enabled_seq(old(self).region.channels@);
                if en.len() == 0 {
                    r == Err::<Channel, MacError>(MacError::InvalidChannel)
                } else {
                    r == Ok::<Channel, MacError>(en[((old(self).region.last_channel + 1) as int) % (en.len() as int)])
                }
            }),
    {
        match self.region.get_next_channel() {
            Some(c) => Ok(c),
            None => Err(MacError::InvalidChannel),
        }
    }

    /// The RX1 window parameters for the next selected channel.
    pub fn get_rx1_params(&mut self) -> (r: Result<(u32, u8), MacError>)
        requires
            old(self).wf(),
        ensures
            final(self).wf(),
            final(self).session == old(self).session,
            enabled_seq(old(self).region.channels@).len() == 0 <==> r == Err::<(u32, u8), MacError>(
                MacError::InvalidChannel,
            ),
            r matches Ok(p) ==> ({
                let en = enabled_seq(old(self).region.channels@);
                let c = en[((old(self).region.last_channel + 1) as int) % (en.len() as int)];
                &&& p.0 == 923_300_000 + 600_000 * (uplink_index_of(c) % 8)
                &&& p.1 == rx1_downlink_dr(
                    us915_dr_index(old(self).region.data_rate),
                    old(self).region.rx1_dr_offset as int,
                )
            }),
    {
        let channel = match self.region.get_next_channel() {
            Some(c) => c,
            None => {
                return Err(MacError::InvalidChannel);
            },
        };
        proof {
            lemma_channel_from_table(self.region.channels@, channel);
        }
        Ok(self.region.rx1_window(&channel))
    }

    /// The RX1 window parameters for the most recently selected channel,
    /// without advancing the selector.
    pub fn current_rx1_params(&self) -> (r: Result<(u32, u8), MacError>)
        requires
            self.wf(),
        ensures
            enabled_seq(self.region.channels@).len() == 0 <==> r == Err::<(u32, u8), MacError>(
                MacError::InvalidChannel,
            ),
            r matches Ok(p) ==> ({
                let en = enabled_seq(self.region.channels@);
                let c = en[(self.region.last_channel as int) % (en.len() as int)];
                &&& p.0 == 923_300_000 + 600_000 * (uplink_index_of(c) % 8)
                &&& p.1 == rx1_downlink_dr(
                    us915_dr_index(self.region.data_rate),
                    self.region.rx1_dr_offset as int,
                )
            }),
    {
        let enabled = self.region.get_enabled_channels();
        if enabled.len() == 0 {
            return Err(MacError::InvalidChannel);
        }
        let idx = self.region.last_channel % enabled.len();
        let channel = enabled[idx];
        proof {
            lemma_channel_from_table(self.region.channels@, channel);
        }
        Ok(self.region.rx1_window(&channel))
    }

    /// Send the pending MAC-command answers as the payload of an
    /// FPort-0 uplink, for answers that do not fit beside application
    /// data in FOpts.  On success the queue is empty and the uplink
    /// counter moved by one.
    pub fn flush_mac_commands(&mut self) -> (r: Result<(), MacError>)
        requires
            old(self).wf(),
        ensures
            final(self).wf(),
            final(self).session_identity_unchanged(old(self)),
            final(self).session.fcnt_down == old(self).session.fcnt_down,
            old(self).pending_commands@.len() == 0 ==> r is Ok && *final(self) == *old(self),
            r is Ok && old(self).pending_commands@.len() > 0 ==> final(self).pending_commands@.len() == 0 && final(self).session.fcnt_up == wrap_inc(
                old(self).session.fcnt_up,
            ),
            r is Err ==> final(self).pending_commands@ == old(self).pending_commands@ && final(self).session.fcnt_up == old(self).session.fcnt_up,
            r == Err::<(), MacError>(MacError::Timeout) ==> old(self).duty_blocked(),
            r == Err::<(), MacError>(MacError::InvalidChannel) ==> enabled_seq(
                old(self).region.channels@,
            ).len() == 0,
    {
        if self.pending_commands.len() == 0 {
            return Ok(());
        }
        let serialized = self.serialize_pending();
        proof {
            lemma_serialize_commands_len(self.pending_commands@);
        }
        match self.send_data_frame(false, 0, serialized.as_slice()) {
            Ok(()) => {
                self.pending_commands = Vec::new();
                Ok(())
            },
            Err(e) => Err(e),
        }
    }

    /// Serialize the whole pending queue.
    fn serialize_pending(&self) -> (r: Vec<u8>)
        ensures
            r@ == serialize_commands(self.pending_commands@),
    {
        let mut out: Vec<u8> = Vec::new();
        let mut i: usize = 0;
        while i < self.pending_commands.len()
            invariant
                0 <= i <= self.pending_commands@.len(),
                out@ == serialize_commands(self.pending_commands@.take(i as int)),
            decreases self.pending_commands@.len() - i,
        {
            let bytes = self.pending_commands[i].to_bytes();
            let mut j: usize = 0;
            let ghost before = out@;
            while j < bytes.len()
                invariant
                    0 <= j <= bytes@.len(),
                    out@ =~= before + bytes@.take(j as int),
                decreases bytes@.len() - j,
            {
                out.push(bytes[j]);
                proof {
                    assert(bytes@.take(j + 1) =~= bytes@.take(j as int).push(bytes@[j as int]));
                }
                j = j + 1;
            }
            proof {
                assert(bytes@.take(bytes@.len() as int) =~= bytes@);
                lemma_serialize_commands_push(
                    self.pending_commands@.take(i as int),
                    self.pending_commands@[i as int],
                );
                assert(self.pending_commands@.take(i + 1) =~= self.pending_commands@.take(
                    i as int,
                ).push(self.pending_commands@[i as int]));
            }
            i = i + 1;
        }
        proof {
            assert(self.pending_commands@.take(self.pending_commands@.len() as int)
                =~= self.pending_commands@);
        }
        out
    }

    /// Send an unconfirmed data uplink.  On success the uplink frame counter
    /// is raised by exactly one (wrapping), so counters of successive
    /// successful uplinks strictly increase modulo `2^32`.
    pub fn send_unconfirmed(&mut self, f_port: u8, data: &[u8]) -> (r: Result<(), MacError>)
        requires
            old(self).wf(),
        ensures
            final(self).wf(),
            final(self).session_identity_unchanged(old(self)),
            final(self).session.fcnt_down == old(self).session.fcnt_down,
            final(self).region.channels@ == old(self).region.channels@,
            final(self).region.params_unchanged(&old(self).region),
            r is Ok ==> final(self).session.fcnt_up == wrap_inc(old(self).session.fcnt_up),
            r is Ok ==> !final(self).ack_pending,
            r is Ok ==> !final(self).confirm_pending,
            r is Ok ==> final(self).pending_commands@ == (if piggyback_ok(
                old(self).pending_commands@,
                f_port,
                data@.len() as int,
            ) {
                Seq::<MacCommand>::empty()
            } else {
                old(self).pending_commands@
            }),
            r is Err ==> final(self).session.fcnt_up == old(self).session.fcnt_up
                && final(self).pending_commands@ == old(self).pending_commands@
                && final(self).ack_pending == old(self).ack_pending,
            r == Err::<(), MacError>(MacError::BufferTooSmall) <==> data@.len() > 242,
            r == Err::<(), MacError>(MacError::Timeout) <==> data@.len() <= 242 && old(self).duty_blocked(),
            r == Err::<(), MacError>(MacError::InvalidChannel) ==> enabled_seq(
                old(self).region.channels@,
            ).len() == 0,
            data@.len() <= 242 && !old(self).duty_blocked() && enabled_seq(
                old(self).region.channels@,
            ).len() == 0 ==> r == Err::<(), MacError>(MacError::InvalidChannel),
            r matches Err(e) ==> e == MacError::InvalidChannel || e == MacError::Timeout || e
                == MacError::BufferTooSmall || (e matches MacError::Radio(_)),
    {
        self.send_data_frame(false, f_port, data)
    }

    /// Send a confirmed data uplink: the same frame as the unconfirmed
    /// path but for the MHDR byte, and on success a pending acknowledgment
    /// is recorded, with the frame retained for up to `nb_trans - 1`
    /// retransmissions until a downlink acknowledges it or the budget
    /// expires.
    pub fn send_confirmed(&mut self, f_port: u8, data: &[u8]) -> (r: Result<(), MacError>)
        requires
            old(self).wf(),
        ensures
            final(self).wf(),
            final(self).session_identity_unchanged(old(self)),
            final(self).session.fcnt_down == old(self).session.fcnt_down,
            final(self).region.channels@ == old(self).region.channels@,
            final(self).region.params_unchanged(&old(self).region),
            r is Ok ==> final(self).session.fcnt_up == wrap_inc(old(self).session.fcnt_up),
            r is Ok ==> !final(self).ack_pending,
            r is Ok ==> final(self).confirm_pending && final(self).confirm_retries_left == old(self).nb_trans - 1,
            r is Ok ==> final(self).pending_frame@ == uplink_frame_bytes(
                old(self).session,
                true,
                old(self).ack_pending,
                f_port,
                data@,
                (if piggyback_ok(old(self).pending_commands@, f_port, data@.len() as int) {
                    serialize_commands(old(self).pending_commands@)
                } else {
                    Seq::<u8>::empty()
                }),
            ),
            r is Err ==> final(self).session.fcnt_up == old(self).session.fcnt_up
                && final(self).pending_commands@ == old(self).pending_commands@
                && final(self).ack_pending == old(self).ack_pending
                && final(self).confirm_pending == old(self).confirm_pending,
            r == Err::<(), MacError>(MacError::BufferTooSmall) <==> data@.len() > 242,
            r == Err::<(), MacError>(MacError::Timeout) <==> data@.len() <= 242 && old(self).duty_blocked(),
            r == Err::<(), MacError>(MacError::InvalidChannel) ==> enabled_seq(
                old(self).region.channels@,
            ).len() == 0,
            r matches Err(e) ==> e == MacError::InvalidChannel || e == MacError::Timeout || e
                == MacError::BufferTooSmall || (e matches MacError::Radio(_)),
    {
        self.send_data_frame(true, f_port, data)
    }

    /// The shared uplink path: refuse oversize payloads and duty-cycle
    /// back-off, select a channel, configure the PHY, build the frame
    /// (piggybacking pending answers where they fit), transmit, account
    /// the time on air, and raise the uplink counter only on success.
    fn send_data_frame(&mut self, confirmed: bool, f_port: u8, data: &[u8]) -> (r: Result<
        (),
        MacError,
    >)
        requires
            old(self).wf(),
        ensures
            final(self).wf(),
            final(self).session_identity_unchanged(old(self)),
            final(self).session.fcnt_down == old(self).session.fcnt_down,
            final(self).region.channels@ == old(self).region.channels@,
            final(self).region.params_unchanged(&old(self).region),
            final(self).max_duty_cycle == old(self).max_duty_cycle,
            final(self).nb_trans == old(self).nb_trans,
            r is Ok ==> final(self).session.fcnt_up == wrap_inc(old(self).session.fcnt_up),
            r is Ok ==> !final(self).ack_pending,
            r is Ok ==> final(self).pending_commands@ == (if piggyback_ok(
                old(self).pending_commands@,
                f_port,
                data@.len() as int,
            ) {
                Seq::<MacCommand>::empty()
            } else {
                old(self).pending_commands@
            }),
            r is Ok ==> final(self).confirm_pending == confirmed,
            r is Ok && confirmed ==> final(self).confirm_retries_left == old(self).nb_trans - 1
                && final(self).pending_frame@ == uplink_frame_bytes(
                old(self).session,
                true,
                old(self).ack_pending,
                f_port,
                data@,
                (if piggyback_ok(old(self).pending_commands@, f_port, data@.len() as int) {
                    serialize_commands(old(self).pending_commands@)
                } else {
                    Seq::<u8>::empty()
                }),
            ),
            r is Err ==> final(self).session.fcnt_up == old(self).session.fcnt_up
                && final(self).pending_commands@ == old(self).pending_commands@
                && final(self).ack_pending == old(self).ack_pending
                && final(self).confirm_pending == old(self).confirm_pending
                && final(self).confirm_retries_left == old(self).confirm_retries_left
                && final(self).pending_frame@ == old(self).pending_frame@,
            r == Err::<(), MacError>(MacError::BufferTooSmall) <==> data@.len() > 242,
            r == Err::<(), MacError>(MacError::BufferTooSmall) ==> *final(self) == *old(self),
            r == Err::<(), MacError>(MacError::Timeout) <==> data@.len() <= 242 && old(self).duty_blocked(),
            r == Err::<(), MacError>(MacError::Timeout) ==> *final(self) == *old(self),
            r == Err::<(), MacError>(MacError::InvalidChannel) ==> enabled_seq(
                old(self).region.channels@,
            ).len() == 0,
            data@.len() <= 242 && !old(self).duty_blocked() && enabled_seq(
                old(self).region.channels@,
            ).len() == 0 ==> r == Err::<(), MacError>(MacError::InvalidChannel),
            r matches Err(e) ==> e == MacError::InvalidChannel || e == MacError::Timeout || e
                == MacError::BufferTooSmall || (e matches MacError::Radio(_)),
    {
        // A payload beyond the MAC cap cannot be framed.
        if data.len() > 242 {
            return Err(MacError::BufferTooSmall);
        }
        // Back off while the configured duty-cycle cap is exceeded.
        if self.max_duty_cycle > 0 && self.power.is_duty_cycle_exceeded() {
            return Err(MacError::Timeout);
        }
        let channel = match self.region.get_next_channel() {
            Some(c) => c,
            None => {
                return Err(MacError::InvalidChannel);
            },
        };
        let data_rate = self.region.get_data_rate();
        let power_dbm = self.region.tx_power_dbm();
        if let Err(e) = self.phy.configure_tx(&channel, data_rate, power_dbm) {
            return Err(MacError::Radio(e));
        }
        let serialized = self.serialize_pending();
        let piggyback = f_port != 0 && serialized.len() <= 15 && data.len() + serialized.len()
            <= 242;
        let f_opts = if piggyback {
            serialized
        } else {
            Vec::new()
        };
        let frame = build_uplink_frame(
            &self.session,
            confirmed,
            self.ack_pending,
            f_port,
            data,
            &f_opts,
        );
        match self.phy.transmit(frame.as_slice()) {
            Ok(()) => {
                self.session.fcnt_up = self.session.fcnt_up.wrapping_add(1);
                self.ack_pending = false;
                if piggyback {
                    self.pending_commands = Vec::new();
                }
                let toa = time_on_air_ms(
                    frame.len(),
                    data_rate.spreading_factor(),
                    data_rate.bandwidth(),
                );
                self.power.record_tx(toa);
                if confirmed {
                    self.confirm_pending = true;
                    self.confirm_retries_left = self.nb_trans - 1;
                    self.pending_frame = frame;
                } else {
                    self.confirm_pending = false;
                }
                Ok(())
            },
            Err(e) => Err(MacError::Radio(e)),
        }
    }

    /// Retransmit the pending confirmed uplink unchanged, consuming one
    /// remaining attempt; an exhausted budget clears the pending
    /// acknowledgment instead.  The frame counter does not move: a
    /// retransmission repeats the original frame.
    pub fn retransmit_pending(&mut self) -> (r: Result<bool, MacError>)
        requires
            old(self).wf(),
        ensures
            final(self).wf(),
            final(self).session == old(self).session,
            final(self).pending_commands@ == old(self).pending_commands@,
            final(self).ack_pending == old(self).ack_pending,
            final(self).region.channels@ == old(self).region.channels@,
            final(self).region.params_unchanged(&old(self).region),
            final(self).pending_frame@ == old(self).pending_frame@,
            !old(self).confirm_pending ==> r == Ok::<bool, MacError>(false) && *final(self)
                == *old(self),
            old(self).confirm_pending && old(self).confirm_retries_left == 0 ==> r == Ok::<
                bool,
                MacError,
            >(false) && !final(self).confirm_pending,
            r == Ok::<bool, MacError>(true) ==> old(self).confirm_pending && old(self).confirm_retries_left > 0 && final(self).confirm_pending && final(self).confirm_retries_left == old(self).confirm_retries_left - 1,
            r is Err ==> final(self).confirm_pending == old(self).confirm_pending && final(self).confirm_retries_left == old(self).confirm_retries_left,
    {
        if !self.confirm_pending {
            return Ok(false);
        }
        if self.confirm_retries_left == 0 {
            self.confirm_pending = false;
            return Ok(false);
        }
        let channel = match self.region.get_next_channel() {
            Some(c) => c,
            None => {
                return Err(MacError::InvalidChannel);
            },
        };
        let data_rate = self.region.get_data_rate();
        let power_dbm = self.region.tx_power_dbm();
        if let Err(e) = self.phy.configure_tx(&channel, data_rate, power_dbm) {
            return Err(MacError::Radio(e));
        }
        match self.phy.transmit(self.pending_frame.as_slice()) {
            Ok(()) => {
                self.confirm_retries_left = self.confirm_retries_left - 1;
                let toa = time_on_air_ms(
                    self.pending_frame.len(),
                    data_rate.spreading_factor(),
                    data_rate.bandwidth(),
                );
                self.power.record_tx(toa);
                Ok(true)
            },
            Err(e) => Err(MacError::Radio(e)),
        }
    }
}

/// A command queue serializes to at most six bytes per command.
proof fn lemma_serialize_commands_len(cmds: Seq<MacCommand>)
    ensures
        serialize_commands(cmds).len() <= 6 * cmds.len(),
    decreases cmds.len(),
{
    if cmds.len() > 0 {
        lemma_serialize_commands_len(cmds.skip(1));
        assert(serialize_command(cmds[0]).len() <= 6);
    }
}

/// A channel handed out by the round-robin selector belongs to the table.
proof fn lemma_channel_from_table(s: Seq<Channel>, c: Channel)
    requires
        s.len() == 72,
        forall|i: int| 0 <= i < 72 ==> channel_shape(#[trigger] s[i], i),
        enabled_seq(s).len() > 0,
        exists|k: int| 0 <= k < enabled_seq(s).len() && enabled_seq(s)[k] == c,
    ensures
        is_uplink_channel(c),
{
    crate::region::lemma_enabled_seq_membership(s);
    let k = choose|k: int| 0 <= k < enabled_seq(s).len() && enabled_seq(s)[k] == c;
    assert(s.contains(c));
    let i = choose|i: int| 0 <= i < s.len() && s[i] == c;
    crate::region::lemma_table_channel_is_uplink(c, i);
}

/// The DevStatus margin: the last SNR reading clamped to -32..=31.
pub open spec fn snr_margin(snr: i8) -> i8 {
    if snr < -32 {
        -32i8
    } else if snr > 31 {
        31i8
    } else {
        snr
    }
}

/// The request commands that enqueue an answer when processed.
pub open spec fn is_request(cmd: MacCommand) -> bool {
    ||| cmd == MacCommand::LinkCheckReq
    ||| (cmd matches MacCommand::LinkADRReq { .. })
    ||| (cmd matches MacCommand::DutyCycleReq { .. })
    ||| (cmd matches MacCommand::RXParamSetupReq { .. })
    ||| cmd == MacCommand::DevStatusReq
    ||| (cmd matches MacCommand::NewChannelReq { .. })
    ||| (cmd matches MacCommand::RXTimingSetupReq { .. })
    ||| (cmd matches MacCommand::TxParamSetupReq { .. })
    ||| (cmd matches MacCommand::DlChannelReq { .. })
}

impl<R: Radio> MacLayer<R> {
    /// Process one received MAC command: validate each field against the
    /// region, mutate only the state whose field was accepted, and enqueue
    /// the matching answer whose flags report exactly the validator
    /// outcomes.  A full answer queue refuses the request untouched.
    pub fn process_mac_command(&mut self, command: MacCommand) -> (r: Result<(), MacError>)
        requires
            old(self).wf(),
        ensures
            final(self).wf(),
            final(self).session == old(self).session,
            final(self).ack_pending == old(self).ack_pending,
            final(self).confirm_pending == old(self).confirm_pending,
            final(self).confirm_retries_left == old(self).confirm_retries_left,
            final(self).pending_frame@ == old(self).pending_frame@,
            final(self).last_snr == old(self).last_snr,
            !(command matches MacCommand::LinkADRReq { .. }) ==> final(self).nb_trans == old(
                self,
            ).nb_trans,
            command matches MacCommand::LinkCheckAns { .. } ==> r is Ok && *final(self) == *old(self),
            command == MacCommand::DutyCycleAns ==> r is Ok && *final(self) == *old(self),
            command matches MacCommand::DevStatusAns { .. } ==> r is Ok && *final(self) == *old(self),
            command == MacCommand::RXTimingSetupAns ==> r is Ok && *final(self) == *old(self),
            command == MacCommand::TxParamSetupAns ==> r is Ok && *final(self) == *old(self),
            command matches MacCommand::LinkADRAns {
                power_ack,
                data_rate_ack,
                channel_mask_ack,
            } ==> *final(self) == *old(self) && (r is Ok <==> power_ack && data_rate_ack
                && channel_mask_ack),
            command matches MacCommand::RXParamSetupAns {
                rx1_dr_offset_ack,
                rx2_data_rate_ack,
                channel_ack,
            } ==> *final(self) == *old(self) && (r is Ok <==> rx1_dr_offset_ack
                && rx2_data_rate_ack && channel_ack),
            command matches MacCommand::NewChannelAns { channel_freq_ok, data_rate_ok } ==> *final(self) == *old(self) && (r is Ok <==> channel_freq_ok && data_rate_ok),
            command matches MacCommand::DlChannelAns { channel_freq_ok, uplink_freq_exists }
                ==> *final(self) == *old(self) && (r is Ok <==> channel_freq_ok
                && uplink_freq_exists),
            is_request(command) && old(self).pending_commands@.len() >= 8 ==> r == Err::<
                (),
                MacError,
            >(MacError::BufferTooSmall) && *final(self) == *old(self),
            command == MacCommand::LinkCheckReq && old(self).pending_commands@.len() < 8 ==> r
                is Ok && final(self).pending_commands@ == old(self).pending_commands@.push(
                MacCommand::LinkCheckReq,
            ) && final(self).region == old(self).region,
            command matches MacCommand::LinkADRReq {
                data_rate,
                tx_power,
                ch_mask,
                ch_mask_cntl,
                nb_trans,
            } ==> old(self).pending_commands@.len() < 8 ==> ({
                let p_ok = tx_power <= 14;
                let d_ok = data_rate <= 4;
                let m_ok = ch_mask_cntl <= 4;
                &&& r is Ok
                &&& final(self).pending_commands@ == old(self).pending_commands@.push(
                    MacCommand::LinkADRAns {
                        power_ack: p_ok,
                        data_rate_ack: d_ok,
                        channel_mask_ack: m_ok,
                    },
                )
                &&& final(self).region.tx_power == (if p_ok {
                    tx_power
                } else {
                    old(self).region.tx_power
                })
                &&& final(self).region.data_rate == (if d_ok {
                    crate::region::us915_dr_from_index(data_rate)
                } else {
                    old(self).region.data_rate
                })
                &&& (m_ok ==> crate::region::mask_applied(
                    old(self).region.channels@,
                    final(self).region.channels@,
                    ch_mask,
                    ch_mask_cntl,
                ))
                &&& (!m_ok ==> final(self).region.channels@ == old(self).region.channels@)
                &&& final(self).region.rx1_dr_offset == old(self).region.rx1_dr_offset
                &&& final(self).region.rx2_frequency == old(self).region.rx2_frequency
                &&& final(self).region.rx2_data_rate == old(self).region.rx2_data_rate
                &&& final(self).region.rx1_delay_ms == old(self).region.rx1_delay_ms
                &&& final(self).nb_trans == (if 1 <= nb_trans <= 15 {
                    nb_trans
                } else {
                    old(self).nb_trans
                })
            }),
            command matches MacCommand::DutyCycleReq { max_duty_cycle } ==> old(self).pending_commands@.len() < 8 ==> (if max_duty_cycle <= 15 {
                r is Ok && final(self).max_duty_cycle == max_duty_cycle && final(self).pending_commands@ == old(self).pending_commands@.push(MacCommand::DutyCycleAns)
                    && final(self).region == old(self).region && final(self).power.config.max_duty_cycle_permille == 1000u32 >> max_duty_cycle
            } else {
                r == Err::<(), MacError>(MacError::InvalidValue) && *final(self) == *old(self)
            }),
            command matches MacCommand::RXParamSetupReq { rx1_dr_offset, rx2_data_rate, freq }
                ==> old(self).pending_commands@.len() < 8 ==> ({
                let off_ok = rx1_dr_offset <= 3;
                let dr_ok = 8 <= rx2_data_rate <= 13;
                let ch_ok = 902_000_000 <= freq <= 928_000_000;
                &&& r is Ok
                &&& final(self).pending_commands@ == old(self).pending_commands@.push(
                    MacCommand::RXParamSetupAns {
                        rx1_dr_offset_ack: off_ok,
                        rx2_data_rate_ack: dr_ok,
                        channel_ack: ch_ok,
                    },
                )
                &&& final(self).region.rx1_dr_offset == (if off_ok {
                    rx1_dr_offset
                } else {
                    old(self).region.rx1_dr_offset
                })
                &&& final(self).region.rx2_data_rate == (if dr_ok {
                    rx2_data_rate
                } else {
                    old(self).region.rx2_data_rate
                })
                &&& final(self).region.rx2_frequency == (if ch_ok {
                    freq
                } else {
                    old(self).region.rx2_frequency
                })
                &&& final(self).region.channels@ == old(self).region.channels@
                &&& final(self).region.data_rate == old(self).region.data_rate
                &&& final(self).region.tx_power == old(self).region.tx_power
            }),
            command == MacCommand::DevStatusReq && old(self).pending_commands@.len() < 8 ==> r
                is Ok && final(self).pending_commands@ == old(self).pending_commands@.push(
                MacCommand::DevStatusAns {
                    battery: old(self).power.metrics.battery_level,
                    margin: snr_margin(old(self).last_snr),
                },
            ) && final(self).region == old(self).region,
            command matches MacCommand::NewChannelReq { ch_index, freq, max_dr, min_dr } ==> old(self).pending_commands@.len() < 8 ==> ({
                let freq_ok = 902_000_000 <= freq <= 928_000_000;
                let dr_ok = min_dr <= 4 && max_dr <= 4 && min_dr <= max_dr;
                &&& r is Ok
                &&& final(self).pending_commands@ == old(self).pending_commands@.push(
                    MacCommand::NewChannelAns { channel_freq_ok: freq_ok, data_rate_ok: dr_ok },
                )
                &&& final(self).region == old(self).region
            }),
            command matches MacCommand::RXTimingSetupReq { delay } ==> old(self).pending_commands@.len() < 8 ==> (if delay <= 15 {
                r is Ok && final(self).pending_commands@ == old(self).pending_commands@.push(
                    MacCommand::RXTimingSetupAns,
                ) && final(self).region.rx1_delay_ms == (if delay == 0 {
                    1000int
                } else {
                    1000 * delay
                }) && final(self).region.channels@ == old(self).region.channels@
            } else {
                r == Err::<(), MacError>(MacError::InvalidValue) && *final(self) == *old(self)
            }),
            command matches MacCommand::TxParamSetupReq { max_eirp, .. } ==> old(self).pending_commands@.len() < 8 ==> (if max_eirp <= 15 {
                r is Ok && final(self).pending_commands@ == old(self).pending_commands@.push(
                    MacCommand::TxParamSetupAns,
                ) && final(self).region == old(self).region
            } else {
                r == Err::<(), MacError>(MacError::InvalidValue) && *final(self) == *old(self)
            }),
            command matches MacCommand::DlChannelReq { ch_index, freq } ==> old(self).pending_commands@.len() < 8 ==> ({
                let freq_ok = 902_000_000 <= freq <= 928_000_000;
                let exists_ok = ch_index < 72;
                &&& r is Ok
                &&& final(self).pending_commands@ == old(self).pending_commands@.push(
                    MacCommand::DlChannelAns {
                        channel_freq_ok: freq_ok,
                        uplink_freq_exists: exists_ok,
                    },
                )
                &&& final(self).region == old(self).region
            }),
    {
        match command {
            MacCommand::LinkCheckAns { .. } => Ok(()),
            MacCommand::DutyCycleAns => Ok(()),
            MacCommand::DevStatusAns { .. } => Ok(()),
            MacCommand::RXTimingSetupAns => Ok(()),
            MacCommand::TxParamSetupAns => Ok(()),
            MacCommand::LinkADRAns { power_ack, data_rate_ack, channel_mask_ack } => {
                if power_ack && data_rate_ack && channel_mask_ack {
                    Ok(())
                } else {
                    Err(MacError::InvalidValue)
                }
            },
            MacCommand::RXParamSetupAns { rx1_dr_offset_ack, rx2_data_rate_ack, channel_ack } => {
                if rx1_dr_offset_ack && rx2_data_rate_ack && channel_ack {
                    Ok(())
                } else {
                    Err(MacError::InvalidValue)
                }
            },
            MacCommand::NewChannelAns { channel_freq_ok, data_rate_ok } => {
                if channel_freq_ok && data_rate_ok {
                    Ok(())
                } else {
                    Err(MacError::InvalidValue)
                }
            },
            MacCommand::DlChannelAns { channel_freq_ok, uplink_freq_exists } => {
                if channel_freq_ok && uplink_freq_exists {
                    Ok(())
                } else {
                    Err(MacError::InvalidValue)
                }
            },
            MacCommand::LinkCheckReq => {
                if self.pending_commands.len() >= MAX_MAC_COMMANDS {
                    return Err(MacError::BufferTooSmall);
                }
                self.pending_commands.push(MacCommand::LinkCheckReq);
                Ok(())
            },
            MacCommand::LinkADRReq { data_rate, tx_power, ch_mask, ch_mask_cntl, nb_trans } => {
                if self.pending_commands.len() >= MAX_MAC_COMMANDS {
                    return Err(MacError::BufferTooSmall);
                }
                if 1 <= nb_trans && nb_trans <= 15 {
                    self.nb_trans = nb_trans;
                }
                let power_ack = self.region.is_valid_tx_power(tx_power);
                if power_ack {
                    self.region.set_tx_power(tx_power);
                }
                let data_rate_ack = self.region.is_valid_data_rate(data_rate);
                if data_rate_ack {
                    self.region.set_data_rate(data_rate);
                }
                let channel_mask_ack = self.region.is_valid_channel_mask(ch_mask, ch_mask_cntl);
                if channel_mask_ack {
                    self.region.apply_channel_mask(ch_mask, ch_mask_cntl);
                }
                self.pending_commands.push(
                    MacCommand::LinkADRAns { power_ack, data_rate_ack, channel_mask_ack },
                );
                Ok(())
            },
            MacCommand::DutyCycleReq { max_duty_cycle } => {
                if self.pending_commands.len() >= MAX_MAC_COMMANDS {
                    return Err(MacError::BufferTooSmall);
                }
                if max_duty_cycle <= 15 {
                    self.max_duty_cycle = max_duty_cycle;
                    self.power.config.max_duty_cycle_permille = 1000 >> max_duty_cycle;
                    self.pending_commands.push(MacCommand::DutyCycleAns);
                    Ok(())
                } else {
                    Err(MacError::InvalidValue)
                }
            },
            MacCommand::RXParamSetupReq { rx1_dr_offset, rx2_data_rate, freq } => {
                if self.pending_commands.len() >= MAX_MAC_COMMANDS {
                    return Err(MacError::BufferTooSmall);
                }
                let rx1_dr_offset_ack = self.region.is_valid_rx1_dr_offset(rx1_dr_offset);
                if rx1_dr_offset_ack {
                    self.region.set_rx1_dr_offset(rx1_dr_offset);
                }
                let rx2_data_rate_ack = self.region.is_valid_rx2_data_rate(rx2_data_rate);
                if rx2_data_rate_ack {
                    self.region.set_rx2_data_rate(rx2_data_rate);
                }
                let channel_ack = self.region.is_valid_frequency(freq);
                if channel_ack {
                    self.region.set_rx2_frequency(freq);
                }
                self.pending_commands.push(
                    MacCommand::RXParamSetupAns {
                        rx1_dr_offset_ack,
                        rx2_data_rate_ack,
                        channel_ack,
                    },
                );
                Ok(())
            },
            MacCommand::DevStatusReq => {
                if self.pending_commands.len() >= MAX_MAC_COMMANDS {
                    return Err(MacError::BufferTooSmall);
                }
                let battery = self.power.metrics.battery_level;
                let margin: i8 = if self.last_snr < -32 {
                    -32
                } else if self.last_snr > 31 {
                    31
                } else {
                    self.last_snr
                };
                self.pending_commands.push(MacCommand::DevStatusAns { battery, margin });
                Ok(())
            },
            MacCommand::NewChannelReq { ch_index: _, freq, max_dr, min_dr } => {
                if self.pending_commands.len() >= MAX_MAC_COMMANDS {
                    return Err(MacError::BufferTooSmall);
                }
                let channel_freq_ok = self.region.is_valid_frequency(freq);
                let data_rate_ok = self.region.is_valid_data_rate(min_dr)
                    && self.region.is_valid_data_rate(max_dr) && min_dr <= max_dr;
                self.pending_commands.push(
                    MacCommand::NewChannelAns { channel_freq_ok, data_rate_ok },
                );
                Ok(())
            },
            MacCommand::RXTimingSetupReq { delay } => {
                if self.pending_commands.len() >= MAX_MAC_COMMANDS {
                    return Err(MacError::BufferTooSmall);
                }
                if delay <= 15 {
                    self.region.set_rx1_delay(delay);
                    self.pending_commands.push(MacCommand::RXTimingSetupAns);
                    Ok(())
                } else {
                    Err(MacError::InvalidValue)
                }
            },
            MacCommand::TxParamSetupReq { downlink_dwell_time: _, uplink_dwell_time: _, max_eirp } => {
                if self.pending_commands.len() >= MAX_MAC_COMMANDS {
                    return Err(MacError::BufferTooSmall);
                }
                if max_eirp <= 15 {
                    self.pending_commands.push(MacCommand::TxParamSetupAns);
                    Ok(())
                } else {
                    Err(MacError::InvalidValue)
                }
            },
            MacCommand::DlChannelReq { ch_index, freq } => {
                if self.pending_commands.len() >= MAX_MAC_COMMANDS {
                    return Err(MacError::BufferTooSmall);
                }
                let channel_freq_ok = self.region.is_valid_frequency(freq);
                let uplink_freq_exists = match self.region.get_channel(ch_index) {
                    Some(_) => true,
                    None => false,
                };
                self.pending_commands.push(
                    MacCommand::DlChannelAns { channel_freq_ok, uplink_freq_exists },
                );
                Ok(())
            },
        }
    }

    /// Parse a plaintext MAC-command byte string into at most eight
    /// commands, stopping at the first unknown command.
    pub fn extract_mac_commands(&self, payload: &[u8]) -> (r: Option<Vec<MacCommand>>)
        ensures
            parse_commands(payload@).len() <= 8 ==> (r matches Some(v) && v@ == parse_commands(
                payload@,
            )),
            parse_commands(payload@).len() > 8 ==> r is None,
    {
        let mut commands: Vec<MacCommand> = Vec::new();
        proof {
            assert(payload@.skip(0) =~= payload@);
            assert(Seq::<MacCommand>::empty() + parse_commands(payload@) =~= parse_commands(
                payload@,
            ));
        }
        let mut i: usize = 0;
        while i < payload.len()
            invariant
                0 <= i <= payload@.len(),
                commands@.len() <= 8,
                parse_commands(payload@) == commands@ + parse_commands(payload@.skip(i as int)),
            decreases payload@.len() - i,
        {
            let cid = payload[i];
            let tail = &payload[i + 1..payload.len()];
            let ghost rest = payload@.skip(i as int);
            proof {
                assert(tail@ =~= rest.skip(1));
                assert(rest[0] == payload@[i as int]);
            }
            match MacCommand::from_bytes(cid, tail) {
                Some(cmd) => {
                    let l = cmd.len();
                    proof {
                        lemma_parse_command_fits(rest);
                        assert(rest.skip(1 + cmd_len(cmd)) =~= payload@.skip(
                            i + 1 + cmd_len(cmd),
                        ));
                        assert(parse_commands(rest) == seq![cmd] + parse_commands(
                            payload@.skip(i + 1 + cmd_len(cmd)),
                        ));
                    }
                    if commands.len() >= MAX_MAC_COMMANDS {
                        proof {
                            assert(parse_commands(payload@).len() >= commands@.len() + 1);
                        }
                        return None;
                    }
                    commands.push(cmd);
                    proof {
                        assert(commands@ + parse_commands(payload@.skip(i + 1 + cmd_len(cmd)))
                            =~= parse_commands(payload@));
                    }
                    i = i + 1 + l;
                },
                None => {
                    proof {
                        assert(parse_commands(rest) =~= Seq::<MacCommand>::empty());
                        assert(commands@ + parse_commands(rest) =~= commands@);
                    }
                    return Some(commands);
                },
            }
        }
        proof {
            assert(payload@.skip(payload@.len() as int) =~= Seq::<u8>::empty());
            assert(commands@ + parse_commands(payload@.skip(payload@.len() as int)) =~= commands@);
        }
        Some(commands)
    }

    /// Process a received downlink frame, per the downlink path: parse,
    /// check the address, reconstruct the full counter inside the 16-bit
    /// window, verify the MIC, decrypt, dispatch MAC commands, and only
    /// then raise the stored downlink counter — it strictly increases on
    /// every accepted downlink, and duplicates or roll-backs are refused.
    pub fn decrypt_payload(&mut self, data: &[u8]) -> (r: Result<Option<(u8, Vec<u8>)>, MacError>)
        requires
            old(self).wf(),
        ensures
            final(self).wf(),
            final(self).session_identity_unchanged(old(self)),
            final(self).session.fcnt_up == old(self).session.fcnt_up,
            r is Err ==> *final(self) == *old(self),
            !parse_ok(data@) <==> r == Err::<Option<(u8, Vec<u8>)>, MacError>(
                MacError::InvalidLength,
            ),
            parse_ok(data@) && parsed_addr(data@) != old(self).session.dev_addr@ <==> r == Err::<
                Option<(u8, Vec<u8>)>,
                MacError,
            >(MacError::InvalidAddress),
            parse_ok(data@) && parsed_addr(data@) == old(self).session.dev_addr@
                && reconstruct_spec(old(self).session.fcnt_down, parsed_fcnt(data@)) is None <==> r
                == Err::<Option<(u8, Vec<u8>)>, MacError>(MacError::InvalidFrame),
            ({
                let rec = reconstruct_spec(old(self).session.fcnt_down, parsed_fcnt(data@));
                let checks = parse_ok(data@) && parsed_addr(data@) == old(self).session.dev_addr@
                    && rec is Some;
                let mic_ok = checks && parsed_mic(data@) == mic_bytes(
                    old(self).session.nwk_skey@,
                    data@.take(data@.len() - 4),
                    old(self).session.dev_addr@,
                    rec->Some_0,
                    Direction::Down,
                );
                &&& (checks && !mic_ok <==> r == Err::<Option<(u8, Vec<u8>)>, MacError>(
                    MacError::InvalidMic,
                ))
                &&& (mic_ok ==> r is Ok)
            }),
            r is Ok ==> ({
                let rec = reconstruct_spec(old(self).session.fcnt_down, parsed_fcnt(data@));
                &&& parse_ok(data@)
                &&& parsed_addr(data@) == old(self).session.dev_addr@
                &&& rec is Some
                &&& final(self).session.fcnt_down == rec->Some_0
                &&& final(self).session.fcnt_down > old(self).session.fcnt_down
                &&& parsed_mic(data@) == mic_bytes(
                    old(self).session.nwk_skey@,
                    data@.take(data@.len() - 4),
                    old(self).session.dev_addr@,
                    rec->Some_0,
                    Direction::Down,
                )
            }),
            r matches Ok(Some(p)) ==> ({
                let rec = reconstruct_spec(old(self).session.fcnt_down, parsed_fcnt(data@));
                &&& parsed_fport(data@) == Some(p.0)
                &&& p.0 != 0
                &&& p.1@ == ctr_stream(
                    old(self).session.app_skey@,
                    old(self).session.dev_addr@,
                    rec->Some_0,
                    Direction::Down,
                    parsed_frm(data@),
                )
            }),
            r is Ok && parsed_fctrl(data@) & 0x20 != 0 ==> !final(self).confirm_pending,
            r is Ok && parsed_fctrl(data@) & 0x20 == 0 ==> final(self).confirm_pending == old(
                self,
            ).confirm_pending,
    {
        let frame = match parse_frame(data) {
            Ok(f) => f,
            Err(e) => {
                return Err(e);
            },
        };
        if !addr_eq(&frame.dev_addr, &self.session.dev_addr) {
            return Err(MacError::InvalidAddress);
        }
        let fcnt32 = match reconstruct_fcnt(self.session.fcnt_down, frame.f_cnt) {
            Some(v) => v,
            None => {
                return Err(MacError::InvalidFrame);
            },
        };
        if !verify_mic(&self.session.nwk_skey, data, self.session.dev_addr, fcnt32,
            Direction::Down) {
            return Err(MacError::InvalidMic);
        }
        let confirmed_down = frame.mhdr & 0xE0 == 0xA0;
        let ack_seen = frame.f_ctrl & 0x20 != 0;
        // FOpts always carries plaintext MAC commands.
        if frame.f_opts.len() > 0 {
            if let Some(cmds) = self.extract_mac_commands(frame.f_opts.as_slice()) {
                let mut ci: usize = 0;
                while ci < cmds.len()
                    invariant
                        self.wf(),
                        self.session == old(self).session,
                        self.ack_pending == old(self).ack_pending,
                        self.confirm_pending == old(self).confirm_pending,
                        0 <= ci <= cmds@.len(),
                    decreases cmds@.len() - ci,
                {
                    let _ = self.process_mac_command(cmds[ci]);
                    ci = ci + 1;
                }
            }
        }
        let result = match frame.f_port {
            None => Ok(None),
            Some(0) => {
                let decrypted = crypto::encrypt_payload(
                    &self.session.nwk_skey,
                    self.session.dev_addr,
                    fcnt32,
                    Direction::Down,
                    frame.frm_payload.as_slice(),
                );
                if let Some(cmds) = self.extract_mac_commands(decrypted.as_slice()) {
                    let mut ci: usize = 0;
                    while ci < cmds.len()
                        invariant
                            self.wf(),
                            self.session == old(self).session,
                            self.ack_pending == old(self).ack_pending,
                            self.confirm_pending == old(self).confirm_pending,
                            0 <= ci <= cmds@.len(),
                        decreases cmds@.len() - ci,
                    {
                        let _ = self.process_mac_command(cmds[ci]);
                        ci = ci + 1;
                    }
                }
                Ok(None)
            },
            Some(port) => {
                let decrypted = crypto::encrypt_payload(
                    &self.session.app_skey,
                    self.session.dev_addr,
                    fcnt32,
                    Direction::Down,
                    frame.frm_payload.as_slice(),
                );
                Ok(Some((port, decrypted)))
            },
        };
        if confirmed_down {
            self.ack_pending = true;
        }
        if ack_seen {
            // The downlink acknowledges the pending confirmed uplink.
            self.confirm_pending = false;
        }
        self.session.fcnt_down = fcnt32;
        result
    }

    /// Build and transmit a join request on the next join channel.  On
    /// success the device nonce is raised so it is never reused.
    pub fn join_request(&mut self, dev_eui: EUI64, app_eui: EUI64, app_key: &AESKey) -> (r: Result<
        (),
        MacError,
    >)
        requires
            old(self).wf(),
        ensures
            final(self).wf(),
            final(self).session.dev_addr == old(self).session.dev_addr,
            final(self).session.nwk_skey@ == old(self).session.nwk_skey@,
            final(self).session.app_skey@ == old(self).session.app_skey@,
            final(self).session.fcnt_up == old(self).session.fcnt_up,
            final(self).session.fcnt_down == old(self).session.fcnt_down,
            final(self).session.activation == old(self).session.activation,
            final(self).pending_commands@ == old(self).pending_commands@,
            r is Ok ==> final(self).session.dev_nonce == ((old(self).session.dev_nonce + 1)
                % 0x10000) as u16,
            r is Err ==> final(self).session.dev_nonce == old(self).session.dev_nonce,
            r matches Err(e) ==> (e matches MacError::Radio(_)),
    {
        let channel = self.region.get_next_join_channel();
        let data_rate = self.region.get_data_rate();
        let power_dbm = self.region.tx_power_dbm();
        if let Err(e) = self.phy.configure_tx(&channel, data_rate, power_dbm) {
            return Err(MacError::Radio(e));
        }
        let frame = build_join_request(&dev_eui, &app_eui, app_key, self.session.dev_nonce);
        match self.phy.transmit(frame.as_slice()) {
            Ok(()) => {
                self.session.dev_nonce = self.session.dev_nonce.wrapping_add(1);
                Ok(())
            },
            Err(e) => Err(MacError::Radio(e)),
        }
    }

    /// Decrypt, authenticate and apply a join accept.  On success the
    /// session holds the two keys derived from the accept's nonce fields
    /// under the root key, both frame counters are reset, and the device is
    /// joined.
    pub fn process_join_accept(&mut self, app_key: &AESKey, data: &[u8]) -> (r: Result<
        (),
        MacError,
    >)
        requires
            old(self).wf(),
        ensures
            final(self).wf(),
            r is Err ==> *final(self) == *old(self),
            data@.len() != 17 && data@.len() != 33 <==> r == Err::<(), MacError>(
                MacError::InvalidLength,
            ),
            (data@.len() == 17 || data@.len() == 33) && data@[0] != 0x20 <==> r == Err::<
                (),
                MacError,
            >(MacError::InvalidFrame),
            ({
                let plain = crate::crypto::ecb_stream(app_key@, data@.skip(1));
                let shape_ok = (data@.len() == 17 || data@.len() == 33) && data@[0] == 0x20;
                let mic_ok = shape_ok && crate::crypto::first_4(
                    plain.skip(plain.len() - 4),
                ) == crate::crypto::join_mic_bytes(
                    app_key@,
                    seq![0x20u8] + plain.take(plain.len() - 4),
                );
                &&& (shape_ok && !mic_ok <==> r == Err::<(), MacError>(MacError::InvalidMic))
                &&& (mic_ok ==> r is Ok)
            }),
            r is Ok ==> ({
                let plain = crate::crypto::ecb_stream(app_key@, data@.skip(1));
                &&& (data@.len() == 17 || data@.len() == 33)
                &&& data@[0] == 0x20
                &&& final(self).session.nwk_skey@ == crate::crypto::aes_block(
                    app_key@,
                    crate::crypto::skey_block(
                        1,
                        plain.subrange(0, 3),
                        plain.subrange(3, 6),
                        old(self).session.dev_nonce,
                    ),
                )
                &&& final(self).session.app_skey@ == crate::crypto::aes_block(
                    app_key@,
                    crate::crypto::skey_block(
                        2,
                        plain.subrange(0, 3),
                        plain.subrange(3, 6),
                        old(self).session.dev_nonce,
                    ),
                )
                &&& final(self).session.dev_addr@ == plain.subrange(6, 10)
                &&& final(self).session.fcnt_up == 0
                &&& final(self).session.fcnt_down == 0
                &&& final(self).session.dev_nonce == old(self).session.dev_nonce
                &&& final(self).session.activation is OtaaJoined
            }),
    {
        if !(data.len() == 17 || data.len() == 33) {
            return Err(MacError::InvalidLength);
        }
        if data[0] != 0x20 {
            return Err(MacError::InvalidFrame);
        }
        let encrypted = &data[1..data.len()];
        proof {
            assert(encrypted@ =~= data@.skip(1));
        }
        let plain = crypto::encrypt_join_accept(app_key, encrypted);
        let n = plain.len();
        // MIC over the MHDR byte and the decrypted fields.
        let mut mic_input: Vec<u8> = Vec::new();
        mic_input.push(0x20);
        let mut i: usize = 0;
        while i < n - 4
            invariant
                n == plain@.len(),
                n == 16 || n == 32,
                0 <= i <= n - 4,
                mic_input@.len() == i + 1,
                mic_input@[0] == 0x20u8,
                forall|m: int| 1 <= m < mic_input@.len() ==> mic_input@[m] == plain@[m - 1],
            decreases n - 4 - i,
        {
            mic_input.push(plain[i]);
            i = i + 1;
        }
        proof {
            assert(mic_input@ =~= seq![0x20u8] + plain@.take(n - 4));
        }
        let computed = crypto::compute_join_request_mic(app_key, mic_input.as_slice());
        let mic_ok = computed[0] == plain[n - 4] && computed[1] == plain[n - 3] && computed[2]
            == plain[n - 2] && computed[3] == plain[n - 1];
        if !mic_ok {
            return Err(MacError::InvalidMic);
        }
        let app_nonce = [plain[0], plain[1], plain[2]];
        let net_id = [plain[3], plain[4], plain[5]];
        let dev_addr = DevAddr::new([plain[6], plain[7], plain[8], plain[9]]);
        let dl_settings = plain[10];
        let rx_delay = plain[11];
        let nonce = self.session.dev_nonce;
        let (nwk_skey, app_skey) = crypto::derive_session_keys(
            app_key,
            &app_nonce,
            &net_id,
            nonce,
        );
        proof {
            assert(app_nonce@ =~= plain@.subrange(0, 3));
            assert(net_id@ =~= plain@.subrange(3, 6));
            assert(dev_addr@ =~= plain@.subrange(6, 10));
        }
        self.session = SessionState::from_join_accept(dev_addr, nwk_skey, app_skey);
        self.session.dev_nonce = nonce;
        // Apply the DLSettings and RxDelay fields where they are valid.
        let rx1_dr_offset = (dl_settings / 16) % 8;
        if self.region.is_valid_rx1_dr_offset(rx1_dr_offset) {
            self.region.set_rx1_dr_offset(rx1_dr_offset);
        }
        let rx2_dr = dl_settings % 16;
        if self.region.is_valid_rx2_data_rate(rx2_dr) {
            self.region.set_rx2_data_rate(rx2_dr);
        }
        self.region.set_rx1_delay(rx_delay % 16);
        Ok(())
    }

    /// Configure the community-network channel plan (sub-band 2).
    pub fn configure_for_ttn(&mut self) -> (r: Result<(), MacError>)
        requires
            old(self).wf(),
        ensures
            final(self).wf(),
            r is Ok,
            final(self).session == old(self).session,
            final(self).region.sub_band == 1,
            enabled_seq(final(self).region.channels@).len() == 9,
    {
        self.region.configure_ttn_us915();
        Ok(())
    }

    /// The eight beacon channels of the region.
    pub fn get_beacon_channels(&self) -> (r: Vec<Channel>)
        ensures
            r@.len() == 8,
            forall|k: int|
                0 <= k < 8 ==> #[trigger] r@[k] == crate::region::beacon_channel_spec(k),
    {
        self.region.get_beacon_channels()
    }

    /// A pseudo-randomly chosen beacon channel.
    pub fn get_next_beacon_channel(&mut self) -> (r: Option<Channel>)
        requires
            old(self).wf(),
        ensures
            final(self).wf(),
            final(self).session == old(self).session,
            final(self).pending_commands@ == old(self).pending_commands@,
            r == Some(
                crate::region::beacon_channel_spec(final(self).region.beacon_cursor as int),
            ),
    {
        self.region.get_next_beacon_channel()
    }
}

/// Compare two device addresses byte by byte.
fn addr_eq(a: &DevAddr, b: &DevAddr) -> (r: bool)
    ensures
        r == (a@ == b@),
{
    let ab = a.as_bytes();
    let bb = b.as_bytes();
    let r = ab[0] == bb[0] && ab[1] == bb[1] && ab[2] == bb[2] && ab[3] == bb[3];
    proof {
        if r {
            assert(a@ =~= b@);
        }
    }
    r
}

/// A byte sequence in reverse order.
pub open spec fn reversed(s: Seq<u8>) -> Seq<u8> {
    Seq::new(s.len(), |i: int| s[s.len() - 1 - i])
}

/// The on-air bytes of a join request:
/// `{0x00, AppEUI(LE8), DevEUI(LE8), DevNonce(LE2), MIC(4)}`, where the
/// EUIs are given most-significant byte first and sent reversed.
pub open spec fn join_request_bytes(
    dev_eui: Seq<u8>,
    app_eui: Seq<u8>,
    app_key: Seq<u8>,
    dev_nonce: u16,
) -> Seq<u8> {
    let body = seq![0x00u8] + reversed(app_eui) + reversed(dev_eui) + u16_le(dev_nonce);
    body + join_mic_bytes(app_key, body)
}

/// Build the on-air bytes of a join request.
pub fn build_join_request(
    dev_eui: &EUI64,
    app_eui: &EUI64,
    app_key: &AESKey,
    dev_nonce: u16,
) -> (r: Vec<u8>)
    ensures
        r@ == join_request_bytes(dev_eui@, app_eui@, app_key@, dev_nonce),
        r@.len() == 23,
{
    let mut body: Vec<u8> = Vec::new();
    body.push(0x00);
    let mut i: usize = 0;
    while i < 8
        invariant
            0 <= i <= 8,
            body@.len() == 1 + i,
            body@[0] == 0x00u8,
            forall|m: int| 1 <= m <= i ==> #[trigger] body@[m] == app_eui@[8 - m],
        decreases 8 - i,
    {
        body.push(app_eui[7 - i]);
        i = i + 1;
    }
    let mut j: usize = 0;
    while j < 8
        invariant
            0 <= j <= 8,
            body@.len() == 9 + j,
            body@[0] == 0x00u8,
            forall|m: int| 1 <= m <= 8 ==> #[trigger] body@[m] == app_eui@[8 - m],
            forall|m: int| 9 <= m < 9 + j ==> #[trigger] body@[m] == dev_eui@[16 - m],
        decreases 8 - j,
    {
        body.push(dev_eui[7 - j]);
        j = j + 1;
    }
    body.push((dev_nonce % 256) as u8);
    body.push(((dev_nonce / 256) % 256) as u8);
    proof {
        assert(body@ =~= seq![0x00u8] + reversed(app_eui@) + reversed(dev_eui@) + u16_le(
            dev_nonce,
        ));
    }
    let mic = crypto::compute_join_request_mic(app_key, body.as_slice());
    body.push(mic[0]);
    body.push(mic[1]);
    body.push(mic[2]);
    body.push(mic[3]);
    proof {
        assert(body@ =~= join_request_bytes(dev_eui@, app_eui@, app_key@, dev_nonce));
    }
    body
}

} // verus!
