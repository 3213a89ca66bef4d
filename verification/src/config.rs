//! Device identity, keys and session state.
//!
//! A device is configured once (OTAA root key or ABP session) and then keeps
//! a mutable [`SessionState`] holding the address, the session keys and the
//! two frame counters.

use vstd::prelude::*;

verus! {

/// True when every byte of the sequence is zero.
pub open spec fn all_zero(s: Seq<u8>) -> bool {
    forall|i: int| 0 <= i < s.len() ==> s[i] == 0
}

/// Checks a byte slice against [`all_zero`].
fn bytes_all_zero(b: &[u8]) -> (r: bool)
    ensures
        r == all_zero(b@),
{
    let mut i: usize = 0;
    while i < b.len()
        invariant
            0 <= i <= b@.len(),
            forall|j: int| 0 <= j < i ==> b@[j] == 0,
        decreases b@.len() - i,
    {
        if b[i] != 0 {
            return false;
        }
        i = i + 1;
    }
    true
}

/// Device address: 4 opaque bytes, sent little-endian on the air.
#[derive(Debug, Clone, Copy, PartialEq)]
pub struct DevAddr {
    bytes: [u8; 4],
}

impl View for DevAddr {
    type V = Seq<u8>;

    closed spec fn view(&self) -> Seq<u8> {
        self.bytes@
    }
}

impl DevAddr {
    /// Create a new device address from raw bytes.
    pub fn new(bytes: [u8; 4]) -> (r: Self)
        ensures
            r@ == bytes@,
    {
        Self { bytes }
    }

    /// Get the raw bytes of the device address.
    pub fn as_bytes(&self) -> (r: &[u8; 4])
        ensures
            r@ == self@,
    {
        &self.bytes
    }
}

/// AES-128 key: 16 opaque bytes.
#[derive(Debug, Clone, Copy)]
pub struct AESKey {
    bytes: [u8; 16],
}

impl View for AESKey {
    type V = Seq<u8>;

    closed spec fn view(&self) -> Seq<u8> {
        self.bytes@
    }
}

impl AESKey {
    /// Create a new AES key from raw bytes.
    pub fn new(bytes: [u8; 16]) -> (r: Self)
        ensures
            r@ == bytes@,
    {
        Self { bytes }
    }

    /// Get the raw bytes of the key.
    pub fn as_bytes(&self) -> (r: &[u8; 16])
        ensures
            r@ == self@,
    {
        &self.bytes
    }
}

/// The view of a device address always holds four bytes.
pub broadcast proof fn lemma_dev_addr_len(a: DevAddr)
    ensures
        (#[trigger] a@).len() == 4,
{
}

/// The view of an AES key always holds sixteen bytes.
pub broadcast proof fn lemma_aes_key_len(k: AESKey)
    ensures
        (#[trigger] k@).len() == 16,
{
}

/// 64-bit Extended Unique Identifier (DevEUI, AppEUI).
pub type EUI64 = [u8; 8];

/// How the current session was established, if at all.
#[derive(Debug, Clone, Copy, PartialEq, Eq, Structural)]
pub enum ActivationState {
    /// No session yet.
    Inactive,
    /// Session keys were provisioned by personalization.
    AbpActivated,
    /// Session keys were derived from a join exchange.
    OtaaJoined,
}

/// Immutable device configuration: identity and root key, plus an optional
/// pre-provisioned session for ABP devices.
#[derive(Debug, Clone, Copy)]
pub struct DeviceConfig {
    /// Device EUI (unique device identifier).
    pub dev_eui: EUI64,
    /// Application EUI (unique application identifier).
    pub app_eui: EUI64,
    /// Application root key, used for OTAA.
    pub app_key: AESKey,
    /// Device address, present for ABP devices.
    pub dev_addr: Option<DevAddr>,
    /// Network session key, present for ABP devices.
    pub nwk_skey: Option<AESKey>,
    /// Application session key, present for ABP devices.
    pub app_skey: Option<AESKey>,
}

impl DeviceConfig {
    /// Configuration for an OTAA device: no session until it joins.
    pub fn new_otaa(dev_eui: EUI64, app_eui: EUI64, app_key: AESKey) -> (r: Self)
        ensures
            r.dev_eui@ == dev_eui@,
            r.app_eui@ == app_eui@,
            r.app_key@ == app_key@,
            r.dev_addr is None,
            r.nwk_skey is None,
            r.app_skey is None,
    {
        Self { dev_eui, app_eui, app_key, dev_addr: None, nwk_skey: None, app_skey: None }
    }

    /// Configuration for an ABP device with a pre-provisioned session.
    pub fn new_abp(
        dev_eui: EUI64,
        app_eui: EUI64,
        dev_addr: DevAddr,
        nwk_skey: AESKey,
        app_skey: AESKey,
    ) -> (r: Self)
        ensures
            r.dev_eui@ == dev_eui@,
            r.app_eui@ == app_eui@,
            all_zero(r.app_key@),
            r.dev_addr == Some(dev_addr),
            r.nwk_skey == Some(nwk_skey),
            r.app_skey == Some(app_skey),
    {
        Self {
            dev_eui,
            app_eui,
            app_key: AESKey::new([0; 16]),  // unused for ABP
            dev_addr: Some(dev_addr),
            nwk_skey: Some(nwk_skey),
            app_skey: Some(app_skey),
        }
    }
}

/// Mutable per-session state: address, keys, frame counters, join nonce.
#[derive(Debug, Clone, Copy)]
pub struct SessionState {
    /// Device address.
    pub dev_addr: DevAddr,
    /// Network session key.
    pub nwk_skey: AESKey,
    /// Application session key.
    pub app_skey: AESKey,
    /// Uplink frame counter (32-bit, wraps).
    pub fcnt_up: u32,
    /// Downlink frame counter (32-bit, only ever raised).
    pub fcnt_down: u32,
    /// Join nonce used for the most recent join request.
    pub dev_nonce: u16,
    /// How this session was established.
    pub activation: ActivationState,
}

impl SessionState {
    /// True when both session keys hold at least one non-zero byte.
    pub open spec fn active_spec(&self) -> bool {
        !all_zero(self.nwk_skey@) && !all_zero(self.app_skey@)
    }

    /// True when the device address is non-zero and the session is active.
    pub open spec fn joined_spec(&self) -> bool {
        !all_zero(self.dev_addr@) && self.active_spec()
    }

    /// An empty session: all-zero address and keys, counters at zero.
    pub fn new() -> (r: Self)
        ensures
            all_zero(r.dev_addr@),
            all_zero(r.nwk_skey@),
            all_zero(r.app_skey@),
            r.fcnt_up == 0,
            r.fcnt_down == 0,
            r.dev_nonce == 0,
            r.activation is Inactive,
    {
        Self {
            dev_addr: DevAddr::new([0; 4]),
            nwk_skey: AESKey::new([0; 16]),
            app_skey: AESKey::new([0; 16]),
            fcnt_up: 0,
            fcnt_down: 0,
            dev_nonce: 0,
            activation: ActivationState::Inactive,
        }
    }

    /// A session provisioned by personalization.
    pub fn new_abp(dev_addr: DevAddr, nwk_skey: AESKey, app_skey: AESKey) -> (r: Self)
        ensures
            r.dev_addr == dev_addr,
            r.nwk_skey@ == nwk_skey@,
            r.app_skey@ == app_skey@,
            r.fcnt_up == 0,
            r.fcnt_down == 0,
            r.dev_nonce == 0,
            r.activation is AbpActivated,
    {
        Self {
            dev_addr,
            nwk_skey,
            app_skey,
            fcnt_up: 0,
            fcnt_down: 0,
            dev_nonce: 0,
            activation: ActivationState::AbpActivated,
        }
    }

    /// A session established by a validated join accept.
    pub fn from_join_accept(dev_addr: DevAddr, nwk_skey: AESKey, app_skey: AESKey) -> (r: Self)
        ensures
            r.dev_addr == dev_addr,
            r.nwk_skey@ == nwk_skey@,
            r.app_skey@ == app_skey@,
            r.fcnt_up == 0,
            r.fcnt_down == 0,
            r.dev_nonce == 0,
            r.activation is OtaaJoined,
    {
        Self {
            dev_addr,
            nwk_skey,
            app_skey,
            fcnt_up: 0,
            fcnt_down: 0,
            dev_nonce: 0,
            activation: ActivationState::OtaaJoined,
        }
    }

    /// Reset both frame counters, keeping keys and address.
    pub fn reset_counters(&mut self)
        ensures
            final(self).fcnt_up == 0,
            final(self).fcnt_down == 0,
            final(self).dev_addr == old(self).dev_addr,
            final(self).nwk_skey@ == old(self).nwk_skey@,
            final(self).app_skey@ == old(self).app_skey@,
            final(self).dev_nonce == old(self).dev_nonce,
            final(self).activation == old(self).activation,
    {
        self.fcnt_up = 0;
        self.fcnt_down = 0;
    }

    /// Check whether the session holds usable (non-zero) keys.
    pub fn is_active(&self) -> (r: bool)
        ensures
            r == self.active_spec(),
    {
        !bytes_all_zero(self.nwk_skey.as_bytes()) && !bytes_all_zero(self.app_skey.as_bytes())
    }

    /// Check whether the device is joined: non-zero address and active keys.
    pub fn is_joined(&self) -> (r: bool)
        ensures
            r == self.joined_spec(),
    {
        !bytes_all_zero(self.dev_addr.as_bytes()) && self.is_active()
    }
}

} // verus!
