//! Cryptographic operations: message integrity codes, the CTR-style payload
//! cipher, join-accept decryption and session-key derivation.
//!
//! Everything is built from a single AES-128 block-encryption primitive.
//! The block function itself is named by the uninterpreted [`aes_block`];
//! every construction on top of it (the CBC-MAC chain, the counter-mode
//! keystream, the ECB stream) is specified and verified here.

use vstd::prelude::*;

use aes::cipher::generic_array::GenericArray;
use aes::cipher::BlockEncrypt;
use aes::cipher::KeyInit;
use aes::Aes128;

use crate::config::AESKey;
use crate::config::DevAddr;

verus! {

/// MIC size in bytes.
pub const MIC_SIZE: usize = 4;

/// AES-128 block size in bytes.
pub const BLOCK_SIZE: usize = 16;

/// Direction of a frame, as used in the crypto block headers.
#[derive(Debug, Clone, Copy, PartialEq, Eq, Structural)]
pub enum Direction {
    /// Uplink (device to network).
    Up,
    /// Downlink (network to device).
    Down,
}

/// The single-byte encoding of a direction.
pub open spec fn dir_byte(dir: Direction) -> u8 {
    match dir {
        Direction::Up => 0,
        Direction::Down => 1,
    }
}

impl Direction {
    /// The on-air byte for this direction.
    pub fn as_byte(&self) -> (r: u8)
        ensures
            r == dir_byte(*self),
    {
        match self {
            Direction::Up => 0,
            Direction::Down => 1,
        }
    }
}

/// What AES-128 returns for one 16-byte block under a 16-byte key.
/// The result depends on the key and block bytes alone.
pub uninterp spec fn aes_block(key: Seq<u8>, block: Seq<u8>) -> Seq<u8>;

/// Relies on `aes::Aes128` (`encrypt_block` from `aes::cipher::BlockEncrypt`):
/// AES-128 encryption of a single 16-byte block, a pure function of the key
/// and the block, producing 16 bytes.
#[verifier::external_body]
pub(crate) fn aes_encrypt_block(key: &AESKey, block: &Vec<u8>) -> (r: Vec<u8>)
    requires
        block@.len() == 16,
    ensures
        r@ == aes_block(key@, block@),
        r@.len() == 16,
{
    let cipher = Aes128::new_from_slice(key.as_bytes()).unwrap();
    let mut b = GenericArray::clone_from_slice(block.as_slice());
    cipher.encrypt_block(&mut b);
    b.to_vec()
}

/// The four little-endian bytes of a 32-bit value.
pub open spec fn u32_le(x: u32) -> Seq<u8> {
    seq![
        (x % 256) as u8,
        ((x / 256) % 256) as u8,
        ((x / 65536) % 256) as u8,
        ((x / 16777216) % 256) as u8,
    ]
}

/// The two little-endian bytes of a 16-bit value.
pub open spec fn u16_le(x: u16) -> Seq<u8> {
    seq![(x % 256) as u8, ((x / 256) % 256) as u8]
}

/// The common 16-byte header block of the LoRaWAN crypto constructions:
/// `{first, 0,0,0,0, dir, DevAddr(LE4), FCnt(LE4), 0, last}`.
pub open spec fn crypto_block(
    first: u8,
    dev_addr: Seq<u8>,
    fcnt: u32,
    dir: Direction,
    last: u8,
) -> Seq<u8> {
    seq![first, 0u8, 0u8, 0u8, 0u8, dir_byte(dir)] + dev_addr + u32_le(fcnt) + seq![0u8, last]
}

/// The MIC header block `B0`; its last byte carries the message length.
pub open spec fn b0_block(dev_addr: Seq<u8>, fcnt: u32, dir: Direction, msg_len: u8) -> Seq<u8> {
    crypto_block(0x49, dev_addr, fcnt, dir, msg_len)
}

/// The counter-mode block `A_i`; its last byte carries the block index.
pub open spec fn a_block(dev_addr: Seq<u8>, fcnt: u32, dir: Direction, index: u8) -> Seq<u8> {
    crypto_block(0x01, dev_addr, fcnt, dir, index)
}

/// Builds a [`crypto_block`] as an executable 16-byte vector.
fn build_crypto_block(first: u8, dev_addr: DevAddr, fcnt: u32, dir: Direction, last: u8) -> (r:
    Vec<u8>)
    ensures
        r@ == crypto_block(first, dev_addr@, fcnt, dir, last),
        r@.len() == 16,
{
    let mut b: Vec<u8> = Vec::new();
    b.push(first);
    b.push(0);
    b.push(0);
    b.push(0);
    b.push(0);
    b.push(dir.as_byte());
    let ab = dev_addr.as_bytes();
    b.push(ab[0]);
    b.push(ab[1]);
    b.push(ab[2]);
    b.push(ab[3]);
    b.push((fcnt % 256) as u8);
    b.push(((fcnt / 256) % 256) as u8);
    b.push(((fcnt / 65536) % 256) as u8);
    b.push(((fcnt / 16777216) % 256) as u8);
    b.push(0);
    b.push(last);
    proof {
        assert(b@ =~= crypto_block(first, dev_addr@, fcnt, dir, last));
    }
    b
}

/// How many 16-byte blocks cover `len` bytes.
pub open spec fn num_blocks(len: nat) -> nat {
    (len + 15) / 16
}

/// Byte-wise XOR of two equally long sequences.
pub open spec fn xor_block(a: Seq<u8>, b: Seq<u8>) -> Seq<u8> {
    Seq::new(a.len(), |j: int| a[j] ^ b[j])
}

/// An all-zero 16-byte block.
pub open spec fn zero_block() -> Seq<u8> {
    seq![0u8, 0u8, 0u8, 0u8, 0u8, 0u8, 0u8, 0u8, 0u8, 0u8, 0u8, 0u8, 0u8, 0u8, 0u8, 0u8]
}

/// Doubling in GF(2^128): the whole 16-byte string shifted left one bit,
/// with the carried-out bit folded back through the constant `0x87`.
pub open spec fn gf_double(b: Seq<u8>) -> Seq<u8> {
    let shifted = Seq::new(
        b.len(),
        |i: int|
            (b[i] << 1) | (if i + 1 < b.len() {
                b[i + 1] >> 7
            } else {
                0u8
            }),
    );
    if b.len() > 0 && b[0] & 0x80 != 0 {
        shifted.update(b.len() - 1, shifted[b.len() - 1] ^ 0x87)
    } else {
        shifted
    }
}

/// The first CMAC subkey: the doubled encryption of the zero block.
pub open spec fn cmac_k1(key: Seq<u8>) -> Seq<u8> {
    gf_double(aes_block(key, zero_block()))
}

/// The second CMAC subkey: the first one doubled again.
pub open spec fn cmac_k2(key: Seq<u8>) -> Seq<u8> {
    gf_double(cmac_k1(key))
}

/// Number of CMAC blocks of a message: at least one, even when empty.
pub open spec fn cmac_blocks(len: nat) -> nat {
    if len == 0 {
        1
    } else {
        (len + 15) / 16
    }
}

/// The `i`-th 16-byte block of a message: its bytes, then a single `0x80`
/// padding marker when the final block is partial, then zeros.
pub open spec fn cmac_block(m: Seq<u8>, i: int) -> Seq<u8> {
    Seq::new(
        16,
        |j: int|
            if 16 * i + j < m.len() {
                m[16 * i + j]
            } else if 16 * i + j == m.len() {
                0x80u8
            } else {
                0u8
            },
    )
}

/// Whether a message ends on a block boundary.
pub open spec fn last_block_complete(len: nat) -> bool {
    len > 0 && len % 16 == 0
}

/// The CBC chaining state from the zero vector after the first `i` blocks.
pub open spec fn cbc_state(key: Seq<u8>, m: Seq<u8>, i: nat) -> Seq<u8>
    decreases i,
{
    if i == 0 {
        zero_block()
    } else {
        aes_block(key, xor_block(cbc_state(key, m, (i - 1) as nat), cmac_block(m, i - 1)))
    }
}

/// The final CMAC block: a complete last block masked with the first
/// subkey, a padded one with the second.
pub open spec fn cmac_final_block(key: Seq<u8>, m: Seq<u8>) -> Seq<u8> {
    let blk = cmac_block(m, cmac_blocks(m.len()) - 1);
    if last_block_complete(m.len()) {
        xor_block(blk, cmac_k1(key))
    } else {
        xor_block(blk, cmac_k2(key))
    }
}

/// The full 16-byte AES-CMAC tag of a message: the CBC chain over all but
/// the last block, then one encryption of the subkey-masked final block.
pub open spec fn cmac_tag(key: Seq<u8>, m: Seq<u8>) -> Seq<u8> {
    let n = cmac_blocks(m.len());
    aes_block(key, xor_block(cbc_state(key, m, (n - 1) as nat), cmac_final_block(key, m)))
}

/// The first four bytes of a tag.
pub open spec fn first_4(s: Seq<u8>) -> Seq<u8> {
    seq![s[0], s[1], s[2], s[3]]
}

/// The 4-byte MIC of a data frame: the first four bytes of the AES-CMAC
/// tag over `B0 ‖ data`.
pub open spec fn mic_bytes(
    key: Seq<u8>,
    data: Seq<u8>,
    dev_addr: Seq<u8>,
    fcnt: u32,
    dir: Direction,
) -> Seq<u8> {
    first_4(cmac_tag(key, b0_block(dev_addr, fcnt, dir, data.len() as u8) + data))
}

/// A 16-byte vector of zeros.
fn zero_vec16() -> (r: Vec<u8>)
    ensures
        r@ == zero_block(),
        r@.len() == 16,
{
    let mut z: Vec<u8> = Vec::new();
    let mut i: usize = 0;
    while i < 16
        invariant
            0 <= i <= 16,
            z@.len() == i,
            forall|m: int| 0 <= m < i ==> z@[m] == 0u8,
        decreases 16 - i,
    {
        z.push(0);
        i = i + 1;
    }
    proof {
        assert(z@ =~= zero_block());
    }
    z
}

/// Double a 16-byte value in GF(2^128).
fn gf_double_exec(b: &Vec<u8>) -> (r: Vec<u8>)
    requires
        b@.len() == 16,
    ensures
        r@ == gf_double(b@),
        r@.len() == 16,
{
    let mut out: Vec<u8> = Vec::new();
    let mut i: usize = 0;
    while i < 16
        invariant
            b@.len() == 16,
            0 <= i <= 16,
            out@.len() == i,
            forall|m: int|
                0 <= m < i ==> #[trigger] out@[m] == (b@[m] << 1) | (if m + 1 < 16 {
                    b@[m + 1] >> 7
                } else {
                    0u8
                }),
        decreases 16 - i,
    {
        let hi: u8 = if i + 1 < 16 {
            b[i + 1] >> 7
        } else {
            0
        };
        out.push((b[i] << 1) | hi);
        i = i + 1;
    }
    if b[0] & 0x80 != 0 {
        let x = out[15];
        out.set(15, x ^ 0x87);
    }
    proof {
        assert(out@ =~= gf_double(b@));
    }
    out
}

/// Compute the full 16-byte AES-CMAC tag of a message.
fn cmac_compute(key: &AESKey, m: &[u8]) -> (r: Vec<u8>)
    requires
        m@.len() <= 300,
    ensures
        r@ == cmac_tag(key@, m@),
        r@.len() == 16,
{
    let zero = zero_vec16();
    let l = aes_encrypt_block(key, &zero);
    let k1 = gf_double_exec(&l);
    let k2 = gf_double_exec(&k1);
    let n: usize = if m.len() == 0 {
        1
    } else {
        (m.len() + 15) / 16
    };
    let mut state = zero_vec16();
    let mut i: usize = 0;
    while i < n - 1
        invariant
            m@.len() <= 300,
            n == cmac_blocks(m@.len()),
            n >= 1,
            0 <= i <= n - 1,
            state@ == cbc_state(key@, m@, i as nat),
            state@.len() == 16,
            k1@ == cmac_k1(key@),
            k2@ == cmac_k2(key@),
        decreases n - 1 - i,
    {
        let ghost chain_i = cbc_state(key@, m@, i as nat);
        let mut j: usize = 0;
        while j < 16
            invariant
                m@.len() <= 300,
                n == cmac_blocks(m@.len()),
                i < n - 1,
                0 <= j <= 16,
                state@.len() == 16,
                forall|p: int|
                    0 <= p < j ==> state@[p] == (chain_i[p] ^ cmac_block(m@, i as int)[p]),
                forall|p: int| j <= p < 16 ==> state@[p] == chain_i[p],
            decreases 16 - j,
        {
            proof {
                assert(16 * i + j < m@.len());
                assert(cmac_block(m@, i as int)[j as int] == m@[16 * i + j]);
            }
            let sj = state[j];
            state.set(j, sj ^ m[i * 16 + j]);
            j = j + 1;
        }
        proof {
            assert(state@ =~= xor_block(chain_i, cmac_block(m@, i as int)));
        }
        state = aes_encrypt_block(key, &state);
        i = i + 1;
    }
    // Mask the padded final block with the matching subkey.
    let complete = m.len() > 0 && m.len() % 16 == 0;
    let ghost chain_last = cbc_state(key@, m@, (n - 1) as nat);
    let mut j: usize = 0;
    while j < 16
        invariant
            m@.len() <= 300,
            n == cmac_blocks(m@.len()),
            n >= 1,
            complete == last_block_complete(m@.len()),
            0 <= j <= 16,
            state@.len() == 16,
            k1@ == cmac_k1(key@),
            k2@ == cmac_k2(key@),
            k1@.len() == 16,
            k2@.len() == 16,
            forall|p: int|
                0 <= p < j ==> state@[p] == (chain_last[p] ^ cmac_final_block(key@, m@)[p]),
            forall|p: int| j <= p < 16 ==> state@[p] == chain_last[p],
        decreases 16 - j,
    {
        let idx = (n - 1) * 16 + j;
        let d: u8 = if idx < m.len() {
            m[idx]
        } else if idx == m.len() {
            0x80
        } else {
            0
        };
        let sub: u8 = if complete {
            k1[j]
        } else {
            k2[j]
        };
        proof {
            assert(d == cmac_block(m@, (n - 1) as int)[j as int]);
        }
        let sj = state[j];
        state.set(j, sj ^ (d ^ sub));
        j = j + 1;
    }
    proof {
        assert(state@ =~= xor_block(chain_last, cmac_final_block(key@, m@)));
    }
    aes_encrypt_block(key, &state)
}

/// Compute the Message Integrity Code of a data frame: the first four
/// bytes of the AES-CMAC tag over `B0 ‖ data`.
pub fn compute_mic(key: &AESKey, data: &[u8], dev_addr: DevAddr, fcnt: u32, dir: Direction) -> (mic:
    [u8; 4])
    requires
        data@.len() <= 255,
    ensures
        mic@ == mic_bytes(key@, data@, dev_addr@, fcnt, dir),
{
    let mut message = build_crypto_block(0x49, dev_addr, fcnt, dir, data.len() as u8);
    let mut i: usize = 0;
    while i < data.len()
        invariant
            0 <= i <= data@.len() <= 255,
            message@ =~= b0_block(dev_addr@, fcnt, dir, data@.len() as u8) + data@.take(i as int),
        decreases data@.len() - i,
    {
        message.push(data[i]);
        proof {
            assert(data@.take(i + 1) =~= data@.take(i as int).push(data@[i as int]));
        }
        i = i + 1;
    }
    proof {
        assert(data@.take(data@.len() as int) =~= data@);
        assert(message@ =~= b0_block(dev_addr@, fcnt, dir, data@.len() as u8) + data@);
    }
    let tag = cmac_compute(key, message.as_slice());
    let mic = [tag[0], tag[1], tag[2], tag[3]];
    proof {
        assert(mic@ =~= first_4(
            cmac_tag(key@, b0_block(dev_addr@, fcnt, dir, data@.len() as u8) + data@),
        ));
    }
    mic
}

/// The `j`-th keystream byte of the counter-mode cipher.
pub open spec fn keystream_byte(
    key: Seq<u8>,
    dev_addr: Seq<u8>,
    fcnt: u32,
    dir: Direction,
    j: int,
) -> u8 {
    aes_block(key, a_block(dev_addr, fcnt, dir, (j / 16 + 1) as u8))[j % 16]
}

/// `payload` XORed with the counter-mode keystream.  Applying this twice
/// with identical parameters recovers the payload.
pub open spec fn ctr_stream(
    key: Seq<u8>,
    dev_addr: Seq<u8>,
    fcnt: u32,
    dir: Direction,
    payload: Seq<u8>,
) -> Seq<u8> {
    Seq::new(payload.len(), |j: int| payload[j] ^ keystream_byte(key, dev_addr, fcnt, dir, j))
}

/// Encrypt or decrypt a payload with the CTR-style stream cipher.
/// The operation is its own inverse: see [`lemma_encrypt_payload_involutive`].
pub fn encrypt_payload(
    key: &AESKey,
    dev_addr: DevAddr,
    fcnt: u32,
    dir: Direction,
    payload: &[u8],
) -> (r: Vec<u8>)
    requires
        payload@.len() <= 256,
    ensures
        r@ == ctr_stream(key@, dev_addr@, fcnt, dir, payload@),
{
    let mut result: Vec<u8> = Vec::new();
    let k = (payload.len() + 15) / 16;
    let mut i: usize = 0;
    while i < k
        invariant
            payload@.len() <= 256,
            k == num_blocks(payload@.len()),
            0 <= i <= k,
            result@.len() == if 16 * i <= payload@.len() {
                16 * i
            } else {
                payload@.len() as int
            },
            forall|j: int|
                0 <= j < result@.len() ==> result@[j] == ctr_stream(
                    key@,
                    dev_addr@,
                    fcnt,
                    dir,
                    payload@,
                )[j],
        decreases k - i,
    {
        let a = build_crypto_block(0x01, dev_addr, fcnt, dir, (i + 1) as u8);
        let s = aes_encrypt_block(key, &a);
        let start = i * 16;
        let end = if start + 16 < payload.len() {
            start + 16
        } else {
            payload.len()
        };
        let mut j: usize = start;
        while j < end
            invariant
                start == 16 * i,
                start <= j <= end,
                end <= payload@.len() <= 256,
                end <= start + 16,
                16 * i + 16 >= payload@.len() ==> end == payload@.len(),
                end < payload@.len() ==> end == start + 16,
                s@ == aes_block(key@, a_block(dev_addr@, fcnt, dir, (i + 1) as u8)),
                s@.len() == 16,
                result@.len() == j,
                forall|m: int|
                    0 <= m < result@.len() ==> result@[m] == ctr_stream(
                        key@,
                        dev_addr@,
                        fcnt,
                        dir,
                        payload@,
                    )[m],
            decreases end - j,
        {
            let b = payload[j] ^ s[j - start];
            proof {
                assert(j / 16 == i as int && j % 16 == j - start) by (nonlinear_arith)
                    requires
                        start == 16 * i,
                        start <= j < start + 16,
                ;
            }
            result.push(b);
            j = j + 1;
        }
        i = i + 1;
    }
    proof {
        assert(result@ =~= ctr_stream(key@, dev_addr@, fcnt, dir, payload@));
    }
    result
}

/// The counter-mode cipher is self-inverse: encrypting an already encrypted
/// payload with the same key, address, counter and direction restores it.
pub proof fn lemma_encrypt_payload_involutive(
    key: Seq<u8>,
    dev_addr: Seq<u8>,
    fcnt: u32,
    dir: Direction,
    payload: Seq<u8>,
)
    ensures
        ctr_stream(key, dev_addr, fcnt, dir, ctr_stream(key, dev_addr, fcnt, dir, payload))
            == payload,
{
    let once = ctr_stream(key, dev_addr, fcnt, dir, payload);
    let twice = ctr_stream(key, dev_addr, fcnt, dir, once);
    assert forall|j: int| 0 <= j < payload.len() implies twice[j] == payload[j] by {
        let ks = keystream_byte(key, dev_addr, fcnt, dir, j);
        let p = payload[j];
        assert((p ^ ks) ^ ks == p) by (bit_vector);
    }
    assert(twice =~= payload);
}

/// The `i`-th 16-byte block of `data`, zero-padded with no marker.
pub open spec fn ecb_block(data: Seq<u8>, i: int) -> Seq<u8> {
    Seq::new(
        16,
        |j: int|
            if 16 * i + j < data.len() {
                data[16 * i + j]
            } else {
                0u8
            },
    )
}

/// Each block of `data` passed through the AES block function, truncated to
/// the input length.
pub open spec fn ecb_stream(key: Seq<u8>, data: Seq<u8>) -> Seq<u8> {
    Seq::new(data.len(), |j: int| aes_block(key, ecb_block(data, j / 16))[j % 16])
}

/// Recover a join-accept plaintext: the device applies the AES block
/// encryption to the server-encrypted message, block by block.
pub fn encrypt_join_accept(key: &AESKey, data: &[u8]) -> (r: Vec<u8>)
    requires
        data@.len() <= 256,
    ensures
        r@ == ecb_stream(key@, data@),
{
    let mut result: Vec<u8> = Vec::new();
    let k = (data.len() + 15) / 16;
    let mut i: usize = 0;
    while i < k
        invariant
            data@.len() <= 256,
            k == num_blocks(data@.len()),
            0 <= i <= k,
            result@.len() == if 16 * i <= data@.len() {
                16 * i
            } else {
                data@.len() as int
            },
            forall|j: int|
                0 <= j < result@.len() ==> result@[j] == ecb_stream(key@, data@)[j],
        decreases k - i,
    {
        let start = i * 16;
        let end = if start + 16 < data.len() {
            start + 16
        } else {
            data.len()
        };
        let mut block: Vec<u8> = Vec::new();
        let mut j: usize = 0;
        while j < 16
            invariant
                start == 16 * i,
                0 <= j <= 16,
                data@.len() <= 256,
                block@.len() == j,
                forall|m: int| 0 <= m < j ==> block@[m] == ecb_block(data@, i as int)[m],
            decreases 16 - j,
        {
            let idx = start + j;
            let d: u8 = if idx < data.len() {
                data[idx]
            } else {
                0
            };
            block.push(d);
            j = j + 1;
        }
        proof {
            assert(block@ =~= ecb_block(data@, i as int));
        }
        let enc = aes_encrypt_block(key, &block);
        let mut j2: usize = start;
        while j2 < end
            invariant
                start == 16 * i,
                start <= j2 <= end,
                end <= data@.len() <= 256,
                end <= start + 16,
                16 * i + 16 >= data@.len() ==> end == data@.len(),
                end < data@.len() ==> end == start + 16,
                enc@ == aes_block(key@, ecb_block(data@, i as int)),
                enc@.len() == 16,
                result@.len() == j2,
                forall|m: int|
                    0 <= m < result@.len() ==> result@[m] == ecb_stream(key@, data@)[m],
            decreases end - j2,
        {
            proof {
                assert(j2 / 16 == i as int && j2 % 16 == j2 - start) by (nonlinear_arith)
                    requires
                        start == 16 * i,
                        start <= j2 < start + 16,
                ;
            }
            let b = enc[j2 - start];
            result.push(b);
            j2 = j2 + 1;
        }
        i = i + 1;
    }
    proof {
        assert(result@ =~= ecb_stream(key@, data@));
    }
    result
}

/// The 16-byte derivation block for a session key:
/// `{prefix, AppNonce(3), NetID(3), DevNonce(LE2), 0·7}`.
pub open spec fn skey_block(
    prefix: u8,
    app_nonce: Seq<u8>,
    net_id: Seq<u8>,
    dev_nonce: u16,
) -> Seq<u8> {
    seq![prefix] + app_nonce + net_id + u16_le(dev_nonce) + seq![
        0u8,
        0u8,
        0u8,
        0u8,
        0u8,
        0u8,
        0u8,
    ]
}

/// Derive the network and application session keys from the join exchange:
/// each is one AES block over a tagged nonce block under the root key.
pub fn derive_session_keys(
    app_key: &AESKey,
    app_nonce: &[u8; 3],
    net_id: &[u8; 3],
    dev_nonce: u16,
) -> (r: (AESKey, AESKey))
    ensures
        r.0@ == aes_block(app_key@, skey_block(1, app_nonce@, net_id@, dev_nonce)),
        r.1@ == aes_block(app_key@, skey_block(2, app_nonce@, net_id@, dev_nonce)),
{
    let nwk = derive_one_key(app_key, 1, app_nonce, net_id, dev_nonce);
    let app = derive_one_key(app_key, 2, app_nonce, net_id, dev_nonce);
    (nwk, app)
}

/// Derive a single session key with the given prefix byte.
fn derive_one_key(
    app_key: &AESKey,
    prefix: u8,
    app_nonce: &[u8; 3],
    net_id: &[u8; 3],
    dev_nonce: u16,
) -> (r: AESKey)
    ensures
        r@ == aes_block(app_key@, skey_block(prefix, app_nonce@, net_id@, dev_nonce)),
{
    let mut b: Vec<u8> = Vec::new();
    b.push(prefix);
    b.push(app_nonce[0]);
    b.push(app_nonce[1]);
    b.push(app_nonce[2]);
    b.push(net_id[0]);
    b.push(net_id[1]);
    b.push(net_id[2]);
    b.push((dev_nonce % 256) as u8);
    b.push(((dev_nonce / 256) % 256) as u8);
    b.push(0);
    b.push(0);
    b.push(0);
    b.push(0);
    b.push(0);
    b.push(0);
    b.push(0);
    proof {
        assert(b@ =~= skey_block(prefix, app_nonce@, net_id@, dev_nonce));
    }
    let enc = aes_encrypt_block(app_key, &b);
    let bytes: [u8; 16] = [
        enc[0],
        enc[1],
        enc[2],
        enc[3],
        enc[4],
        enc[5],
        enc[6],
        enc[7],
        enc[8],
        enc[9],
        enc[10],
        enc[11],
        enc[12],
        enc[13],
        enc[14],
        enc[15],
    ];
    proof {
        assert(bytes@ =~= enc@);
    }
    AESKey::new(bytes)
}

/// The 4-byte MIC of a join-request or join-accept message: the first
/// four bytes of the AES-CMAC tag of the message itself.
pub open spec fn join_mic_bytes(key: Seq<u8>, data: Seq<u8>) -> Seq<u8> {
    first_4(cmac_tag(key, data))
}

/// Compute the Message Integrity Code of a join-request or join-accept
/// message under the application root key.
pub fn compute_join_request_mic(key: &AESKey, data: &[u8]) -> (mic: [u8; 4])
    requires
        data@.len() <= 255,
    ensures
        mic@ == join_mic_bytes(key@, data@),
{
    let tag = cmac_compute(key, data);
    let mic = [tag[0], tag[1], tag[2], tag[3]];
    proof {
        assert(mic@ =~= first_4(cmac_tag(key@, data@)));
    }
    mic
}

} // verus!
