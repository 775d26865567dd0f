//! Channel keys: deriving key material from its textual form and applying
//! the channel's stream cipher.

use aes::cipher::{KeyIvInit, StreamCipher};
use base64::Engine;
use vstd::prelude::*;
use vstd::string::StringSliceAdditionalSpecFns;
use crate::bytes::{copy_fitted, fitted, lemma_xor_bytes_involutive, xor_bytes};
use crate::error::CryptoError;

verus! {

/// Length in bytes of derived key material.
pub const KEY_LEN: usize = 32;

/// Size in bytes of the scratch buffer a textual key is decoded into.
pub const DECODE_CAPACITY: usize = 64;

/// The error `base64` reports when decoding into a slice fails.
#[verifier::external_type_specification]
#[verifier::external_body]
pub struct ExDecodeSliceError(base64::DecodeSliceError);

/// The error the `cipher` traits report when a keystream is exhausted.
#[verifier::external_type_specification]
#[verifier::external_body]
pub struct ExStreamCipherError(aes::cipher::StreamCipherError);

/// What the standard base64 engine decodes `text` to when it writes into a
/// buffer of `capacity` bytes; `None` where it rejects the text or the
/// decoded bytes do not fit.
pub uninterp spec fn standard_base64_decoded(text: Seq<u8>, capacity: nat) -> Option<Seq<u8>>;

/// The first `len` keystream bytes of AES-128 in counter mode (128-bit
/// big-endian counter) under a 16-byte `key`, starting from counter block
/// `iv`; `None` where the cipher reports that its keystream ends earlier.
pub uninterp spec fn aes128_ctr_keystream(key: Seq<u8>, iv: Seq<u8>, len: nat) -> Option<Seq<u8>>;

/// The first `len` keystream bytes of AES-256 in counter mode (128-bit
/// big-endian counter) under a 32-byte `key`, starting from counter block
/// `iv`; `None` where the cipher reports that its keystream ends earlier.
pub uninterp spec fn aes256_ctr_keystream(key: Seq<u8>, iv: Seq<u8>, len: nat) -> Option<Seq<u8>>;

/// Calls `Engine::decode_slice` of `base64` on its `STANDARD` engine.
///
/// Trusted: the outcome depends on `text` and the size of `out` alone. On
/// success the engine returns how many bytes it decoded and has written
/// exactly those to the front of `out`; it fails on text it rejects and on
/// decoded bytes that `out` cannot hold.
#[verifier::external_body]
fn decode_standard(text: &[u8], out: &mut [u8]) -> (r: Result<usize, base64::DecodeSliceError>)
    ensures
        final(out)@.len() == old(out)@.len(),
        match standard_base64_decoded(text@, old(out)@.len()) {
            Some(bytes) => r matches Ok(n) && n <= old(out)@.len() && final(out)@.take(n as int)
                == bytes,
            None => r is Err,
        },
{
    base64::engine::general_purpose::STANDARD.decode_slice(text, out)
}

/// Builds `Ctr128BE<Aes128>` from `key` and `iv` and calls
/// `StreamCipher::try_apply_keystream` on `data`.
///
/// Trusted: the keystream depends on `key`, `iv` and the length of `data`
/// alone. On success every byte of `data` has been combined by exclusive
/// or with the keystream byte at its position; on failure `data` is as it
/// was.
#[verifier::external_body]
fn aes128_ctr_apply(key: &[u8; 16], iv: &[u8; 16], data: &mut [u8]) -> (r: Result<
    (),
    aes::cipher::StreamCipherError,
>)
    ensures
        match aes128_ctr_keystream(key@, iv@, old(data)@.len()) {
            Some(stream) => r is Ok && final(data)@ == xor_bytes(old(data)@, stream),
            None => r is Err && final(data)@ == old(data)@,
        },
{
    let mut cipher = ctr::Ctr128BE::<aes::Aes128>::new(key.into(), iv.into());
    cipher.try_apply_keystream(data)
}

/// Builds `Ctr128BE<Aes256>` from `key` and `iv` and calls
/// `StreamCipher::try_apply_keystream` on `data`.
///
/// Trusted: the keystream depends on `key`, `iv` and the length of `data`
/// alone. On success every byte of `data` has been combined by exclusive
/// or with the keystream byte at its position; on failure `data` is as it
/// was.
#[verifier::external_body]
fn aes256_ctr_apply(key: &[u8; 32], iv: &[u8; 16], data: &mut [u8]) -> (r: Result<
    (),
    aes::cipher::StreamCipherError,
>)
    ensures
        match aes256_ctr_keystream(key@, iv@, old(data)@.len()) {
            Some(stream) => r is Ok && final(data)@ == xor_bytes(old(data)@, stream),
            None => r is Err && final(data)@ == old(data)@,
        },
{
    let mut cipher = ctr::Ctr128BE::<aes::Aes256>::new(key.into(), iv.into());
    cipher.try_apply_keystream(data)
}

/// The key of the default public channel.
pub fn default_key() -> (key: [u8; 16])
    ensures
        key@ == default_key_bytes(),
{
    let key: [u8; 16] = [
        0xd4, 0xf1, 0xbb, 0x3a, 0x20, 0x29, 0x07, 0x59, 0xf0, 0xbc, 0xff, 0xab, 0xcf, 0x4e, 0x69,
        0x01,
    ];
    key
}

/// The sixteen bytes of the default public channel key.
pub open spec fn default_key_bytes() -> Seq<u8> {
    seq![
        0xd4u8, 0xf1u8, 0xbbu8, 0x3au8, 0x20u8, 0x29u8, 0x07u8, 0x59u8, 0xf0u8, 0xbcu8, 0xffu8,
        0xabu8, 0xcfu8, 0x4eu8, 0x69u8, 0x01u8,
    ]
}

/// The symmetric key of one channel.
#[derive(Clone, Copy, Debug, PartialEq, Eq)]
pub enum ChannelKey {
    /// A 128-bit key.
    Aes128([u8; 16]),
    /// A 256-bit key.
    Aes256([u8; 32]),
}

impl ChannelKey {
    /// The raw key bytes: sixteen or thirty-two of them.
    pub open spec fn key_bytes(self) -> Seq<u8> {
        match self {
            ChannelKey::Aes128(k) => k@,
            ChannelKey::Aes256(k) => k@,
        }
    }

    /// The first `len` bytes of the keystream this key gives under `iv`,
    /// or `None` where the cipher cannot supply that many.
    pub open spec fn keystream(self, iv: Seq<u8>, len: nat) -> Option<Seq<u8>> {
        match self {
            ChannelKey::Aes128(k) => aes128_ctr_keystream(k@, iv, len),
            ChannelKey::Aes256(k) => aes256_ctr_keystream(k@, iv, len),
        }
    }

    /// `data` after the cipher has been applied to it under `iv`. The same
    /// operation encrypts and decrypts.
    pub open spec fn transformed(self, data: Seq<u8>, iv: Seq<u8>) -> Option<Seq<u8>> {
        match self.keystream(iv, data.len()) {
            Some(stream) => Some(xor_bytes(data, stream)),
            None => None,
        }
    }

    /// The key that `from_bytes` builds from the first `len` bytes of
    /// `bytes`, where it builds one.
    pub open spec fn of_bytes(bytes: Seq<u8>, len: nat) -> Option<Seq<u8>> {
        if len == 0 {
            Some(default_key_bytes())
        } else if (len == 16 || len == 32) && len <= bytes.len() {
            Some(bytes.take(len as int))
        } else {
            None
        }
    }

    /// Builds a key from the first `len` bytes of `bytes`.
    ///
    /// A length of zero selects the default public channel key, whatever
    /// `bytes` holds. Otherwise `len` must be 16 or 32 and `bytes` must hold
    /// that many bytes.
    pub fn from_bytes(bytes: &[u8], len: usize) -> (key: Option<ChannelKey>)
        ensures
            match (key, ChannelKey::of_bytes(bytes@, len as nat)) {
                (Some(k), Some(raw)) => k.key_bytes() == raw,
                (None, None) => true,
                _ => false,
            },
    {
        if len == 0 {
            Some(ChannelKey::Aes128(default_key()))
        } else if len == 16 && bytes.len() >= 16 {
            let k: [u8; 16] = copy_fitted(bytes);
            Some(ChannelKey::Aes128(k))
        } else if len == 32 && bytes.len() >= 32 {
            let k: [u8; 32] = copy_fitted(bytes);
            Some(ChannelKey::Aes256(k))
        } else {
            None
        }
    }

    /// Applies the channel cipher to `buffer` in place under `iv`.
    ///
    /// The length never changes. Where the cipher cannot supply a keystream
    /// of the buffer's length the buffer is left as it was and
    /// `InvalidPacket` is returned.
    pub fn transform(&self, buffer: &mut [u8], iv: &[u8; 16]) -> (r: Result<(), CryptoError>)
        ensures
            final(buffer)@.len() == old(buffer)@.len(),
            match self.transformed(old(buffer)@, iv@) {
                Some(out) => r is Ok && final(buffer)@ == out,
                None => r == Err::<(), CryptoError>(CryptoError::InvalidPacket) && final(buffer)@
                    == old(buffer)@,
            },
    {
        let applied = match self {
            ChannelKey::Aes128(k) => aes128_ctr_apply(k, iv, buffer),
            ChannelKey::Aes256(k) => aes256_ctr_apply(k, iv, buffer),
        };
        match applied {
            Ok(()) => Ok(()),
            Err(_) => Err(CryptoError::InvalidPacket),
        }
    }
}

/// The key material that decoded key bytes stand for: the first 32 bytes,
/// filled up with zeros where there are fewer.
pub open spec fn key_material(decoded: Seq<u8>) -> Seq<u8> {
    fitted(decoded, KEY_LEN as nat)
}

/// Key material is always 32 bytes long: it repeats the decoded bytes as
/// far as they go and 32 bytes reach, and is zero from there on.
pub proof fn lemma_key_material_layout(decoded: Seq<u8>)
    ensures
        key_material(decoded).len() == KEY_LEN,
        forall|i: int|
            0 <= i < KEY_LEN && i < decoded.len() ==> #[trigger] key_material(decoded)[i]
                == decoded[i],
        forall|i: int|
            decoded.len() <= i < KEY_LEN ==> #[trigger] key_material(decoded)[i] == 0u8,
{
}

/// Applying the cipher twice under the same key and initialization vector
/// gives the data back, length and bytes: what encrypts also decrypts.
pub proof fn lemma_transform_round_trip(key: ChannelKey, iv: Seq<u8>, data: Seq<u8>)
    ensures
        key.transformed(data, iv) matches Some(cipher) ==> cipher.len() == data.len()
            && key.transformed(cipher, iv) == Some(data),
{
    if let Some(stream) = key.keystream(iv, data.len()) {
        lemma_xor_bytes_involutive(data, stream);
    }
}

/// Turns decoded key bytes into 32 bytes of key material.
///
/// Shorter input is padded with zeros on the right, longer input is cut
/// after 32 bytes; empty input is refused with `EmptyKey`.
pub fn key_from_decoded(decoded: &[u8]) -> (r: Result<[u8; 32], CryptoError>)
    ensures
        match r {
            Ok(key) => decoded@.len() > 0 && key@ == key_material(decoded@),
            Err(e) => decoded@.len() == 0 && e == CryptoError::EmptyKey,
        },
{
    if decoded.len() == 0 {
        return Err(CryptoError::EmptyKey);
    }
    Ok(copy_fitted(decoded))
}

/// What `parse_key` returns for each outcome of decoding the text.
pub open spec fn parsed_key(decoding: Option<Seq<u8>>) -> Result<Seq<u8>, CryptoError> {
    match decoding {
        None => Err(CryptoError::InvalidBase64),
        Some(bytes) => if bytes.len() == 0 {
            Err(CryptoError::EmptyKey)
        } else {
            Ok(key_material(bytes))
        },
    }
}

/// Decodes a base64 key and pads or cuts it to 32 bytes.
///
/// Text that the standard base64 engine rejects, or that decodes to more
/// than 64 bytes, gives `InvalidBase64`; text that decodes to nothing gives
/// `EmptyKey`.
pub fn parse_key(base64_key: &str) -> (r: Result<[u8; 32], CryptoError>)
    ensures
        match (r, parsed_key(standard_base64_decoded(base64_key.spec_bytes(), DECODE_CAPACITY as nat))) {
            (Ok(key), Ok(material)) => key@ == material,
            (Err(e), Err(expected)) => e == expected,
            _ => false,
        },
{
    let mut decoded = [0u8; 64];
    match decode_standard(base64_key.as_bytes(), &mut decoded) {
        Ok(len) => {
            let (head, _) = decoded.split_at(len);
            key_from_decoded(head)
        },
        Err(_) => Err(CryptoError::InvalidBase64),
    }
}

/// The key of the default public channel, for trying the pipeline out.
pub fn create_debug_key() -> (key: ChannelKey)
    ensures
        key.key_bytes() == default_key_bytes(),
        key is Aes128,
{
    ChannelKey::Aes128(default_key())
}

} // verus!
