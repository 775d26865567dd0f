use vstd::prelude::*;

verus! {

/// Errors raised while deriving key material or applying the channel cipher.
#[derive(Debug, Clone, Copy, PartialEq, Eq, Structural)]
pub enum CryptoError {
    /// The textual key is not valid base64.
    InvalidBase64,
    /// The textual key decodes to zero bytes.
    EmptyKey,
    /// Input data is empty.
    EmptyData,
    /// The packet is too small or malformed.
    InvalidPacket,
    /// The output buffer is too small.
    BufferTooSmall,
}

} // verus!
