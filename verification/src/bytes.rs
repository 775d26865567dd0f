//! Byte-level building blocks shared by the packet pipeline: fixed-capacity
//! copies, little-endian words and byte-wise exclusive or.

use vstd::prelude::*;

verus! {

/// Capacity in bytes of every owned payload buffer.
pub const MAX_PAYLOAD: usize = 240;

/// Size in bytes of the packet header that starts every frame.
pub const HEADER_LEN: usize = 16;

/// The number of bytes of `data` that a buffer of `cap` bytes keeps.
pub open spec fn kept_len(data: Seq<u8>, cap: nat) -> nat {
    if data.len() <= cap {
        data.len()
    } else {
        cap
    }
}

/// `data` laid out in exactly `cap` bytes: the bytes that fit, in order,
/// followed by zeros. Whatever lies beyond `cap` is dropped.
pub open spec fn fitted(data: Seq<u8>, cap: nat) -> Seq<u8> {
    Seq::new(cap, |i: int| if i < data.len() { data[i] } else { 0u8 })
}

/// The 32-bit word whose little-endian encoding starts at `at` in `bytes`.
pub open spec fn le_u32(bytes: Seq<u8>, at: int) -> u32 {
    (bytes[at] as int + bytes[at + 1] as int * 0x100 + bytes[at + 2] as int * 0x1_0000
        + bytes[at + 3] as int * 0x100_0000) as u32
}

/// The four bytes that encode `word` in little-endian order.
pub open spec fn u32_le_bytes(word: u32) -> Seq<u8> {
    seq![
        (word % 0x100) as u8,
        (word / 0x100 % 0x100) as u8,
        (word / 0x1_0000 % 0x100) as u8,
        (word / 0x100_0000) as u8,
    ]
}

/// Byte-wise exclusive or of `data` with the start of `mask`; the result is
/// as long as `data`.
pub open spec fn xor_bytes(data: Seq<u8>, mask: Seq<u8>) -> Seq<u8> {
    Seq::new(data.len(), |i: int| data[i] ^ mask[i])
}

/// Copies `src` into a zeroed buffer of `N` bytes, dropping what does not fit.
pub fn copy_fitted<const N: usize>(src: &[u8]) -> (out: [u8; N])
    ensures
        out@ == fitted(src@, N as nat),
{
    let mut out = [0u8; N];
    let n: usize = if src.len() < N { src.len() } else { N };
    let mut i: usize = 0;
    while i < n
        invariant
            n <= N,
            n <= src@.len(),
            i <= n,
            out@.len() == N,
            forall|j: int| 0 <= j < i ==> out@[j] == src@[j],
            forall|j: int| i <= j < N ==> out@[j] == 0u8,
        decreases n - i,
    {
        out[i] = src[i];
        i += 1;
    }
    out
}

/// Reads the little-endian 32-bit word that starts at `at`.
pub fn read_le_u32(bytes: &[u8], at: usize) -> (word: u32)
    requires
        at + 4 <= bytes@.len(),
    ensures
        word == le_u32(bytes@, at as int),
{
    let b0: u32 = bytes[at] as u32;
    let b1: u32 = bytes[at + 1] as u32;
    let b2: u32 = bytes[at + 2] as u32;
    let b3: u32 = bytes[at + 3] as u32;
    b0 + b1 * 0x100 + b2 * 0x1_0000 + b3 * 0x100_0000
}

/// Writes `word` in little-endian order into `out[at..at + 4]`.
pub fn write_le_u32(out: &mut [u8; 16], at: usize, word: u32)
    requires
        at + 4 <= 16,
    ensures
        final(out)@.subrange(at as int, at + 4) == u32_le_bytes(word),
        forall|j: int| 0 <= j < 16 && !(at <= j < at + 4) ==> final(out)@[j] == old(out)@[j],
{
    out[at] = (word % 0x100) as u8;
    out[at + 1] = (word / 0x100 % 0x100) as u8;
    out[at + 2] = (word / 0x1_0000 % 0x100) as u8;
    out[at + 3] = (word / 0x100_0000) as u8;
}

/// Applying the same mask twice restores the data.
pub proof fn lemma_xor_bytes_involutive(data: Seq<u8>, mask: Seq<u8>)
    ensures
        xor_bytes(xor_bytes(data, mask), mask) == data,
{
    assert forall|i: int| 0 <= i < data.len() implies #[trigger] xor_bytes(
        xor_bytes(data, mask),
        mask,
    )[i] == data[i] by {
        let d = data[i];
        let m = mask[i];
        assert((d ^ m) ^ m == d) by (bit_vector);
    }
}

} // verus!
