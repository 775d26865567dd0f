//! Compact channel identifiers derived from channel names.

use vstd::prelude::*;
use vstd::string::StringSliceAdditionalSpecFns;

verus! {

/// Start value of the channel hash.
pub const HASH_SEED: u32 = 5381;

/// One step of the rolling hash: `acc * 33 + byte`, reduced modulo 2^32.
pub open spec fn hash_step(acc: u32, byte: u8) -> u32 {
    ((acc as int * 33 + byte as int) % 0x1_0000_0000) as u32
}

/// The rolling hash of `bytes`, taken from left to right from the seed.
pub open spec fn djb2(bytes: Seq<u8>) -> u32
    decreases bytes.len(),
{
    if bytes.len() == 0 {
        HASH_SEED
    } else {
        hash_step(djb2(bytes.drop_last()), bytes.last())
    }
}

/// Hashes a channel name to its 32-bit channel identifier.
///
/// The name is read as its UTF-8 bytes; the empty name gives the seed.
pub fn channel_hash(channel_name: &str) -> (hash: u32)
    ensures
        hash == djb2(channel_name.spec_bytes()),
{
    let bytes = channel_name.as_bytes();
    let mut hash: u32 = HASH_SEED;
    let mut i: usize = 0;
    while i < bytes.len()
        invariant
            i <= bytes@.len(),
            hash == djb2(bytes@.take(i as int)),
        decreases bytes@.len() - i,
    {
        proof {
            let next = bytes@.take(i + 1);
            assert(next.drop_last() =~= bytes@.take(i as int));
        }
        hash = hash.wrapping_mul(33).wrapping_add(bytes[i] as u32);
        i += 1;
    }
    assert(bytes@.take(i as int) =~= bytes@);
    hash
}

/// The hash is a function of the name alone: whatever two runs of
/// `channel_hash` return for equal names is the same value.
pub proof fn lemma_channel_hash_deterministic(
    first: &str,
    second: &str,
    first_hash: u32,
    second_hash: u32,
)
    requires
        first@ == second@,
        first_hash == djb2(first.spec_bytes()),
        second_hash == djb2(second.spec_bytes()),
    ensures
        first_hash == second_hash,
{
}

} // verus!
