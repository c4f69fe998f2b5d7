//! The mixing step: the little-endian byte layout of a derivation's inputs and
//! the 64-bit FNV-1a hash over it.
use vstd::prelude::*;

verus! {

/// FNV-1a 64-bit offset basis.
pub const FNV_OFFSET_BASIS: u64 = 0xcbf29ce484222325;

/// FNV-1a 64-bit prime.
pub const FNV_PRIME: u64 = 0x100000001b3;

/// Number of bytes fed to the hash for one derivation: 8 + 16 + 4 + 4.
pub const MIX_LEN: usize = 32;

/// FNV-1a over a byte sequence: start at the offset basis, then for each byte
/// xor it in and multiply by the prime, modulo 2^64.
pub open spec fn fnv1a(bytes: Seq<u8>) -> u64
    decreases bytes.len(),
{
    if bytes.len() == 0 {
        FNV_OFFSET_BASIS
    } else {
        let h = fnv1a(bytes.drop_last()) ^ (bytes.last() as u64);
        ((h as nat * FNV_PRIME as nat) % 0x1_0000_0000_0000_0000) as u64
    }
}

/// The `n` low bytes of `x`, least significant first.
pub open spec fn le_bytes(x: u128, n: nat) -> Seq<u8> {
    Seq::new(n, |k: int| ((x >> (8 * k) as u128) & 0xff) as u8)
}

/// The bytes hashed when an identifier with local id `local`, parent value
/// `parent` and depth `depth` produces its child number `generation`.
pub open spec fn mix_input(local: u64, parent: u128, depth: u32, generation: u32) -> Seq<u8> {
    le_bytes(local as u128, 8) + le_bytes(parent, 16) + le_bytes(depth as u128, 4) + le_bytes(
        generation as u128,
        4,
    )
}

/// The local id given to the child that such an identifier produces.
pub open spec fn mix(local: u64, parent: u128, depth: u32, generation: u32) -> u64 {
    fnv1a(mix_input(local, parent, depth, generation))
}

/// Relies on `fnv::FnvHasher`: `default` starts at the offset basis, `write`
/// folds each byte in with xor then a wrapping multiply by the prime, and
/// `finish` returns the state.
#[verifier::external_body]
fn fnv1a_hash(bytes: &[u8]) -> (r: u64)
    ensures
        r == fnv1a(bytes@),
{
    let mut state = fnv::FnvHasher::default();
    std::hash::Hasher::write(&mut state, bytes);
    std::hash::Hasher::finish(&state)
}

/// Writes the `n` low bytes of `x`, least significant first, into
/// `buf[start..start + n]`, leaving the rest of `buf` as it was.
fn put_le(buf: &mut [u8; MIX_LEN], start: usize, x: u128, n: usize)
    requires
        start + n <= MIX_LEN,
        n <= 16,
    ensures
        final(buf)@.subrange(start as int, start + n) == le_bytes(x, n as nat),
        forall|i: int|
            0 <= i < MIX_LEN && !(start <= i < start + n) ==> #[trigger] final(buf)@[i] == old(
                buf,
            )@[i],
{
    let mut k: usize = 0;
    while k < n
        invariant
            k <= n,
            start + n <= MIX_LEN,
            n <= 16,
            buf@.len() == MIX_LEN,
            forall|j: int| 0 <= j < k ==> #[trigger] buf@[start + j] == le_bytes(x, n as nat)[j],
            forall|i: int|
                0 <= i < MIX_LEN && !(start <= i < start + k) ==> #[trigger] buf@[i] == old(
                    buf,
                )@[i],
        decreases n - k,
    {
        let shift: u128 = 8 * k as u128;
        buf[start + k] = #[verifier::truncate] (((x >> shift) & 0xff) as u8);
        k = k + 1;
    }
    assert forall|j: int| 0 <= j < n implies buf@.subrange(start as int, start + n)[j] == le_bytes(
        x,
        n as nat,
    )[j] by {
        assert(buf@[start + j] == le_bytes(x, n as nat)[j]);
    }
    assert(buf@.subrange(start as int, start + n) =~= le_bytes(x, n as nat));
}

/// Computes the child's local id from its parent's fields and the parent's
/// generation counter after the increment.
pub fn mix_fields(local: u64, parent: u128, depth: u32, generation: u32) -> (r: u64)
    ensures
        r == mix(local, parent, depth, generation),
{
    let mut buf: [u8; MIX_LEN] = [0u8; MIX_LEN];
    put_le(&mut buf, 0, local as u128, 8);
    put_le(&mut buf, 8, parent, 16);
    put_le(&mut buf, 24, depth as u128, 4);
    put_le(&mut buf, 28, generation as u128, 4);
    assert(buf@ =~= mix_input(local, parent, depth, generation)) by {
        assert(buf@ =~= buf@.subrange(0, 8) + buf@.subrange(8, 24) + buf@.subrange(24, 28)
            + buf@.subrange(28, 32));
    }
    fnv1a_hash(buf.as_slice())
}

} // verus!
