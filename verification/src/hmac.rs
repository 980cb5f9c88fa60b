//! HMAC-SHA-256 and the TLS pseudo-random function, stated over the hash
//! specification, together with the midstate algebra that lets the two roles
//! evaluate the PRF chain jointly.
//!
//! A role never holds the whole key block here: it holds only the compression
//! state left by `key xor opad` (or `key xor ipad`), and every lemma speaks of
//! those midstates.

use vstd::prelude::*;

use crate::sha::compress;
use crate::sha::iv_seq;
use crate::sha::lemma_midstate_finalize;
use crate::sha::lemma_sha256_len;
use crate::sha::spec_finalize;
use crate::sha::spec_sha256;

verus! {

/// Each byte of `key_block` xored with the constant `p`.
pub open spec fn xor_key_pad(key_block: Seq<u8>, p: u8) -> Seq<u8> {
    Seq::new(key_block.len(), |i: int| key_block[i] ^ p)
}

/// HMAC-SHA-256 of `msg` under a key already padded to one 64-byte block:
/// `H((key xor opad) || H((key xor ipad) || msg))`.
pub open spec fn spec_hmac(key_block: Seq<u8>, msg: Seq<u8>) -> Seq<u8>
    recommends
        key_block.len() == 64,
{
    spec_sha256(xor_key_pad(key_block, 0x5c) + spec_sha256(xor_key_pad(key_block, 0x36) + msg))
}

/// The outer hash-chain midstate held by a role: the compression state after
/// absorbing `key xor opad`.
pub open spec fn outer_midstate(key_block: Seq<u8>) -> Seq<u32>
    recommends
        key_block.len() == 64,
{
    compress(iv_seq(), xor_key_pad(key_block, 0x5c))
}

/// The inner hash-chain midstate held by the peer: the compression state
/// after absorbing `key xor ipad`.
pub open spec fn inner_midstate(key_block: Seq<u8>) -> Seq<u32>
    recommends
        key_block.len() == 64,
{
    compress(iv_seq(), xor_key_pad(key_block, 0x36))
}

/// Link `i` of the TLS PRF chain: `A(0) = seed`, `A(i) = HMAC(key, A(i-1))`.
pub open spec fn prf_a(key_block: Seq<u8>, seed: Seq<u8>, i: nat) -> Seq<u8>
    recommends
        key_block.len() == 64,
    decreases i,
{
    if i == 0 {
        seed
    } else {
        spec_hmac(key_block, prf_a(key_block, seed, (i - 1) as nat))
    }
}

/// Output chunk `i` of the TLS PRF: `P_i = HMAC(key, A(i) || seed)`.
pub open spec fn prf_p(key_block: Seq<u8>, seed: Seq<u8>, i: nat) -> Seq<u8>
    recommends
        key_block.len() == 64,
        i >= 1,
{
    spec_hmac(key_block, prf_a(key_block, seed, i) + seed)
}

/// Finalizing the inner midstate over `msg` yields the inner digest
/// `H((key xor ipad) || msg)`: how a role produces a round's inner hash from
/// its midstate alone.
pub proof fn lemma_inner_midstate_finalize(key_block: Seq<u8>, msg: Seq<u8>)
    requires
        key_block.len() == 64,
        64 + msg.len() < 0x2000000000000000,
    ensures
        spec_finalize(inner_midstate(key_block), 64, msg) == spec_sha256(
            xor_key_pad(key_block, 0x36) + msg,
        ),
{
    lemma_midstate_finalize(xor_key_pad(key_block, 0x36), msg);
}

/// Finalizing the outer midstate over the inner digest of `msg` is exactly
/// HMAC of `msg`: the one-round correctness of the split evaluation.
pub proof fn lemma_hmac_midstate(key_block: Seq<u8>, msg: Seq<u8>)
    requires
        key_block.len() == 64,
    ensures
        spec_finalize(
            outer_midstate(key_block),
            64,
            spec_sha256(xor_key_pad(key_block, 0x36) + msg),
        ) == spec_hmac(key_block, msg),
{
    let inner = spec_sha256(xor_key_pad(key_block, 0x36) + msg);
    lemma_sha256_len(xor_key_pad(key_block, 0x36) + msg);
    lemma_midstate_finalize(xor_key_pad(key_block, 0x5c), inner);
}

/// The three digests a slave finalizes over its outer midstate — fed the
/// peer's inner digests of the seed, of `A(1)`, and of `A(2) || seed` — are
/// exactly the reference values `A(1)`, `A(2)` and `P_2` of the TLS PRF chain
/// computed from the whole key in one place. The split three-round exchange
/// therefore reproduces the single-party PRF bit for bit.
pub proof fn lemma_prf_chain(key_block: Seq<u8>, seed: Seq<u8>)
    requires
        key_block.len() == 64,
    ensures
        spec_finalize(
            outer_midstate(key_block),
            64,
            spec_sha256(xor_key_pad(key_block, 0x36) + seed),
        ) == prf_a(key_block, seed, 1),
        spec_finalize(
            outer_midstate(key_block),
            64,
            spec_sha256(xor_key_pad(key_block, 0x36) + prf_a(key_block, seed, 1)),
        ) == prf_a(key_block, seed, 2),
        spec_finalize(
            outer_midstate(key_block),
            64,
            spec_sha256(xor_key_pad(key_block, 0x36) + (prf_a(key_block, seed, 2) + seed)),
        ) == prf_p(key_block, seed, 2),
{
    lemma_hmac_midstate(key_block, seed);
    assert(prf_a(key_block, seed, 0) == seed);
    assert(prf_a(key_block, seed, 1) == spec_hmac(key_block, seed));
    lemma_hmac_midstate(key_block, prf_a(key_block, seed, 1));
    assert(prf_a(key_block, seed, 2) == spec_hmac(key_block, prf_a(key_block, seed, 1)));
    lemma_hmac_midstate(key_block, prf_a(key_block, seed, 2) + seed);
}

} // verus!
