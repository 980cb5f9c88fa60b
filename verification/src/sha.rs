//! SHA-256 hash-chain primitive: resume a partially absorbed hash from a
//! midstate and finalize it over a public suffix.

use vstd::prelude::*;

verus! {

/// Right rotation of a 32-bit word by `n` positions.
pub open spec fn rotr(x: u32, n: u32) -> u32
    recommends
        0 < n < 32,
{
    (x >> n) | (x << ((32 - n) as u32))
}

/// SHA-256 `Ch` function.
pub open spec fn ch(x: u32, y: u32, z: u32) -> u32 {
    (x & y) ^ (!x & z)
}

/// SHA-256 `Maj` function.
pub open spec fn maj(x: u32, y: u32, z: u32) -> u32 {
    (x & y) ^ (x & z) ^ (y & z)
}

/// SHA-256 big sigma 0.
pub open spec fn big_sigma0(x: u32) -> u32 {
    rotr(x, 2) ^ rotr(x, 13) ^ rotr(x, 22)
}

/// SHA-256 big sigma 1.
pub open spec fn big_sigma1(x: u32) -> u32 {
    rotr(x, 6) ^ rotr(x, 11) ^ rotr(x, 25)
}

/// SHA-256 small sigma 0.
pub open spec fn small_sigma0(x: u32) -> u32 {
    rotr(x, 7) ^ rotr(x, 18) ^ (x >> 3u32)
}

/// SHA-256 small sigma 1.
pub open spec fn small_sigma1(x: u32) -> u32 {
    rotr(x, 17) ^ rotr(x, 19) ^ (x >> 10u32)
}

/// The SHA-256 initial hash value.
pub open spec fn iv_seq() -> Seq<u32> {
    seq![
        0x6a09e667u32,
        0xbb67ae85u32,
        0x3c6ef372u32,
        0xa54ff53au32,
        0x510e527fu32,
        0x9b05688cu32,
        0x1f83d9abu32,
        0x5be0cd19u32,
    ]
}

/// The SHA-256 initial hash value, as the eight 32-bit state words.
pub fn sha256_initial_state() -> (r: [u32; 8])
    ensures
        r@ == iv_seq(),
{
    let r: [u32; 8] = [
        0x6a09e667u32,
        0xbb67ae85u32,
        0x3c6ef372u32,
        0xa54ff53au32,
        0x510e527fu32,
        0x9b05688cu32,
        0x1f83d9abu32,
        0x5be0cd19u32,
    ];
    proof {
        assert(r@ =~= iv_seq());
    }
    r
}

/// The SHA-256 round constants.
pub open spec fn k_seq() -> Seq<u32> {
    seq![
        0x428a2f98u32,
        0x71374491u32,
        0xb5c0fbcfu32,
        0xe9b5dba5u32,
        0x3956c25bu32,
        0x59f111f1u32,
        0x923f82a4u32,
        0xab1c5ed5u32,
        0xd807aa98u32,
        0x12835b01u32,
        0x243185beu32,
        0x550c7dc3u32,
        0x72be5d74u32,
        0x80deb1feu32,
        0x9bdc06a7u32,
        0xc19bf174u32,
        0xe49b69c1u32,
        0xefbe4786u32,
        0x0fc19dc6u32,
        0x240ca1ccu32,
        0x2de92c6fu32,
        0x4a7484aau32,
        0x5cb0a9dcu32,
        0x76f988dau32,
        0x983e5152u32,
        0xa831c66du32,
        0xb00327c8u32,
        0xbf597fc7u32,
        0xc6e00bf3u32,
        0xd5a79147u32,
        0x06ca6351u32,
        0x14292967u32,
        0x27b70a85u32,
        0x2e1b2138u32,
        0x4d2c6dfcu32,
        0x53380d13u32,
        0x650a7354u32,
        0x766a0abbu32,
        0x81c2c92eu32,
        0x92722c85u32,
        0xa2bfe8a1u32,
        0xa81a664bu32,
        0xc24b8b70u32,
        0xc76c51a3u32,
        0xd192e819u32,
        0xd6990624u32,
        0xf40e3585u32,
        0x106aa070u32,
        0x19a4c116u32,
        0x1e376c08u32,
        0x2748774cu32,
        0x34b0bcb5u32,
        0x391c0cb3u32,
        0x4ed8aa4au32,
        0x5b9cca4fu32,
        0x682e6ff3u32,
        0x748f82eeu32,
        0x78a5636fu32,
        0x84c87814u32,
        0x8cc70208u32,
        0x90befffau32,
        0xa4506cebu32,
        0xbef9a3f7u32,
        0xc67178f2u32
    ]
}

/// Round constant `t` of SHA-256.
fn k_at(t: usize) -> (r: u32)
    requires
        t < 64,
    ensures
        r == k_seq()[t as int],
{
    let r: u32 = match t {
        0 => 0x428a2f98,
        1 => 0x71374491,
        2 => 0xb5c0fbcf,
        3 => 0xe9b5dba5,
        4 => 0x3956c25b,
        5 => 0x59f111f1,
        6 => 0x923f82a4,
        7 => 0xab1c5ed5,
        8 => 0xd807aa98,
        9 => 0x12835b01,
        10 => 0x243185be,
        11 => 0x550c7dc3,
        12 => 0x72be5d74,
        13 => 0x80deb1fe,
        14 => 0x9bdc06a7,
        15 => 0xc19bf174,
        16 => 0xe49b69c1,
        17 => 0xefbe4786,
        18 => 0x0fc19dc6,
        19 => 0x240ca1cc,
        20 => 0x2de92c6f,
        21 => 0x4a7484aa,
        22 => 0x5cb0a9dc,
        23 => 0x76f988da,
        24 => 0x983e5152,
        25 => 0xa831c66d,
        26 => 0xb00327c8,
        27 => 0xbf597fc7,
        28 => 0xc6e00bf3,
        29 => 0xd5a79147,
        30 => 0x06ca6351,
        31 => 0x14292967,
        32 => 0x27b70a85,
        33 => 0x2e1b2138,
        34 => 0x4d2c6dfc,
        35 => 0x53380d13,
        36 => 0x650a7354,
        37 => 0x766a0abb,
        38 => 0x81c2c92e,
        39 => 0x92722c85,
        40 => 0xa2bfe8a1,
        41 => 0xa81a664b,
        42 => 0xc24b8b70,
        43 => 0xc76c51a3,
        44 => 0xd192e819,
        45 => 0xd6990624,
        46 => 0xf40e3585,
        47 => 0x106aa070,
        48 => 0x19a4c116,
        49 => 0x1e376c08,
        50 => 0x2748774c,
        51 => 0x34b0bcb5,
        52 => 0x391c0cb3,
        53 => 0x4ed8aa4a,
        54 => 0x5b9cca4f,
        55 => 0x682e6ff3,
        56 => 0x748f82ee,
        57 => 0x78a5636f,
        58 => 0x84c87814,
        59 => 0x8cc70208,
        60 => 0x90befffa,
        61 => 0xa4506ceb,
        62 => 0xbef9a3f7,
        63 => 0xc67178f2,
        _ => 0,
    };
    r
}

/// The 32-bit word formed from the four bytes of `block` starting at `4 * t`,
/// big endian.
pub open spec fn word_at(block: Seq<u8>, t: int) -> u32
    recommends
        0 <= t,
        4 * t + 3 < block.len(),
{
    ((block[4 * t] as u32) << 24u32) | ((block[4 * t + 1] as u32) << 16u32) | ((block[4 * t + 2]
        as u32) << 8u32) | (block[4 * t + 3] as u32)
}

/// Word `t` of the SHA-256 message schedule of a 64-byte block.
pub open spec fn w(block: Seq<u8>, t: int) -> u32
    recommends
        block.len() == 64,
        0 <= t < 64,
    decreases t,
{
    if t < 16 {
        word_at(block, t)
    } else {
        small_sigma1(w(block, t - 2)).wrapping_add(w(block, t - 7)).wrapping_add(
            small_sigma0(w(block, t - 15)),
        ).wrapping_add(w(block, t - 16))
    }
}

/// One SHA-256 round applied to the working variables `s = [a, b, ..., h]`
/// with round constant `kt` and schedule word `wt`.
pub open spec fn round(s: Seq<u32>, kt: u32, wt: u32) -> Seq<u32>
    recommends
        s.len() == 8,
{
    let t1 = s[7].wrapping_add(big_sigma1(s[4])).wrapping_add(ch(s[4], s[5], s[6])).wrapping_add(
        kt,
    ).wrapping_add(wt);
    let t2 = big_sigma0(s[0]).wrapping_add(maj(s[0], s[1], s[2]));
    seq![t1.wrapping_add(t2), s[0], s[1], s[2], s[3].wrapping_add(t1), s[4], s[5], s[6]]
}

/// The working variables after the first `t` rounds of SHA-256 on `block`,
/// starting from `s`.
pub open spec fn rounds(block: Seq<u8>, s: Seq<u32>, t: int) -> Seq<u32>
    recommends
        block.len() == 64,
        s.len() == 8,
        0 <= t <= 64,
    decreases t,
{
    if t <= 0 {
        s
    } else {
        round(rounds(block, s, t - 1), k_seq()[t - 1], w(block, t - 1))
    }
}

/// The SHA-256 compression function: absorb one 64-byte block into the
/// eight-word state `s`.
pub open spec fn compress(s: Seq<u32>, block: Seq<u8>) -> Seq<u32>
    recommends
        s.len() == 8,
        block.len() == 64,
{
    let r = rounds(block, s, 64);
    Seq::new(8, |i: int| s[i].wrapping_add(r[i]))
}

/// Absorb `data` block by block into the state `s`; bytes past the last full
/// 64-byte block are ignored.
pub open spec fn process_blocks(s: Seq<u32>, data: Seq<u8>) -> Seq<u32>
    decreases data.len(),
{
    if data.len() < 64 {
        s
    } else {
        process_blocks(compress(s, data.take(64)), data.skip(64))
    }
}

fn rotr_exec(x: u32, n: u32) -> (r: u32)
    requires
        0 < n < 32,
    ensures
        r == rotr(x, n),
{
    (x >> n) | (x << (32 - n))
}

/// The SHA-256 compression function on an eight-word state and one 64-byte
/// block.
pub fn sha256_compress(state: &[u32; 8], block: &[u8]) -> (r: [u32; 8])
    requires
        block@.len() == 64,
    ensures
        r@ == compress(state@, block@),
{
    let mut ws: Vec<u32> = Vec::new();
    let mut t: usize = 0;
    while t < 16
        invariant
            block@.len() == 64,
            ws@.len() == t,
            t <= 16,
            forall|j: int| 0 <= j < t ==> ws@[j] == w(block@, j),
        decreases 16 - t,
    {
        let v: u32 = ((block[4 * t] as u32) << 24u32) | ((block[4 * t + 1] as u32) << 16u32) | ((
        block[4 * t + 2] as u32) << 8u32) | (block[4 * t + 3] as u32);
        ws.push(v);
        proof {
            assert(ws@[t as int] == w(block@, t as int));
        }
        t = t + 1;
    }
    while t < 64
        invariant
            block@.len() == 64,
            ws@.len() == t,
            16 <= t <= 64,
            forall|j: int| 0 <= j < t ==> ws@[j] == w(block@, j),
        decreases 64 - t,
    {
        let x2: u32 = ws[t - 2];
        let x15: u32 = ws[t - 15];
        let s1: u32 = rotr_exec(x2, 17) ^ rotr_exec(x2, 19) ^ (x2 >> 10u32);
        let s0: u32 = rotr_exec(x15, 7) ^ rotr_exec(x15, 18) ^ (x15 >> 3u32);
        let v: u32 = s1.wrapping_add(ws[t - 7]).wrapping_add(s0).wrapping_add(ws[t - 16]);
        ws.push(v);
        proof {
            assert(s1 == small_sigma1(w(block@, t - 2)));
            assert(s0 == small_sigma0(w(block@, t - 15)));
            assert(ws@[t as int] == w(block@, t as int));
        }
        t = t + 1;
    }
    let mut a: u32 = state[0];
    let mut b: u32 = state[1];
    let mut c: u32 = state[2];
    let mut d: u32 = state[3];
    let mut e: u32 = state[4];
    let mut f: u32 = state[5];
    let mut g: u32 = state[6];
    let mut h: u32 = state[7];
    proof {
        assert(seq![a, b, c, d, e, f, g, h] =~= rounds(block@, state@, 0));
    }
    let mut u: usize = 0;
    while u < 64
        invariant
            block@.len() == 64,
            ws@.len() == 64,
            forall|j: int| 0 <= j < 64 ==> ws@[j] == w(block@, j),
            u <= 64,
            seq![a, b, c, d, e, f, g, h] == rounds(block@, state@, u as int),
        decreases 64 - u,
    {
        let ghost prev = rounds(block@, state@, u as int);
        let kt: u32 = k_at(u);
        let wt: u32 = ws[u];
        let s1: u32 = rotr_exec(e, 6) ^ rotr_exec(e, 11) ^ rotr_exec(e, 25);
        let chv: u32 = (e & f) ^ (!e & g);
        let t1: u32 = h.wrapping_add(s1).wrapping_add(chv).wrapping_add(kt).wrapping_add(wt);
        let s0: u32 = rotr_exec(a, 2) ^ rotr_exec(a, 13) ^ rotr_exec(a, 22);
        let mj: u32 = (a & b) ^ (a & c) ^ (b & c);
        let t2: u32 = s0.wrapping_add(mj);
        let new_a: u32 = t1.wrapping_add(t2);
        let new_e: u32 = d.wrapping_add(t1);
        h = g;
        g = f;
        f = e;
        e = new_e;
        d = c;
        c = b;
        b = a;
        a = new_a;
        proof {
            assert(prev[0] == b && prev[1] == c && prev[2] == d && prev[4] == f && prev[5] == g
                && prev[6] == h);
            assert(seq![a, b, c, d, e, f, g, h] =~= round(prev, kt, wt));
            assert(rounds(block@, state@, u + 1) == round(prev, k_seq()[u as int], w(block@, u as int)));
        }
        u = u + 1;
    }
    let r: [u32; 8] = [
        state[0].wrapping_add(a),
        state[1].wrapping_add(b),
        state[2].wrapping_add(c),
        state[3].wrapping_add(d),
        state[4].wrapping_add(e),
        state[5].wrapping_add(f),
        state[6].wrapping_add(g),
        state[7].wrapping_add(h),
    ];
    proof {
        assert(r@ =~= compress(state@, block@));
    }
    r
}

/// Number of zero bytes standing between the 0x80 marker and the length field
/// when a message of `total` bytes is padded.
pub open spec fn zero_pad_len(total: nat) -> nat {
    (((119 - (total % 64)) % 64) as nat)
}

/// The eight bytes of a 64-bit value, big endian.
pub open spec fn be_u64(x: u64) -> Seq<u8> {
    seq![
        (((x >> 56u64) & 0xff) as u8),
        (((x >> 48u64) & 0xff) as u8),
        (((x >> 40u64) & 0xff) as u8),
        (((x >> 32u64) & 0xff) as u8),
        (((x >> 24u64) & 0xff) as u8),
        (((x >> 16u64) & 0xff) as u8),
        (((x >> 8u64) & 0xff) as u8),
        ((x & 0xff) as u8),
    ]
}

/// The Merkle-Damgard suffix appended to a message of `total` bytes: a 0x80
/// marker, zeros up to the next length-field boundary, and the message length
/// in bits, big endian.
pub open spec fn padding(total: nat) -> Seq<u8>
    recommends
        total * 8 <= u64::MAX,
{
    seq![0x80u8] + Seq::new(zero_pad_len(total), |i: int| 0u8) + be_u64((total * 8) as u64)
}

/// The digest bytes of an eight-word state: each word big endian.
pub open spec fn state_bytes(ws: Seq<u32>) -> Seq<u8> {
    Seq::new(ws.len() * 4, |i: int| (((ws[i / 4] >> ((24 - 8 * (i % 4)) as u32)) & 0xff) as u8))
}

/// The digest obtained by resuming SHA-256 from `state` — the compression
/// state after absorbing the first `pos` bytes of a message — absorbing
/// `input` and padding for a total message length of `pos + input.len()`.
pub open spec fn spec_finalize(state: Seq<u32>, pos: nat, input: Seq<u8>) -> Seq<u8>
    recommends
        state.len() == 8,
        pos % 64 == 0,
{
    state_bytes(process_blocks(state, input + padding(pos + input.len())))
}

/// SHA-256 of a whole message.
pub open spec fn spec_sha256(msg: Seq<u8>) -> Seq<u8> {
    spec_finalize(iv_seq(), 0, msg)
}

/// Absorbing data never changes the width of an eight-word state.
pub proof fn lemma_process_len(s: Seq<u32>, data: Seq<u8>)
    requires
        s.len() == 8,
    ensures
        process_blocks(s, data).len() == 8,
    decreases data.len(),
{
    if data.len() >= 64 {
        lemma_process_len(compress(s, data.take(64)), data.skip(64));
    }
}

/// Every SHA-256 digest holds 32 bytes.
pub proof fn lemma_sha256_len(msg: Seq<u8>)
    ensures
        spec_sha256(msg).len() == 32,
{
    lemma_process_len(iv_seq(), msg + padding(msg.len()));
}

/// Absorbing `a + b` is absorbing `a` and then `b`, when `a` is whole blocks.
pub proof fn lemma_process_append(s: Seq<u32>, a: Seq<u8>, b: Seq<u8>)
    requires
        a.len() % 64 == 0,
    ensures
        process_blocks(s, a + b) == process_blocks(process_blocks(s, a), b),
    decreases a.len(),
{
    if a.len() == 0 {
        assert(a + b =~= b);
    } else {
        assert(a.len() >= 64);
        assert((a + b).take(64) =~= a.take(64));
        assert((a + b).skip(64) =~= a.skip(64) + b);
        assert(a.skip(64).len() % 64 == 0);
        lemma_process_append(compress(s, a.take(64)), a.skip(64), b);
    }
}

/// Merkle-Damgard extension: finalizing from the midstate left by a
/// whole-block prefix yields the digest of the whole message. This is what
/// lets one party hold only the compression state of a secret-dependent
/// prefix and still finish `H(prefix || suffix)` without ever materializing
/// `prefix`.
pub proof fn lemma_midstate_finalize_blocks(prefix: Seq<u8>, suffix: Seq<u8>)
    requires
        prefix.len() % 64 == 0,
        prefix.len() + suffix.len() < 0x2000000000000000,
    ensures
        spec_finalize(process_blocks(iv_seq(), prefix), prefix.len() as nat, suffix)
            == spec_sha256(prefix + suffix),
{
    let total: nat = (prefix.len() + suffix.len()) as nat;
    let padded = suffix + padding(total);
    assert((prefix + suffix) + padding((prefix + suffix).len()) =~= prefix + padded);
    lemma_process_append(iv_seq(), prefix, padded);
}

/// The one-block case of the extension property: the midstate of a single
/// 64-byte prefix is one compression of the initial state.
pub proof fn lemma_midstate_finalize(prefix: Seq<u8>, suffix: Seq<u8>)
    requires
        prefix.len() == 64,
        64 + suffix.len() < 0x2000000000000000,
    ensures
        spec_finalize(compress(iv_seq(), prefix), 64, suffix) == spec_sha256(prefix + suffix),
{
    lemma_midstate_finalize_blocks(prefix, suffix);
    assert(prefix.take(64) =~= prefix);
    assert(process_blocks(iv_seq(), prefix) == process_blocks(
        compress(iv_seq(), prefix.take(64)),
        prefix.skip(64),
    ));
    assert(prefix.skip(64).len() == 0);
    assert(process_blocks(compress(iv_seq(), prefix), prefix.skip(64)) == compress(
        iv_seq(),
        prefix,
    ));
}

/// Append the Merkle-Damgard suffix for a message of `pos + input.len()`
/// bytes to a copy of `input`.
fn pad_message(pos: u64, input: &[u8]) -> (p: Vec<u8>)
    requires
        pos % 64 == 0,
        pos + input@.len() < 0x2000000000000000,
    ensures
        p@ == input@ + padding((pos + input@.len()) as nat),
        p@.len() % 64 == 0,
{
    let total: u64 = pos + (input.len() as u64);
    let ghost gtotal: nat = (pos + input@.len()) as nat;
    let mut p: Vec<u8> = Vec::new();
    let mut i: usize = 0;
    while i < input.len()
        invariant
            i <= input@.len(),
            p@ == input@.take(i as int),
        decreases input@.len() - i,
    {
        p.push(input[i]);
        proof {
            assert(p@ =~= input@.take(i + 1));
        }
        i = i + 1;
    }
    proof {
        assert(input@.take(input@.len() as int) =~= input@);
    }
    p.push(0x80u8);
    let zeros: u64 = (119 - (total % 64)) % 64;
    proof {
        assert(zeros == zero_pad_len(gtotal));
    }
    let mut zc: u64 = 0;
    while zc < zeros
        invariant
            zc <= zeros,
            p@ == input@ + seq![0x80u8] + Seq::new(zc as nat, |j: int| 0u8),
        decreases zeros - zc,
    {
        p.push(0u8);
        proof {
            assert(p@ =~= input@ + seq![0x80u8] + Seq::new((zc + 1) as nat, |j: int| 0u8));
        }
        zc = zc + 1;
    }
    let bits: u64 = total * 8;
    p.push(((bits >> 56u64) & 0xff) as u8);
    p.push(((bits >> 48u64) & 0xff) as u8);
    p.push(((bits >> 40u64) & 0xff) as u8);
    p.push(((bits >> 32u64) & 0xff) as u8);
    p.push(((bits >> 24u64) & 0xff) as u8);
    p.push(((bits >> 16u64) & 0xff) as u8);
    p.push(((bits >> 8u64) & 0xff) as u8);
    p.push((bits & 0xff) as u8);
    proof {
        assert(p@ =~= input@ + padding(gtotal));
        assert(p@.len() == input@.len() + 1 + zero_pad_len(gtotal) + 8);
        assert(p@.len() % 64 == 0);
    }
    p
}

/// The digest bytes of an eight-word state, each word big endian.
fn digest_bytes(st: &[u32; 8]) -> (r: [u8; 32])
    ensures
        r@ == state_bytes(st@),
{
    let r: [u8; 32] = [
        ((st[0] >> 24u32) & 0xff) as u8,
        ((st[0] >> 16u32) & 0xff) as u8,
        ((st[0] >> 8u32) & 0xff) as u8,
        ((st[0] >> 0u32) & 0xff) as u8,
        ((st[1] >> 24u32) & 0xff) as u8,
        ((st[1] >> 16u32) & 0xff) as u8,
        ((st[1] >> 8u32) & 0xff) as u8,
        ((st[1] >> 0u32) & 0xff) as u8,
        ((st[2] >> 24u32) & 0xff) as u8,
        ((st[2] >> 16u32) & 0xff) as u8,
        ((st[2] >> 8u32) & 0xff) as u8,
        ((st[2] >> 0u32) & 0xff) as u8,
        ((st[3] >> 24u32) & 0xff) as u8,
        ((st[3] >> 16u32) & 0xff) as u8,
        ((st[3] >> 8u32) & 0xff) as u8,
        ((st[3] >> 0u32) & 0xff) as u8,
        ((st[4] >> 24u32) & 0xff) as u8,
        ((st[4] >> 16u32) & 0xff) as u8,
        ((st[4] >> 8u32) & 0xff) as u8,
        ((st[4] >> 0u32) & 0xff) as u8,
        ((st[5] >> 24u32) & 0xff) as u8,
        ((st[5] >> 16u32) & 0xff) as u8,
        ((st[5] >> 8u32) & 0xff) as u8,
        ((st[5] >> 0u32) & 0xff) as u8,
        ((st[6] >> 24u32) & 0xff) as u8,
        ((st[6] >> 16u32) & 0xff) as u8,
        ((st[6] >> 8u32) & 0xff) as u8,
        ((st[6] >> 0u32) & 0xff) as u8,
        ((st[7] >> 24u32) & 0xff) as u8,
        ((st[7] >> 16u32) & 0xff) as u8,
        ((st[7] >> 8u32) & 0xff) as u8,
        ((st[7] >> 0u32) & 0xff) as u8,
    ];
    proof {
        assert(r@[0] == state_bytes(st@)[0]);
        assert(r@[1] == state_bytes(st@)[1]);
        assert(r@[2] == state_bytes(st@)[2]);
        assert(r@[3] == state_bytes(st@)[3]);
        assert(r@[4] == state_bytes(st@)[4]);
        assert(r@[5] == state_bytes(st@)[5]);
        assert(r@[6] == state_bytes(st@)[6]);
        assert(r@[7] == state_bytes(st@)[7]);
        assert(r@[8] == state_bytes(st@)[8]);
        assert(r@[9] == state_bytes(st@)[9]);
        assert(r@[10] == state_bytes(st@)[10]);
        assert(r@[11] == state_bytes(st@)[11]);
        assert(r@[12] == state_bytes(st@)[12]);
        assert(r@[13] == state_bytes(st@)[13]);
        assert(r@[14] == state_bytes(st@)[14]);
        assert(r@[15] == state_bytes(st@)[15]);
        assert(r@[16] == state_bytes(st@)[16]);
        assert(r@[17] == state_bytes(st@)[17]);
        assert(r@[18] == state_bytes(st@)[18]);
        assert(r@[19] == state_bytes(st@)[19]);
        assert(r@[20] == state_bytes(st@)[20]);
        assert(r@[21] == state_bytes(st@)[21]);
        assert(r@[22] == state_bytes(st@)[22]);
        assert(r@[23] == state_bytes(st@)[23]);
        assert(r@[24] == state_bytes(st@)[24]);
        assert(r@[25] == state_bytes(st@)[25]);
        assert(r@[26] == state_bytes(st@)[26]);
        assert(r@[27] == state_bytes(st@)[27]);
        assert(r@[28] == state_bytes(st@)[28]);
        assert(r@[29] == state_bytes(st@)[29]);
        assert(r@[30] == state_bytes(st@)[30]);
        assert(r@[31] == state_bytes(st@)[31]);
        assert(r@ =~= state_bytes(st@));
    }
    r
}

/// Resume SHA-256 from `state`, the compression state reached after `pos`
/// message bytes, absorb `input`, and finalize with the standard padding for
/// a message of `pos + input.len()` bytes.
pub fn finalize_sha256_digest(state: [u32; 8], pos: u64, input: &[u8]) -> (r: [u8; 32])
    requires
        pos % 64 == 0,
        pos + input@.len() < 0x2000000000000000,
    ensures
        r@ == spec_finalize(state@, pos as nat, input@),
{
    let padded: Vec<u8> = pad_message(pos, input);
    let plen: usize = padded.len();
    let nblocks: usize = plen / 64;
    proof {
        assert(padded@.len() == plen);
        assert(padded@.len() == 64 * nblocks);
    }
    let mut st: [u32; 8] = state;
    let mut bi: usize = 0;
    while bi < nblocks
        invariant
            padded@.len() == 64 * nblocks,
            padded@.len() <= usize::MAX,
            bi <= nblocks,
            st@ == process_blocks(state@, padded@.take(64 * bi as int)),
        decreases nblocks - bi,
    {
        let mut blk: Vec<u8> = Vec::new();
        let mut j: usize = 0;
        while j < 64
            invariant
                padded@.len() == 64 * nblocks,
                padded@.len() <= usize::MAX,
                bi < nblocks,
                j <= 64,
                blk@ == padded@.subrange(64 * bi as int, 64 * bi as int + j as int),
            decreases 64 - j,
        {
            proof {
                assert(64 * bi + j < 64 * nblocks) by (nonlinear_arith)
                    requires
                        bi < nblocks,
                        j < 64,
                ;
            }
            blk.push(padded[64 * bi + j]);
            proof {
                assert(blk@ =~= padded@.subrange(64 * bi as int, 64 * bi as int + j + 1));
            }
            j = j + 1;
        }
        let ghost done = padded@.take(64 * bi as int);
        let ghost mid = process_blocks(state@, done);
        st = sha256_compress(&st, blk.as_slice());
        proof {
            lemma_process_append(state@, done, blk@);
            assert(done + blk@ =~= padded@.take(64 * (bi + 1)));
            assert(blk@.take(64) =~= blk@);
            assert(process_blocks(mid, blk@) == process_blocks(
                compress(mid, blk@.take(64)),
                blk@.skip(64),
            ));
            assert(blk@.skip(64).len() == 0);
            assert(process_blocks(compress(mid, blk@), blk@.skip(64)) == compress(mid, blk@));
        }
        bi = bi + 1;
    }
    proof {
        assert(padded@.take(64 * nblocks as int) =~= padded@);
    }
    digest_bytes(&st)
}

} // verus!
