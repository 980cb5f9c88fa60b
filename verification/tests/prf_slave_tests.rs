use pop_mpc_core::master::MasterMs1;
use pop_mpc_core::master::MasterMs2;
use pop_mpc_core::master::MasterMs3;
use pop_mpc_core::sha::finalize_sha256_digest;
use pop_mpc_core::sha::sha256_compress;
use pop_mpc_core::sha::sha256_initial_state;
use pop_mpc_core::slave::PrfSlave;

// Reference values of the TLS PRF chain for `secret = 01..20`,
// `seed = a0..af`: A(i) = HMAC-SHA256(secret, A(i-1)) with A(0) = seed, and
// P_i = HMAC-SHA256(secret, A(i) || seed).
const A1: [u8; 32] = [
    0x3e, 0xb2, 0x9a, 0x34, 0xaf, 0xe9, 0x27, 0xc1, 0x03, 0xbd, 0xfe, 0xf5, 0x22, 0xfe, 0xed,
    0xcb, 0x05, 0x7a, 0xae, 0x72, 0x90, 0x3f, 0x12, 0x52, 0x7f, 0xbe, 0xbe, 0x45, 0x24, 0x09,
    0x09, 0x45,
];
const A2: [u8; 32] = [
    0x37, 0x26, 0xb0, 0x31, 0x65, 0x5d, 0xed, 0x24, 0x0e, 0x12, 0xdc, 0x08, 0xcb, 0xc4, 0xa7,
    0x46, 0x3e, 0xf6, 0x9b, 0x61, 0x9d, 0x4a, 0x37, 0x64, 0xb8, 0x18, 0x1c, 0x3a, 0x61, 0x97,
    0xf9, 0xa6,
];
const P1: [u8; 32] = [
    0x56, 0x2a, 0xad, 0x8e, 0x23, 0x97, 0x93, 0x52, 0x86, 0x9f, 0xbb, 0x33, 0x89, 0xe9, 0x0d,
    0xc4, 0x33, 0xf1, 0xa5, 0x96, 0xfa, 0x4f, 0xe7, 0xe8, 0xed, 0xcc, 0xa6, 0x2a, 0xca, 0x8e,
    0xb3, 0x5b,
];
const P2: [u8; 32] = [
    0x65, 0x1b, 0x3f, 0x45, 0x1d, 0xd8, 0x2d, 0x7a, 0x04, 0x22, 0xda, 0xcf, 0x9b, 0x86, 0x33,
    0x30, 0x1e, 0x17, 0x3a, 0x1c, 0x86, 0xd9, 0x39, 0xba, 0x1f, 0x65, 0x67, 0xc5, 0x98, 0x4c,
    0x8e, 0x03,
];

fn secret_bytes() -> [u8; 32] {
    let mut s = [0u8; 32];
    for (i, b) in s.iter_mut().enumerate() {
        *b = (i + 1) as u8;
    }
    s
}

fn seed_bytes() -> [u8; 16] {
    let mut s = [0u8; 16];
    for (i, b) in s.iter_mut().enumerate() {
        *b = 0xa0 + i as u8;
    }
    s
}

/// The HMAC key block: the secret zero-padded to 64 bytes, xored with `pad`.
fn xored_key_block(secret: &[u8; 32], pad: u8) -> [u8; 64] {
    let mut block = [0u8; 64];
    for (i, b) in block.iter_mut().enumerate() {
        if i < 32 {
            *b = secret[i] ^ pad;
        } else {
            *b = pad;
        }
    }
    block
}

fn midstate(block: &[u8; 64]) -> [u32; 8] {
    sha256_compress(&sha256_initial_state(), block)
}

#[test]
fn three_round_exchange_reproduces_prf_chain() {
    // The secret is held as two xor shares; combining them restores the
    // pre-master secret the reference PRF is keyed with.
    let mut mask = [0u8; 32];
    for (i, b) in mask.iter_mut().enumerate() {
        *b = ((i * 37 + 11) % 256) as u8;
    }
    let share_master: Vec<u8> = secret_bytes().iter().zip(mask.iter()).map(|(a, b)| a ^ b).collect();
    let mut secret = [0u8; 32];
    for (i, b) in secret.iter_mut().enumerate() {
        *b = share_master[i] ^ mask[i];
    }
    assert_eq!(secret, secret_bytes());

    let seed = seed_bytes();
    let inner = midstate(&xored_key_block(&secret, 0x36));
    let outer = midstate(&xored_key_block(&secret, 0x5c));

    // Round 1: the master's inner digest of the seed yields A(1).
    let ih1 = finalize_sha256_digest(inner, 64, &seed);
    let slave = PrfSlave::new();
    let (m1, slave) = slave.next(outer, MasterMs1 { inner_hash: ih1 });
    assert_eq!(m1.a1, A1);

    // Round 2: the inner digest of A(1) yields A(2).
    let ih2 = finalize_sha256_digest(inner, 64, &m1.a1);
    let (m2, slave) = slave.next(MasterMs2 { inner_hash: ih2 });
    assert_eq!(m2.a2, A2);

    // Round 3: the inner digest of A(2) || seed yields the output chunk P_2.
    let mut a2_seed = Vec::new();
    a2_seed.extend_from_slice(&m2.a2);
    a2_seed.extend_from_slice(&seed);
    let ih3 = finalize_sha256_digest(inner, 64, &a2_seed);
    let (m3, _terminal) = slave.next(MasterMs3 { inner_hash: ih3 });
    assert_eq!(m3.p2, P2);
}

#[test]
fn prf_output_matches_reference_first_64_bytes() {
    // P_SHA256(secret, seed) truncated to 64 bytes is P_1 || P_2.
    let secret = secret_bytes();
    let seed = seed_bytes();
    let inner = midstate(&xored_key_block(&secret, 0x36));
    let outer = midstate(&xored_key_block(&secret, 0x5c));

    let ih1 = finalize_sha256_digest(inner, 64, &seed);
    let slave = PrfSlave::new();
    let (m1, slave) = slave.next(outer, MasterMs1 { inner_hash: ih1 });

    let mut a1_seed = Vec::new();
    a1_seed.extend_from_slice(&m1.a1);
    a1_seed.extend_from_slice(&seed);
    let ih_p1 = finalize_sha256_digest(inner, 64, &a1_seed);
    let p1 = finalize_sha256_digest(outer, 64, &ih_p1);

    let ih2 = finalize_sha256_digest(inner, 64, &m1.a1);
    let (m2, slave) = slave.next(MasterMs2 { inner_hash: ih2 });

    let mut a2_seed = Vec::new();
    a2_seed.extend_from_slice(&m2.a2);
    a2_seed.extend_from_slice(&seed);
    let ih_p2 = finalize_sha256_digest(inner, 64, &a2_seed);
    let (m3, _terminal) = slave.next(MasterMs3 { inner_hash: ih_p2 });

    let mut out = Vec::new();
    out.extend_from_slice(&p1);
    out.extend_from_slice(&m3.p2);
    let mut expected = Vec::new();
    expected.extend_from_slice(&P1);
    expected.extend_from_slice(&P2);
    assert_eq!(out, expected);
}

#[test]
fn rounds_run_in_lockstep_only() {
    // Each state value is consumed by `next`; the round-2 message can only
    // ever reach a slave that finished round 1, because only `PrfSlave<Ms1>`
    // has a `next` that accepts `MasterMs2`. This drives the machine through
    // the one order the types admit.
    let secret = secret_bytes();
    let inner = midstate(&xored_key_block(&secret, 0x36));
    let outer = midstate(&xored_key_block(&secret, 0x5c));

    let ih1 = finalize_sha256_digest(inner, 64, &seed_bytes());
    let (m1, after_round1) = PrfSlave::new().next(outer, MasterMs1 { inner_hash: ih1 });
    let ih2 = finalize_sha256_digest(inner, 64, &m1.a1);
    let (_m2, _after_round2) = after_round1.next(MasterMs2 { inner_hash: ih2 });
}
