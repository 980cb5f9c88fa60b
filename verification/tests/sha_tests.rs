use pop_mpc_core::sha::finalize_sha256_digest;
use pop_mpc_core::sha::sha256_compress;
use pop_mpc_core::sha::sha256_initial_state;

const SHA_ABC: [u8; 32] = [
    0xba, 0x78, 0x16, 0xbf, 0x8f, 0x01, 0xcf, 0xea, 0x41, 0x41, 0x40, 0xde, 0x5d, 0xae, 0x22,
    0x23, 0xb0, 0x03, 0x61, 0xa3, 0x96, 0x17, 0x7a, 0x9c, 0xb4, 0x10, 0xff, 0x61, 0xf2, 0x00,
    0x15, 0xad,
];

const SHA_EMPTY: [u8; 32] = [
    0xe3, 0xb0, 0xc4, 0x42, 0x98, 0xfc, 0x1c, 0x14, 0x9a, 0xfb, 0xf4, 0xc8, 0x99, 0x6f, 0xb9,
    0x24, 0x27, 0xae, 0x41, 0xe4, 0x64, 0x9b, 0x93, 0x4c, 0xa4, 0x95, 0x99, 0x1b, 0x78, 0x52,
    0xb8, 0x55,
];

#[test]
fn digest_of_abc() {
    let iv = sha256_initial_state();
    let d = finalize_sha256_digest(iv, 0, b"abc");
    assert_eq!(d, SHA_ABC);
}

#[test]
fn digest_of_empty_input() {
    let iv = sha256_initial_state();
    let d = finalize_sha256_digest(iv, 0, b"");
    assert_eq!(d, SHA_EMPTY);
}

#[test]
fn digest_spanning_two_blocks() {
    // 100 bytes: the padded message takes two compression blocks.
    let mut msg = [0u8; 100];
    for (i, b) in msg.iter_mut().enumerate() {
        *b = ((i * 7 + 3) % 256) as u8;
    }
    let expected: [u8; 32] = [
        0x5a, 0x2c, 0xda, 0x23, 0x51, 0xd1, 0xcd, 0xd9, 0xdd, 0x79, 0x57, 0xe5, 0x7c, 0x0b, 0x3c,
        0x85, 0x22, 0x45, 0x1f, 0x25, 0xb6, 0x49, 0x45, 0x69, 0xb7, 0xe9, 0x43, 0x88, 0xc4, 0x6f,
        0x09, 0x80,
    ];
    let iv = sha256_initial_state();
    let d = finalize_sha256_digest(iv, 0, &msg);
    assert_eq!(d, expected);
}

#[test]
fn midstate_matches_full_hash() {
    // Finalizing from the midstate of a 64-byte prefix must equal hashing the
    // whole message in one go.
    let mut prefix = [0u8; 64];
    for (i, b) in prefix.iter_mut().enumerate() {
        *b = ((i * 5 + 1) % 256) as u8;
    }
    let suffix = b"hash chain suffix";
    let expected: [u8; 32] = [
        0x4b, 0xa1, 0x7e, 0x18, 0x98, 0xb6, 0x36, 0xc6, 0x92, 0x90, 0xe4, 0x88, 0x49, 0x7d, 0x73,
        0x1e, 0x7d, 0x3f, 0x7f, 0x6d, 0xc9, 0xaa, 0xa2, 0xe7, 0x24, 0x53, 0x70, 0xe6, 0x14, 0x8e,
        0x4f, 0xb6,
    ];

    let iv = sha256_initial_state();
    let midstate = sha256_compress(&iv, &prefix);
    let via_midstate = finalize_sha256_digest(midstate, 64, suffix);
    assert_eq!(via_midstate, expected);

    let mut whole = Vec::new();
    whole.extend_from_slice(&prefix);
    whole.extend_from_slice(suffix);
    let direct = finalize_sha256_digest(iv, 0, &whole);
    assert_eq!(direct, via_midstate);
}

#[test]
fn finalize_is_deterministic() {
    // Identical (midstate, length, suffix) inputs give the identical digest,
    // across repeated calls and across independently built midstates.
    let mut prefix = [0u8; 64];
    for (i, b) in prefix.iter_mut().enumerate() {
        *b = (i % 256) as u8;
    }
    let m1 = sha256_compress(&sha256_initial_state(), &prefix);
    let m2 = sha256_compress(&sha256_initial_state(), &prefix);
    assert_eq!(m1, m2);
    let d1 = finalize_sha256_digest(m1, 64, b"suffix");
    let d2 = finalize_sha256_digest(m2, 64, b"suffix");
    let d3 = finalize_sha256_digest(m1, 64, b"suffix");
    assert_eq!(d1, d2);
    assert_eq!(d1, d3);
}

#[test]
fn initial_state_words() {
    let iv = sha256_initial_state();
    assert_eq!(
        iv,
        [
            0x6a09e667, 0xbb67ae85, 0x3c6ef372, 0xa54ff53a, 0x510e527f, 0x9b05688c, 0x1f83d9ab,
            0x5be0cd19
        ]
    );
}
