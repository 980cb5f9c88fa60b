//! The slave role of the split PRF evaluation, as a typestate machine.
//!
//! The slave holds the outer hash-chain midstate `H(pms xor opad)` and, one
//! round at a time, finishes the outer hash over the inner digest the master
//! sends. Each `next` consumes the state value and returns the round's digest
//! together with the next state, so a round can neither be replayed nor run
//! out of order: a state of round `n` only accepts the master's round-`n`
//! message.

use vstd::prelude::*;

use crate::master::MasterMs1;
use crate::master::MasterMs2;
use crate::master::MasterMs3;
use crate::sha::finalize_sha256_digest;
use crate::sha::spec_finalize;

verus! {

/// Round tag: no round has run; the outer midstate has not been handed over.
pub struct Initialized;

/// Round tag: the first round is done.
pub struct Ms1 {
    /// H(pms xor opad)
    outer_hash_state: [u32; 8],
}

/// Round tag: the second round is done.
pub struct Ms2 {
    /// H(pms xor opad)
    outer_hash_state: [u32; 8],
}

/// Round tag: the master-secret rounds are done; key expansion may follow.
pub struct Ke1;

/// The rounds a slave can stand in.
pub trait State {}

impl State for Initialized {}

impl State for Ms1 {}

impl State for Ms2 {}

impl State for Ke1 {}

/// The slave's side of the two-party PRF protocol, at round `S`.
pub struct PrfSlave<S> where S: State {
    /// State of 2PC PRF Protocol
    state: S,
}

/// The slave's first-round artifact.
pub struct SlaveMs1 {
    /// H((pms xor opad) || H((pms xor ipad) || seed))
    pub a1: [u8; 32],
}

/// The slave's second-round artifact.
pub struct SlaveMs2 {
    /// H((pms xor opad) || H((pms xor ipad) || a1))
    pub a2: [u8; 32],
}

/// The slave's third-round artifact.
pub struct SlaveMs3 {
    /// H((pms xor opad) || H((pms xor ipad) || a2 || seed))
    pub p2: [u8; 32],
}

impl PrfSlave<Initialized> {
    /// A slave that has run no round yet.
    pub fn new() -> Self {
        Self { state: Initialized }
    }

    /// First round: finish the outer hash chain over the master's inner
    /// digest, producing `a1` and the state that keeps the outer midstate for
    /// the following rounds.
    pub fn next(self, outer_hash_state: [u32; 8], m: MasterMs1) -> (r: (SlaveMs1, PrfSlave<Ms1>))
        ensures
            r.0.a1@ == spec_finalize(outer_hash_state@, 64, m.inner_hash@),
            r.1.outer_state() == outer_hash_state@,
    {
        // H((pms xor opad) || H((pms xor ipad) || seed))
        let a1 = finalize_sha256_digest(outer_hash_state, 64, m.inner_hash.as_slice());

        (SlaveMs1 { a1 }, PrfSlave { state: Ms1 { outer_hash_state } })
    }
}

impl PrfSlave<Ms1> {
    /// The outer hash-chain midstate this state holds.
    pub closed spec fn outer_state(self) -> Seq<u32> {
        self.state.outer_hash_state@
    }

    /// Second round: finish the outer hash chain over the master's inner
    /// digest of `a1`, producing `a2`.
    pub fn next(self, m: MasterMs2) -> (r: (SlaveMs2, PrfSlave<Ms2>))
        ensures
            r.0.a2@ == spec_finalize(self.outer_state(), 64, m.inner_hash@),
            r.1.outer_state() == self.outer_state(),
    {
        // H((pms xor opad) || H((pms xor ipad) || a1))
        let a2 = finalize_sha256_digest(self.state.outer_hash_state, 64, m.inner_hash.as_slice());

        (
            SlaveMs2 { a2 },
            PrfSlave { state: Ms2 { outer_hash_state: self.state.outer_hash_state } },
        )
    }
}

impl PrfSlave<Ms2> {
    /// The outer hash-chain midstate this state holds.
    pub closed spec fn outer_state(self) -> Seq<u32> {
        self.state.outer_hash_state@
    }

    /// Third round: finish the outer hash chain over the master's inner
    /// digest of `a2 || seed`, producing the PRF output chunk `p2` and the
    /// terminal state.
    pub fn next(self, m: MasterMs3) -> (r: (SlaveMs3, PrfSlave<Ke1>))
        ensures
            r.0.p2@ == spec_finalize(self.outer_state(), 64, m.inner_hash@),
    {
        // H((pms xor opad) || H((pms xor ipad) || a2 || seed))
        let p2 = finalize_sha256_digest(self.state.outer_hash_state, 64, m.inner_hash.as_slice());

        (SlaveMs3 { p2 }, PrfSlave { state: Ke1 })
    }
}

} // verus!
