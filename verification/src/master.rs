//! Round messages sent by the master role of the split PRF evaluation.
//!
//! Each message carries exactly one 32-byte inner-hash digest; none carries
//! the master's key share or anything a receiver could recover it from.

use vstd::prelude::*;

verus! {

/// First-round message: the inner digest `H((pms xor ipad) || seed)`.
pub struct MasterMs1 {
    /// The inner hash this round contributes.
    pub inner_hash: [u8; 32],
}

/// Second-round message: the inner digest `H((pms xor ipad) || a1)`.
pub struct MasterMs2 {
    /// The inner hash this round contributes.
    pub inner_hash: [u8; 32],
}

/// Third-round message: the inner digest `H((pms xor ipad) || a2 || seed)`.
pub struct MasterMs3 {
    /// The inner hash this round contributes.
    pub inner_hash: [u8; 32],
}

} // verus!
