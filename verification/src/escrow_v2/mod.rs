//! The royalty-split escrow: like the single-provider escrow, but the net
//! amount goes to up to eight beneficiaries, each with a share in basis
//! points, the shares adding up to 10000.
pub mod errors;
pub mod state;
pub mod lock;
pub mod release;
pub mod refund;
pub mod dispute;
pub mod laws;

use vstd::prelude::*;

verus! {

/// The royalty-split escrow contract.
pub struct EscrowV2;

impl EscrowV2 {
    /// The contract's interface version.
    pub fn version() -> (v: u32)
        ensures
            v == 2,
    {
        2
    }
}

} // verus!
