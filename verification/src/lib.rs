//! Verified models of the Stelo Soroban contracts: a single-provider escrow,
//! an N-beneficiary royalty escrow, an NFT registry with royalty policies and
//! a marketplace that sells those NFTs.
//!
//! Each contract entry point is a function from what the contract reads (its
//! stored records, the ledger time, its own address and the call's arguments)
//! to what it does: which address must authorize the call, and either an error
//! or the records to store together with the token transfers and calls to
//! make. Storage, authorization checks and token calls are performed by the
//! host shell around this crate.
pub mod address;
pub mod effects;
pub mod escrow;
pub mod split;
pub mod escrow_v2;
pub mod nft;
pub mod marketplace;
