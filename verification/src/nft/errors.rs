use vstd::prelude::*;

verus! {

#[derive(Clone, Copy, Debug, PartialEq, Eq, PartialOrd, Ord, Structural)]
pub enum NftError {
    AlreadyInitialized,
    NotInitialized,
    NotAuthorized,
    TokenExists,
    TokenNotFound,
    /// The royalty is over the cap, or its shares overflow.
    InvalidRoyalty,
    NotMarketplace,
    InvalidSplit,
}

} // verus!
