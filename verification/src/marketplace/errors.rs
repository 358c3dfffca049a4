use vstd::prelude::*;

verus! {

#[derive(Clone, Copy, Debug, PartialEq, Eq, PartialOrd, Ord, Structural)]
pub enum MarketError {
    NotInitialized,
    AlreadyInitialized,
    NotAuthorized,
    AlreadyListed,
    NotListed,
    InvalidPrice,
    InvalidSplit,
    Overflow,
    InsufficientPayment,
}

} // verus!
