use vstd::prelude::*;

verus! {

#[derive(Clone, Copy, Debug, PartialEq, Eq, PartialOrd, Ord, Structural)]
pub enum EscrowErrorV2 {
    AlreadyExists,
    NotFound,
    InvalidAmount,
    InvalidFee,
    AlreadyExpired,
    NotLocked,
    NotDisputed,
    NotAuthorized,
    NotExpired,
    InvalidPercent,
    Overflow,
    BpsSumMismatch,
    TooManyBeneficiaries,
    EmptyBeneficiaries,
}

} // verus!
