use vstd::prelude::*;
use crate::address::Address;
use crate::effects::option_view;
use crate::nft::errors::NftError;
use crate::nft::state::{RoyaltyPolicy, TokenData};

verus! {

/// The owner of a token.
pub fn owner_of(stored: Option<TokenData>) -> (r: Result<Address, NftError>)
    ensures
        match option_view(stored) {
            None => r == Err::<Address, NftError>(NftError::TokenNotFound),
            Some(t) => r matches Ok(a) && a@ == t.owner,
        },
{
    match stored {
        Some(t) => Ok(t.owner),
        None => Err(NftError::TokenNotFound),
    }
}

/// The metadata hash of a token.
pub fn metadata_hash(stored: Option<TokenData>) -> (r: Result<[u8; 32], NftError>)
    ensures
        match option_view(stored) {
            None => r == Err::<[u8; 32], NftError>(NftError::TokenNotFound),
            Some(t) => r == Ok::<[u8; 32], NftError>(t.metadata_hash),
        },
{
    match stored {
        Some(t) => Ok(t.metadata_hash),
        None => Err(NftError::TokenNotFound),
    }
}

/// The royalty policy of a token.
pub fn royalty_policy(stored: Option<TokenData>) -> (r: Result<RoyaltyPolicy, NftError>)
    ensures
        match option_view(stored) {
            None => r is Err && r->Err_0 == NftError::TokenNotFound,
            Some(t) => r matches Ok(p) && p@ == t.policy,
        },
{
    match stored {
        Some(t) => Ok(t.policy),
        None => Err(NftError::TokenNotFound),
    }
}

} // verus!
