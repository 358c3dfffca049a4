use vstd::prelude::*;
use crate::address::Address;
use crate::effects::{Outcome, authorize, fail, result_view, option_view};
use crate::nft::errors::NftError;
use crate::nft::state::{NftConfig, NftConfigView, TokenData, TokenDataView};

verus! {

/// `transfer`: the token now owned by `to`.
pub open spec fn transfer_spec(stored: Option<TokenDataView>, from: Seq<char>, to: Seq<char>) -> Result<
    TokenDataView,
    NftError,
> {
    match stored {
        None => Err(NftError::TokenNotFound),
        Some(t) => if t.owner != from {
            Err(NftError::NotAuthorized)
        } else {
            Ok(TokenDataView { owner: to, ..t })
        },
    }
}

/// Peer-to-peer transfer, with no royalty. The owner must authorize it.
pub fn transfer(from: Address, to: Address, stored: Option<TokenData>) -> (out: Outcome<TokenData, NftError>)
    ensures
        out.auth_view() == (if out.result is Ok { Some(from@) } else { None }),
        result_view(out.result) == transfer_spec(option_view(stored), from@, to@),
{
    let mut token = match stored {
        Some(t) => t,
        None => return fail(None, NftError::TokenNotFound),
    };
    if !token.owner.same_as(&from) {
        return fail(None, NftError::NotAuthorized);
    }
    let auth = authorize(&from);
    token.owner = to;
    Outcome { auth, result: Ok(token) }
}

/// `marketplace_transfer`: the token now owned by `to`, moved on the
/// marketplace's authority.
pub open spec fn marketplace_transfer_spec(
    config: NftConfigView,
    stored: Option<TokenDataView>,
    from: Seq<char>,
    to: Seq<char>,
) -> Result<TokenDataView, NftError> {
    if config.marketplace is None {
        Err(NftError::NotInitialized)
    } else {
        transfer_spec(stored, from, to)
    }
}

/// Transfer made by the marketplace, which moves tokens into its escrow
/// when they are listed and out of it when they are sold or delisted. The
/// configured marketplace must authorize it.
pub fn marketplace_transfer(config: &NftConfig, from: Address, to: Address, stored: Option<TokenData>) -> (out:
    Outcome<TokenData, NftError>)
    ensures
        out.auth_view() == config@.marketplace,
        result_view(out.result) == marketplace_transfer_spec(config@, option_view(stored), from@, to@),
{
    let auth = match &config.marketplace {
        Some(m) => authorize(m),
        None => return fail(None, NftError::NotInitialized),
    };
    let mut token = match stored {
        Some(t) => t,
        None => return fail(auth, NftError::TokenNotFound),
    };
    if !token.owner.same_as(&from) {
        return fail(auth, NftError::NotAuthorized);
    }
    token.owner = to;
    Outcome { auth, result: Ok(token) }
}

} // verus!
