//! The NFT registry: tokens with an owner, a metadata hash and a royalty
//! policy (at most 25% in total), minted by an admin and moved either
//! peer-to-peer or by the one marketplace the admin names.
pub mod errors;
pub mod state;
pub mod admin;
pub mod transfer;
pub mod views;
pub mod laws;

use vstd::prelude::*;
use crate::address::Address;
use crate::effects::{Outcome, result_view, option_view};
use crate::nft::errors::NftError;
use crate::nft::state::{NftConfig, RoyaltyPolicy, TokenData};
use crate::nft::admin::{
    Minted, init_spec, mint_spec, set_royalty_policy_spec, set_marketplace_spec,
};
use crate::nft::transfer::{transfer_spec, marketplace_transfer_spec};

verus! {

/// The NFT contract.
pub struct SteloNft;

impl SteloNft {
    pub fn init(config: &NftConfig, admin: Address, marketplace: Address) -> (out: Outcome<
        NftConfig,
        NftError,
    >)
        ensures
            out.auth_view() == (if config@.admin is Some { None } else { Some(admin@) }),
            result_view(out.result) == init_spec(config@, admin@, marketplace@),
    {
        admin::init(config, admin, marketplace)
    }

    pub fn mint(config: &NftConfig, to: Address, metadata_hash: [u8; 32], policy: RoyaltyPolicy) -> (out:
        Outcome<Minted, NftError>)
        ensures
            out.auth_view() == config@.admin,
            result_view(out.result) == mint_spec(config@, to@, metadata_hash, policy@),
    {
        admin::mint(config, to, metadata_hash, policy)
    }

    pub fn set_royalty_policy(config: &NftConfig, stored: Option<TokenData>, policy: RoyaltyPolicy) -> (out:
        Outcome<TokenData, NftError>)
        ensures
            out.auth_view() == config@.admin,
            result_view(out.result) == set_royalty_policy_spec(config@, option_view(stored), policy@),
    {
        admin::set_royalty_policy(config, stored, policy)
    }

    pub fn set_marketplace(config: &NftConfig, marketplace: Address) -> (out: Outcome<NftConfig, NftError>)
        ensures
            out.auth_view() == config@.admin,
            result_view(out.result) == set_marketplace_spec(config@, marketplace@),
    {
        admin::set_marketplace(config, marketplace)
    }

    pub fn transfer(from: Address, to: Address, stored: Option<TokenData>) -> (out: Outcome<
        TokenData,
        NftError,
    >)
        ensures
            out.auth_view() == (if out.result is Ok { Some(from@) } else { None }),
            result_view(out.result) == transfer_spec(option_view(stored), from@, to@),
    {
        transfer::transfer(from, to, stored)
    }

    pub fn marketplace_transfer(
        config: &NftConfig,
        from: Address,
        to: Address,
        stored: Option<TokenData>,
    ) -> (out: Outcome<TokenData, NftError>)
        ensures
            out.auth_view() == config@.marketplace,
            result_view(out.result) == marketplace_transfer_spec(config@, option_view(stored), from@, to@),
    {
        transfer::marketplace_transfer(config, from, to, stored)
    }

    pub fn owner_of(stored: Option<TokenData>) -> (r: Result<Address, NftError>)
        ensures
            match option_view(stored) {
                None => r == Err::<Address, NftError>(NftError::TokenNotFound),
                Some(t) => r matches Ok(a) && a@ == t.owner,
            },
    {
        views::owner_of(stored)
    }

    pub fn metadata_hash(stored: Option<TokenData>) -> (r: Result<[u8; 32], NftError>)
        ensures
            match option_view(stored) {
                None => r == Err::<[u8; 32], NftError>(NftError::TokenNotFound),
                Some(t) => r == Ok::<[u8; 32], NftError>(t.metadata_hash),
            },
    {
        views::metadata_hash(stored)
    }

    pub fn royalty_policy(stored: Option<TokenData>) -> (r: Result<RoyaltyPolicy, NftError>)
        ensures
            match option_view(stored) {
                None => r is Err && r->Err_0 == NftError::TokenNotFound,
                Some(t) => r matches Ok(p) && p@ == t.policy,
            },
    {
        views::royalty_policy(stored)
    }
}

} // verus!
