//! What holds of the NFT registry across its entry points.
use vstd::prelude::*;
use crate::nft::errors::NftError;
use crate::nft::state::{MAX_ROYALTY_BPS, NftConfigView, RoyaltyPolicyView, TokenDataView};
use crate::nft::admin::{
    MintedView, init_spec, mint_spec, set_royalty_policy_spec, set_marketplace_spec,
    validate_policy_spec, share_sum,
};
use crate::nft::transfer::{transfer_spec, marketplace_transfer_spec};

verus! {

/// The settings after a mint: the last token id handed out is the new one.
pub open spec fn after_mint(config: NftConfigView, m: MintedView) -> NftConfigView {
    NftConfigView { next_token_id: Some(m.next_token_id), ..config }
}

/// The contract can be initialized only once.
pub proof fn lemma_init_once(config: NftConfigView, admin: Seq<char>, marketplace: Seq<char>)
    ensures
        init_spec(config, admin, marketplace) matches Ok(c) ==> init_spec(c, admin, marketplace)
            == Err::<NftConfigView, NftError>(NftError::AlreadyInitialized),
        config.admin is Some ==> init_spec(config, admin, marketplace) == Err::<NftConfigView, NftError>(
            NftError::AlreadyInitialized,
        ),
{
}

/// Token ids are handed out in sequence: after `init`, the first mint gets
/// id 1, and each mint gets the id after the one before it.
pub proof fn lemma_mint_serial(
    config: NftConfigView,
    admin: Seq<char>,
    marketplace: Seq<char>,
    to: Seq<char>,
    metadata_hash: [u8; 32],
    policy: RoyaltyPolicyView,
    to2: Seq<char>,
    metadata_hash2: [u8; 32],
    policy2: RoyaltyPolicyView,
)
    requires
        validate_policy_spec(policy) is Ok,
        validate_policy_spec(policy2) is Ok,
    ensures
        init_spec(config, admin, marketplace) matches Ok(c) ==> mint_spec(c, to, metadata_hash, policy)
            matches Ok(m) && m.token_id == 1,
        mint_spec(config, to, metadata_hash, policy) matches Ok(m1) ==> {
            &&& m1.token_id >= 1
            &&& m1.next_token_id == m1.token_id
            &&& m1.token_id < u32::MAX ==> (mint_spec(
                after_mint(config, m1),
                to2,
                metadata_hash2,
                policy2,
            ) matches Ok(m2) && m2.token_id == m1.token_id + 1)
        },
{
}

/// A minted token is owned by its recipient and keeps the metadata hash and
/// royalty policy it was minted with; that policy, like any policy the admin
/// sets later, is within the royalty cap and its shares add up to its total.
pub proof fn lemma_minted_token(
    config: NftConfigView,
    stored: Option<TokenDataView>,
    to: Seq<char>,
    metadata_hash: [u8; 32],
    policy: RoyaltyPolicyView,
)
    ensures
        mint_spec(config, to, metadata_hash, policy) matches Ok(m) ==> {
            &&& m.token.owner == to
            &&& m.token.metadata_hash == metadata_hash
            &&& m.token.policy == policy
            &&& policy.total_bps <= MAX_ROYALTY_BPS
            &&& share_sum(policy) == policy.total_bps
        },
        set_royalty_policy_spec(config, stored, policy) matches Ok(t) ==> {
            &&& t.policy == policy
            &&& policy.total_bps <= MAX_ROYALTY_BPS
            &&& share_sum(policy) == policy.total_bps
            &&& stored matches Some(old) && t == (TokenDataView { policy, ..old })
        },
{
}

/// Only an initialized contract mints or changes policies and settings,
/// each on its admin's authority (which those calls demand).
pub proof fn lemma_admin_gates(
    config: NftConfigView,
    stored: Option<TokenDataView>,
    to: Seq<char>,
    metadata_hash: [u8; 32],
    policy: RoyaltyPolicyView,
    marketplace: Seq<char>,
)
    ensures
        config.admin is None ==> mint_spec(config, to, metadata_hash, policy) == Err::<
            MintedView,
            NftError,
        >(NftError::NotInitialized),
        config.admin is None ==> set_royalty_policy_spec(config, stored, policy) == Err::<
            TokenDataView,
            NftError,
        >(NftError::NotInitialized),
        config.admin is None ==> set_marketplace_spec(config, marketplace) == Err::<
            NftConfigView,
            NftError,
        >(NftError::NotInitialized),
        set_marketplace_spec(config, marketplace) matches Ok(c) ==> c.marketplace == Some(marketplace)
            && c.admin == config.admin && c.next_token_id == config.next_token_id,
{
}

/// Only the owner can give a token away, and the marketplace can move it
/// only from its owner; either way the new owner is the recipient and
/// nothing else about the token changes.
pub proof fn lemma_only_owner_transfers(
    config: NftConfigView,
    stored: Option<TokenDataView>,
    from: Seq<char>,
    to: Seq<char>,
)
    ensures
        transfer_spec(stored, from, to) matches Ok(t) ==> stored matches Some(old) && old.owner == from
            && t == (TokenDataView { owner: to, ..old }),
        marketplace_transfer_spec(config, stored, from, to) matches Ok(t) ==> {
            &&& config.marketplace is Some
            &&& stored matches Some(old) && old.owner == from && t == (TokenDataView { owner: to, ..old })
        },
{
}

/// The registry serves those entitled to it. A royalty policy is accepted
/// exactly when its total is at most 2500 basis points and its shares add up
/// to its total. An initialized registry mints any accepted policy to anyone,
/// under the id after the last one handed out, until the ids run out. The
/// owner of a token can always give it away, and the marketplace, once set,
/// can move it from its owner; the admin can put any accepted policy on an
/// existing token. Each leaves the rest of the token as it was.
pub proof fn lemma_entitled_calls_succeed(
    config: NftConfigView,
    stored: Option<TokenDataView>,
    from: Seq<char>,
    to: Seq<char>,
    metadata_hash: [u8; 32],
    policy: RoyaltyPolicyView,
)
    ensures
        validate_policy_spec(policy) is Ok <==> (policy.total_bps <= 2500 && share_sum(policy)
            == policy.total_bps),
        ({
            let last: u32 = match config.next_token_id {
                Some(n) => n,
                None => 0,
            };
            config.admin is Some && policy.total_bps <= 2500 && share_sum(policy) == policy.total_bps && last
                < u32::MAX ==> mint_spec(config, to, metadata_hash, policy) == Ok::<MintedView, NftError>(
                MintedView {
                    token_id: (last + 1) as u32,
                    token: TokenDataView { owner: to, metadata_hash, policy },
                    next_token_id: (last + 1) as u32,
                },
            )
        }),
        stored matches Some(t) ==> t.owner == from ==> transfer_spec(stored, from, to) == Ok::<
            TokenDataView,
            NftError,
        >(TokenDataView { owner: to, metadata_hash: t.metadata_hash, policy: t.policy }),
        stored matches Some(t) ==> config.marketplace is Some && t.owner == from
            ==> marketplace_transfer_spec(config, stored, from, to) == Ok::<TokenDataView, NftError>(
            TokenDataView { owner: to, metadata_hash: t.metadata_hash, policy: t.policy },
        ),
        stored matches Some(t) ==> config.admin is Some && policy.total_bps <= 2500 && share_sum(policy)
            == policy.total_bps ==> set_royalty_policy_spec(config, stored, policy) == Ok::<
            TokenDataView,
            NftError,
        >(TokenDataView { owner: t.owner, metadata_hash: t.metadata_hash, policy }),
{
}

} // verus!
