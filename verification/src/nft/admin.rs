use vstd::prelude::*;
use crate::address::Address;
use crate::effects::{Outcome, authorize, fail, result_view, option_view};
use crate::split::weight_sum;
use crate::nft::errors::NftError;
use crate::nft::state::{
    MAX_ROYALTY_BPS, NftConfig, NftConfigView, RoyaltyPolicy, RoyaltyPolicyView, TokenData,
    TokenDataView, split_weights,
};

verus! {

/// `init`: the contract's first settings, with no token minted yet.
pub open spec fn init_spec(config: NftConfigView, admin: Seq<char>, marketplace: Seq<char>) -> Result<
    NftConfigView,
    NftError,
> {
    if config.admin is Some {
        Err(NftError::AlreadyInitialized)
    } else {
        Ok(NftConfigView { admin: Some(admin), marketplace: Some(marketplace), next_token_id: Some(0) })
    }
}

/// Initialize the contract once, naming its admin and the marketplace that
/// may move tokens. The admin must authorize the call.
pub fn init(config: &NftConfig, admin: Address, marketplace: Address) -> (out: Outcome<NftConfig, NftError>)
    ensures
        out.auth_view() == (if config@.admin is Some { None } else { Some(admin@) }),
        result_view(out.result) == init_spec(config@, admin@, marketplace@),
{
    if config.admin.is_some() {
        return fail(None, NftError::AlreadyInitialized);
    }
    let auth = authorize(&admin);
    let next = NftConfig { admin: Some(admin), marketplace: Some(marketplace), next_token_id: Some(0) };
    Outcome { auth, result: Ok(next) }
}

/// The admin, whose authorization the call needs; fails when the contract
/// has not been initialized.
fn require_admin(config: &NftConfig) -> (out: Outcome<Address, NftError>)
    ensures
        out.auth_view() == config@.admin,
        match config@.admin {
            Some(a) => out.result matches Ok(x) && x@ == a,
            None => out.result == Err::<Address, NftError>(NftError::NotInitialized),
        },
{
    match &config.admin {
        Some(admin) => Outcome { auth: authorize(admin), result: Ok(admin.clone()) },
        None => fail(None, NftError::NotInitialized),
    }
}

/// The sum of a policy's shares.
pub open spec fn share_sum(p: RoyaltyPolicyView) -> int {
    weight_sum(split_weights(p.splits), p.splits.len() as int)
}

/// A royalty policy is valid when its total is within the cap and its
/// shares add up to its total.
pub open spec fn validate_policy_spec(p: RoyaltyPolicyView) -> Result<(), NftError> {
    if p.total_bps > MAX_ROYALTY_BPS || share_sum(p) > u32::MAX {
        Err(NftError::InvalidRoyalty)
    } else if share_sum(p) != p.total_bps {
        Err(NftError::InvalidSplit)
    } else {
        Ok(())
    }
}

/// A running sum of shares never decreases.
pub proof fn lemma_weight_sum_monotone(w: Seq<u32>, k: int, m: int)
    requires
        0 <= k <= m <= w.len(),
    ensures
        weight_sum(w, k) <= weight_sum(w, m),
    decreases m - k,
{
    if k < m {
        lemma_weight_sum_monotone(w, k, m - 1);
    }
}

fn validate_policy(p: &RoyaltyPolicy) -> (r: Result<(), NftError>)
    ensures
        r == validate_policy_spec(p@),
{
    if p.total_bps > MAX_ROYALTY_BPS {
        return Err(NftError::InvalidRoyalty);
    }
    let ghost w = split_weights(p@.splits);
    let n = p.splits.len();
    let mut sum: u32 = 0;
    let mut i: usize = 0;
    while i < n
        invariant
            n == p.splits.len(),
            w == split_weights(p@.splits),
            0 <= i <= n,
            sum as int == weight_sum(w, i as int),
        decreases n - i,
    {
        assert(w[i as int] == p.splits[i as int].percent_bps);
        sum = match sum.checked_add(p.splits[i].percent_bps) {
            Some(v) => v,
            None => {
                proof {
                    lemma_weight_sum_monotone(w, i + 1, n as int);
                }
                return Err(NftError::InvalidRoyalty);
            },
        };
        i = i + 1;
    }
    if sum != p.total_bps {
        return Err(NftError::InvalidSplit);
    }
    Ok(())
}

/// What a mint leaves behind: the new token's id and record, and the last
/// token id handed out.
pub struct Minted {
    pub token_id: u32,
    pub token: TokenData,
    pub next_token_id: u32,
}

pub struct MintedView {
    pub token_id: u32,
    pub token: TokenDataView,
    pub next_token_id: u32,
}

impl View for Minted {
    type V = MintedView;

    open spec fn view(&self) -> MintedView {
        MintedView { token_id: self.token_id, token: self.token@, next_token_id: self.next_token_id }
    }
}

/// `mint`: a new token for `to`, with the id after the last one handed out.
pub open spec fn mint_spec(
    config: NftConfigView,
    to: Seq<char>,
    metadata_hash: [u8; 32],
    policy: RoyaltyPolicyView,
) -> Result<MintedView, NftError> {
    let last = match config.next_token_id {
        Some(n) => n,
        None => 0u32,
    };
    if config.admin is None {
        Err(NftError::NotInitialized)
    } else if validate_policy_spec(policy) is Err {
        Err(validate_policy_spec(policy)->Err_0)
    } else if last == u32::MAX {
        Err(NftError::InvalidSplit)
    } else {
        Ok(
            MintedView {
                token_id: (last + 1) as u32,
                token: TokenDataView { owner: to, metadata_hash, policy },
                next_token_id: (last + 1) as u32,
            },
        )
    }
}

/// Mint a token to `to` with a royalty policy. The admin must authorize.
pub fn mint(config: &NftConfig, to: Address, metadata_hash: [u8; 32], policy: RoyaltyPolicy) -> (out:
    Outcome<Minted, NftError>)
    ensures
        out.auth_view() == config@.admin,
        result_view(out.result) == mint_spec(config@, to@, metadata_hash, policy@),
{
    let admin = require_admin(config);
    let auth = admin.auth;
    if let Err(e) = admin.result {
        return fail(auth, e);
    }
    if let Err(e) = validate_policy(&policy) {
        return fail(auth, e);
    }
    let mut next: u32 = match config.next_token_id {
        Some(n) => n,
        None => 0,
    };
    next = match next.checked_add(1) {
        Some(v) => v,
        None => return fail(auth, NftError::InvalidSplit),
    };
    let token = TokenData { owner: to, metadata_hash, policy };
    Outcome { auth, result: Ok(Minted { token_id: next, token, next_token_id: next }) }
}

/// `set_royalty_policy`: the token's policy replaced, nothing else changed.
pub open spec fn set_royalty_policy_spec(
    config: NftConfigView,
    stored: Option<TokenDataView>,
    policy: RoyaltyPolicyView,
) -> Result<TokenDataView, NftError> {
    if config.admin is None {
        Err(NftError::NotInitialized)
    } else if validate_policy_spec(policy) is Err {
        Err(validate_policy_spec(policy)->Err_0)
    } else {
        match stored {
            None => Err(NftError::TokenNotFound),
            Some(t) => Ok(TokenDataView { policy, ..t }),
        }
    }
}

/// Replace a token's royalty policy. The admin must authorize.
pub fn set_royalty_policy(config: &NftConfig, stored: Option<TokenData>, policy: RoyaltyPolicy) -> (out:
    Outcome<TokenData, NftError>)
    ensures
        out.auth_view() == config@.admin,
        result_view(out.result) == set_royalty_policy_spec(
            config@,
            option_view(stored),
            policy@,
        ),
{
    let admin = require_admin(config);
    let auth = admin.auth;
    if let Err(e) = admin.result {
        return fail(auth, e);
    }
    if let Err(e) = validate_policy(&policy) {
        return fail(auth, e);
    }
    let mut token = match stored {
        Some(t) => t,
        None => return fail(auth, NftError::TokenNotFound),
    };
    token.policy = policy;
    Outcome { auth, result: Ok(token) }
}

/// `set_marketplace`: the settings with the marketplace replaced.
pub open spec fn set_marketplace_spec(config: NftConfigView, marketplace: Seq<char>) -> Result<
    NftConfigView,
    NftError,
> {
    if config.admin is None {
        Err(NftError::NotInitialized)
    } else {
        Ok(NftConfigView { marketplace: Some(marketplace), ..config })
    }
}

/// Name a new marketplace. The admin must authorize.
pub fn set_marketplace(config: &NftConfig, marketplace: Address) -> (out: Outcome<NftConfig, NftError>)
    ensures
        out.auth_view() == config@.admin,
        result_view(out.result) == set_marketplace_spec(config@, marketplace@),
{
    let admin = require_admin(config);
    let auth = admin.auth;
    if let Err(e) = admin.result {
        return fail(auth, e);
    }
    let mut next = config.clone();
    next.marketplace = Some(marketplace);
    Outcome { auth, result: Ok(next) }
}

} // verus!
