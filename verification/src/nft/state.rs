use vstd::prelude::*;
use crate::address::Address;
use crate::effects::option_view;
use crate::split::addresses_view;

verus! {

/// The cap on a token's total royalty: 25%.
pub const MAX_ROYALTY_BPS: u32 = 2500;

/// One royalty recipient and its share of the sale price, in basis points.
#[derive(Debug)]
pub struct RoyaltySplitOnChain {
    pub address: Address,
    pub percent_bps: u32,
}

pub struct RoyaltySplitView {
    pub address: Seq<char>,
    pub percent_bps: u32,
}

impl View for RoyaltySplitOnChain {
    type V = RoyaltySplitView;

    open spec fn view(&self) -> RoyaltySplitView {
        RoyaltySplitView { address: self.address@, percent_bps: self.percent_bps }
    }
}

impl Clone for RoyaltySplitOnChain {
    fn clone(&self) -> (r: Self)
        ensures
            r@ == self@,
    {
        RoyaltySplitOnChain { address: self.address.clone(), percent_bps: self.percent_bps }
    }
}

/// A token's royalty: its recipients and their total share. No splits and
/// a total of 0 mean no royalty.
#[derive(Debug)]
pub struct RoyaltyPolicy {
    pub splits: Vec<RoyaltySplitOnChain>,
    pub total_bps: u32,
}

pub struct RoyaltyPolicyView {
    pub splits: Seq<RoyaltySplitView>,
    pub total_bps: u32,
}

pub open spec fn splits_view(s: Seq<RoyaltySplitOnChain>) -> Seq<RoyaltySplitView> {
    s.map_values(|x: RoyaltySplitOnChain| x@)
}

impl View for RoyaltyPolicy {
    type V = RoyaltyPolicyView;

    open spec fn view(&self) -> RoyaltyPolicyView {
        RoyaltyPolicyView { splits: splits_view(self.splits@), total_bps: self.total_bps }
    }
}

impl Clone for RoyaltyPolicy {
    fn clone(&self) -> (r: Self)
        ensures
            r@ == self@,
    {
        let splits = self.splits.clone();
        assert(splits_view(splits@) =~= splits_view(self.splits@)) by {
            assert forall|i: int| 0 <= i < self.splits@.len() implies splits@[i]@
                == #[trigger] self.splits@[i]@ by {
                assert(cloned::<RoyaltySplitOnChain>(self.splits[i], splits[i]));
            }
        }
        RoyaltyPolicy { splits, total_bps: self.total_bps }
    }
}

/// The shares of a policy's recipients, in order.
pub open spec fn split_weights(s: Seq<RoyaltySplitView>) -> Seq<u32> {
    s.map_values(|x: RoyaltySplitView| x.percent_bps)
}

/// The addresses of a policy's recipients, in order.
pub open spec fn split_recipients(s: Seq<RoyaltySplitView>) -> Seq<Seq<char>> {
    s.map_values(|x: RoyaltySplitView| x.address)
}

/// The shares of a policy's recipients, in order.
pub fn policy_weights(splits: &Vec<RoyaltySplitOnChain>) -> (w: Vec<u32>)
    ensures
        w@ == split_weights(splits_view(splits@)),
{
    let mut w: Vec<u32> = Vec::new();
    let mut i: usize = 0;
    while i < splits.len()
        invariant
            0 <= i <= splits.len(),
            w@ == split_weights(splits_view(splits@)).take(i as int),
        decreases splits.len() - i,
    {
        w.push(splits[i].percent_bps);
        i = i + 1;
        assert(w@ =~= split_weights(splits_view(splits@)).take(i as int));
    }
    assert(w@ =~= split_weights(splits_view(splits@)));
    w
}

/// The addresses of a policy's recipients, in order.
pub fn policy_recipients(splits: &Vec<RoyaltySplitOnChain>) -> (r: Vec<Address>)
    ensures
        addresses_view(r@) == split_recipients(splits_view(splits@)),
        r.len() == splits.len(),
{
    let mut r: Vec<Address> = Vec::new();
    let mut i: usize = 0;
    while i < splits.len()
        invariant
            0 <= i <= splits.len(),
            r.len() == i,
            addresses_view(r@) == split_recipients(splits_view(splits@)).take(i as int),
        decreases splits.len() - i,
    {
        r.push(splits[i].address.clone());
        i = i + 1;
        assert(addresses_view(r@) =~= split_recipients(splits_view(splits@)).take(i as int));
    }
    assert(addresses_view(r@) =~= split_recipients(splits_view(splits@)));
    r
}

/// One token, as the contract stores it under its id.
#[derive(Debug)]
pub struct TokenData {
    pub owner: Address,
    pub metadata_hash: [u8; 32],
    pub policy: RoyaltyPolicy,
}

pub struct TokenDataView {
    pub owner: Seq<char>,
    pub metadata_hash: [u8; 32],
    pub policy: RoyaltyPolicyView,
}

impl View for TokenData {
    type V = TokenDataView;

    open spec fn view(&self) -> TokenDataView {
        TokenDataView { owner: self.owner@, metadata_hash: self.metadata_hash, policy: self.policy@ }
    }
}

impl Clone for TokenData {
    fn clone(&self) -> (r: Self)
        ensures
            r@ == self@,
    {
        TokenData {
            owner: self.owner.clone(),
            metadata_hash: self.metadata_hash,
            policy: self.policy.clone(),
        }
    }
}

/// The contract's settings, as it keeps them in instance storage: the
/// admin, the marketplace allowed to move tokens, and the last token id
/// handed out. Each is absent until the contract is initialized.
#[derive(Debug)]
pub struct NftConfig {
    pub admin: Option<Address>,
    pub marketplace: Option<Address>,
    pub next_token_id: Option<u32>,
}

pub struct NftConfigView {
    pub admin: Option<Seq<char>>,
    pub marketplace: Option<Seq<char>>,
    pub next_token_id: Option<u32>,
}

fn copy_address(a: &Option<Address>) -> (r: Option<Address>)
    ensures
        option_view(r) == option_view(*a),
{
    match a {
        Some(x) => Some(x.clone()),
        None => None,
    }
}

impl Clone for NftConfig {
    fn clone(&self) -> (r: Self)
        ensures
            r@ == self@,
    {
        NftConfig {
            admin: copy_address(&self.admin),
            marketplace: copy_address(&self.marketplace),
            next_token_id: self.next_token_id,
        }
    }
}

impl View for NftConfig {
    type V = NftConfigView;

    open spec fn view(&self) -> NftConfigView {
        NftConfigView {
            admin: option_view(self.admin),
            marketplace: option_view(self.marketplace),
            next_token_id: self.next_token_id,
        }
    }
}

} // verus!
