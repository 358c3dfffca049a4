use std::collections::HashMap;

use stelo::address::Address;
use stelo::effects::{Ledger, Outcome, Transfer};
use stelo::escrow_v2::dispute::{dispute, resolve_dispute};
use stelo::escrow_v2::errors::EscrowErrorV2;
use stelo::escrow_v2::lock::lock;
use stelo::escrow_v2::refund::refund;
use stelo::escrow_v2::release::release;
use stelo::escrow_v2::state::{Beneficiary, EscrowDataV2, EscrowState, Settlement};
use stelo::escrow_v2::EscrowV2;

// ─── A small host: storage keyed by order id, token balances, the clock ──

struct Chain {
    now: u64,
    contract: Address,
    escrows: HashMap<String, EscrowDataV2>,
    balances: HashMap<String, i128>,
    next_id: u32,
}

impl Chain {
    fn ledger(&self) -> Ledger {
        Ledger { timestamp: self.now, contract: self.contract.clone() }
    }

    fn generate(&mut self) -> Address {
        self.next_id += 1;
        Address::new(format!("G{:055}", self.next_id))
    }

    fn balance(&self, a: &Address) -> i128 {
        *self.balances.get(&a.strkey).unwrap_or(&0)
    }

    fn mint(&mut self, to: &Address, amount: i128) {
        *self.balances.entry(to.strkey.clone()).or_insert(0) += amount;
    }

    fn pay(&mut self, transfers: &[Transfer]) {
        for t in transfers {
            assert!(t.amount > 0);
            let from = self.balances.entry(t.from.strkey.clone()).or_insert(0);
            assert!(*from >= t.amount, "insufficient balance");
            *from -= t.amount;
            *self.balances.entry(t.to.strkey.clone()).or_insert(0) += t.amount;
        }
    }

    fn apply(&mut self, order_id: &str, out: Outcome<Settlement, EscrowErrorV2>) -> Result<(), EscrowErrorV2> {
        let s = out.result?;
        assert!(s.escrow.is_well_formed());
        self.pay(&s.transfers);
        self.escrows.insert(order_id.to_string(), s.escrow);
        Ok(())
    }

    fn stored(&self, order_id: &str) -> Option<EscrowDataV2> {
        self.escrows.get(order_id).cloned()
    }

    fn lock(
        &mut self,
        merchant: &Address,
        arbiter: &Address,
        usdc_token: &Address,
        amount: i128,
        platform_fee: i128,
        beneficiaries: &Vec<Beneficiary>,
        order_id: &str,
        expires_at: u64,
    ) -> Result<(), EscrowErrorV2> {
        let taken = self.escrows.contains_key(order_id);
        let out = lock(
            &self.ledger(),
            taken,
            merchant.clone(),
            arbiter.clone(),
            usdc_token.clone(),
            amount,
            platform_fee,
            beneficiaries.clone(),
            order_id.to_string(),
            expires_at,
        );
        self.apply(order_id, out)
    }

    fn release(&mut self, caller: &Address, order_id: &str) -> Result<(), EscrowErrorV2> {
        let out = release(&self.ledger(), caller.clone(), self.stored(order_id));
        self.apply(order_id, out)
    }

    fn refund(&mut self, order_id: &str) -> Result<(), EscrowErrorV2> {
        let out = refund(&self.ledger(), self.stored(order_id));
        assert!(out.auth.is_none());
        self.apply(order_id, out)
    }

    fn dispute(&mut self, caller: &Address, order_id: &str) -> Result<(), EscrowErrorV2> {
        let out = dispute(caller.clone(), self.stored(order_id));
        self.apply(order_id, out)
    }

    fn resolve_dispute(&mut self, arbiter: &Address, order_id: &str, provider_bps: u32) -> Result<(), EscrowErrorV2> {
        let stored = self.stored(order_id);
        if let Some(e) = &stored {
            assert!(e.is_well_formed());
        }
        let out = resolve_dispute(&self.ledger(), arbiter.clone(), stored, provider_bps);
        self.apply(order_id, out)
    }
}

fn setup_test() -> (Chain, Address, Address, Address, Address) {
    let mut chain = Chain {
        now: 1_000_000,
        contract: Address::new("CESCROWV2".to_string()),
        escrows: HashMap::new(),
        balances: HashMap::new(),
        next_id: 0,
    };
    let contract = chain.contract.clone();
    let merchant = chain.generate();
    let arbiter = chain.generate();
    let usdc_token = Address::new("CUSDC".to_string());
    chain.mint(&merchant, 10_000_0000000);
    (chain, contract, merchant, arbiter, usdc_token)
}

fn ben(address: &Address, percent_bps: u32, role: &str) -> Beneficiary {
    Beneficiary { address: address.clone(), percent_bps, role_tag: role.to_string() }
}

// ─── LOCK INVARIANT TESTS ─────────────────────────────────────────

#[test]
fn lock_succeeds_with_valid_3way_split() {
    let (mut chain, contract, merchant, arbiter, usdc_token) = setup_test();
    let a = chain.generate();
    let b = chain.generate();
    let c = chain.generate();
    let bs = vec![ben(&a, 7000, "merchant"), ben(&b, 2000, "designer"), ben(&c, 1000, "influencer")];
    chain
        .lock(&merchant, &arbiter, &usdc_token, 100_0000000, 5_0000000, &bs, "order_001", 2_000_000)
        .unwrap();
    assert_eq!(chain.balance(&contract), 100_0000000);
}

#[test]
fn lock_rejects_bps_not_summing_to_10000() {
    let (mut chain, _, merchant, arbiter, usdc_token) = setup_test();
    let a = chain.generate();
    let b = chain.generate();
    let bs = vec![ben(&a, 5000, "merchant"), ben(&b, 4000, "designer")]; // sum = 9000, missing 1000
    let result = chain.lock(&merchant, &arbiter, &usdc_token, 100_0000000, 5_0000000, &bs, "order_001", 2_000_000);
    assert_eq!(result, Err(EscrowErrorV2::BpsSumMismatch));
}

#[test]
fn lock_rejects_too_many_beneficiaries() {
    let (mut chain, _, merchant, arbiter, usdc_token) = setup_test();
    let mut bs = Vec::new();
    for _ in 0..9 {
        let a = chain.generate();
        bs.push(ben(&a, 1111, "x")); // 9 entries > 8 max
    }
    let result = chain.lock(&merchant, &arbiter, &usdc_token, 100_0000000, 5_0000000, &bs, "order_001", 2_000_000);
    assert_eq!(result, Err(EscrowErrorV2::TooManyBeneficiaries));
}

#[test]
fn lock_rejects_empty_beneficiaries() {
    let (mut chain, _, merchant, arbiter, usdc_token) = setup_test();
    let bs: Vec<Beneficiary> = vec![];
    let result = chain.lock(&merchant, &arbiter, &usdc_token, 100_0000000, 5_0000000, &bs, "order_001", 2_000_000);
    assert_eq!(result, Err(EscrowErrorV2::EmptyBeneficiaries));
}

#[test]
fn lock_rejects_duplicate_order_id() {
    let (mut chain, _, merchant, arbiter, usdc_token) = setup_test();
    let a = chain.generate();
    let bs = vec![ben(&a, 10000, "all")];
    chain
        .lock(&merchant, &arbiter, &usdc_token, 50_0000000, 2_5000000, &bs, "order_dup", 2_000_000)
        .unwrap();
    let result = chain.lock(&merchant, &arbiter, &usdc_token, 50_0000000, 2_5000000, &bs, "order_dup", 2_000_000);
    assert_eq!(result, Err(EscrowErrorV2::AlreadyExists));
}

// ─── RELEASE TESTS ─────────────────────────────────────────────────

#[test]
fn release_pays_each_beneficiary_proportionally() {
    let (mut chain, contract, merchant, arbiter, usdc_token) = setup_test();
    let a = chain.generate();
    let b = chain.generate();
    let c = chain.generate();
    // Splits 70/20/10. Net = 100 - 10 fee = 90. Splits: A=63, B=18, C=9.
    let bs = vec![ben(&a, 7000, "a"), ben(&b, 2000, "b"), ben(&c, 1000, "c")];
    chain.lock(&merchant, &arbiter, &usdc_token, 100_0000000, 10_0000000, &bs, "rls", 2_000_000).unwrap();
    chain.release(&arbiter, "rls").unwrap();

    assert_eq!(chain.balance(&arbiter), 10_0000000);
    assert_eq!(chain.balance(&a), 63_0000000); // 90 * 70/100
    assert_eq!(chain.balance(&b), 18_0000000); // 90 * 20/100
    assert_eq!(chain.balance(&c), 9_0000000); // last absorbs dust; 90 - 63 - 18 = 9
    assert_eq!(chain.balance(&contract), 0);
}

#[test]
fn release_dust_absorbed_by_last_beneficiary() {
    let (mut chain, contract, merchant, arbiter, usdc_token) = setup_test();
    let a = chain.generate();
    let b = chain.generate();
    let c = chain.generate();
    // Net = 7 stroops. Splits 33/33/34 of 7: A = 2, B = 2, C = 7 - 4 = 3.
    let bs = vec![ben(&a, 3300, "a"), ben(&b, 3300, "b"), ben(&c, 3400, "c")];
    chain.lock(&merchant, &arbiter, &usdc_token, 7, 0, &bs, "dust", 2_000_000).unwrap();
    chain.release(&arbiter, "dust").unwrap();

    assert_eq!(chain.balance(&a), 2);
    assert_eq!(chain.balance(&b), 2);
    assert_eq!(chain.balance(&c), 3); // dust absorbed
    assert_eq!(chain.balance(&contract), 0);
}

#[test]
fn release_only_arbiter_or_merchant_can_call() {
    let (mut chain, _, merchant, arbiter, usdc_token) = setup_test();
    let a = chain.generate();
    let bs = vec![ben(&a, 10000, "all")];
    chain.lock(&merchant, &arbiter, &usdc_token, 50_0000000, 2_5000000, &bs, "auth", 2_000_000).unwrap();
    let stranger = chain.generate();
    let result = chain.release(&stranger, "auth");
    assert_eq!(result, Err(EscrowErrorV2::NotAuthorized));
}

// ─── DISPUTE TESTS ─────────────────────────────────────────────────

#[test]
fn dispute_then_resolve_partial_splits_correctly() {
    let (mut chain, contract, merchant, arbiter, usdc_token) = setup_test();
    let a = chain.generate();
    let b = chain.generate();
    let c = chain.generate();
    let bs = vec![ben(&a, 7000, "a"), ben(&b, 2000, "b"), ben(&c, 1000, "c")];

    // Lock 100 USDC, fee 10, splits 70/20/10
    chain.lock(&merchant, &arbiter, &usdc_token, 100_0000000, 10_0000000, &bs, "dis", 2_000_000).unwrap();
    chain.dispute(&merchant, "dis").unwrap();
    // Arbiter resolves: 60% of net to beneficiary group; 40% refund to merchant
    chain.resolve_dispute(&arbiter, "dis", 6000).unwrap();

    assert_eq!(chain.balance(&arbiter), 10_0000000);
    // Net 90 * 60% = 54 for beneficiaries; 90 - 54 = 36 refund
    assert_eq!(chain.balance(&a), 37_8000000);
    assert_eq!(chain.balance(&b), 10_8000000);
    assert_eq!(chain.balance(&c), 5_4000000);
    assert_eq!(chain.balance(&merchant), 10_000_0000000 - 100_0000000 + 36_0000000);
    assert_eq!(chain.balance(&contract), 0);
}

#[test]
fn dispute_callable_by_beneficiary() {
    let (mut chain, _, merchant, arbiter, usdc_token) = setup_test();
    let a = chain.generate();
    let bs = vec![ben(&a, 10000, "all")];
    chain.lock(&merchant, &arbiter, &usdc_token, 50_0000000, 2_5000000, &bs, "ben_disp", 2_000_000).unwrap();
    // Beneficiary A can dispute
    chain.dispute(&a, "ben_disp").unwrap();
}

#[test]
fn dispute_rejects_unauthorized() {
    let (mut chain, _, merchant, arbiter, usdc_token) = setup_test();
    let a = chain.generate();
    let bs = vec![ben(&a, 10000, "all")];
    chain
        .lock(&merchant, &arbiter, &usdc_token, 50_0000000, 2_5000000, &bs, "stranger_disp", 2_000_000)
        .unwrap();
    let stranger = chain.generate();
    let result = chain.dispute(&stranger, "stranger_disp");
    assert_eq!(result, Err(EscrowErrorV2::NotAuthorized));
}

#[test]
fn resolve_dispute_rejects_bps_over_10000() {
    let (mut chain, _, merchant, arbiter, usdc_token) = setup_test();
    let a = chain.generate();
    let bs = vec![ben(&a, 10000, "all")];
    chain.lock(&merchant, &arbiter, &usdc_token, 50_0000000, 2_5000000, &bs, "bps_high", 2_000_000).unwrap();
    chain.dispute(&merchant, "bps_high").unwrap();
    let result = chain.resolve_dispute(&arbiter, "bps_high", 10_001);
    assert_eq!(result, Err(EscrowErrorV2::InvalidPercent));
}

// ─── FURTHER CASES ─────────────────────────────────────────────────

#[test]
fn version_is_two() {
    assert_eq!(EscrowV2::version(), 2);
}

#[test]
fn lock_rejects_zero_or_oversized_share() {
    let (mut chain, _, merchant, arbiter, usdc_token) = setup_test();
    let a = chain.generate();
    let b = chain.generate();
    let zero = vec![ben(&a, 0, "a"), ben(&b, 10000, "b")];
    assert_eq!(
        chain.lock(&merchant, &arbiter, &usdc_token, 100, 1, &zero, "z", 2_000_000),
        Err(EscrowErrorV2::InvalidPercent)
    );
    let big = vec![ben(&a, 10001, "a")];
    assert_eq!(
        chain.lock(&merchant, &arbiter, &usdc_token, 100, 1, &big, "big", 2_000_000),
        Err(EscrowErrorV2::InvalidPercent)
    );
}

#[test]
fn lock_checks_amount_fee_and_expiry_before_beneficiaries() {
    let (mut chain, _, merchant, arbiter, usdc_token) = setup_test();
    let none: Vec<Beneficiary> = vec![];
    assert_eq!(
        chain.lock(&merchant, &arbiter, &usdc_token, 0, 0, &none, "a", 2_000_000),
        Err(EscrowErrorV2::InvalidAmount)
    );
    assert_eq!(
        chain.lock(&merchant, &arbiter, &usdc_token, 10, 10, &none, "b", 2_000_000),
        Err(EscrowErrorV2::InvalidFee)
    );
    assert_eq!(
        chain.lock(&merchant, &arbiter, &usdc_token, 10, 1, &none, "c", 1_000_000),
        Err(EscrowErrorV2::AlreadyExpired)
    );
}

#[test]
fn eight_beneficiaries_are_accepted() {
    let (mut chain, contract, merchant, arbiter, usdc_token) = setup_test();
    let mut bs = Vec::new();
    let mut addrs = Vec::new();
    for _ in 0..8 {
        let a = chain.generate();
        bs.push(ben(&a, 1250, "x"));
        addrs.push(a);
    }
    chain.lock(&merchant, &arbiter, &usdc_token, 1_001, 1, &bs, "eight", 2_000_000).unwrap();
    chain.release(&merchant, "eight").unwrap();
    // net 1000, 12.5% each = 125
    for a in &addrs {
        assert_eq!(chain.balance(a), 125);
    }
    assert_eq!(chain.balance(&arbiter), 1);
    assert_eq!(chain.balance(&contract), 0);
}

#[test]
fn refund_needs_expiry_and_a_locked_escrow() {
    let (mut chain, contract, merchant, arbiter, usdc_token) = setup_test();
    let a = chain.generate();
    let bs = vec![ben(&a, 10000, "all")];
    chain.lock(&merchant, &arbiter, &usdc_token, 500, 5, &bs, "r", 1_500_000).unwrap();
    assert_eq!(chain.refund("r"), Err(EscrowErrorV2::NotExpired));
    chain.now = 1_500_000;
    chain.refund("r").unwrap();
    assert_eq!(chain.balance(&merchant), 10_000_0000000);
    assert_eq!(chain.balance(&contract), 0);
    assert_eq!(chain.refund("r"), Err(EscrowErrorV2::NotLocked));
    assert_eq!(chain.refund("missing"), Err(EscrowErrorV2::NotFound));
}

#[test]
fn disputed_escrow_cannot_be_refunded_or_released() {
    let (mut chain, _, merchant, arbiter, usdc_token) = setup_test();
    let a = chain.generate();
    let bs = vec![ben(&a, 10000, "all")];
    chain.lock(&merchant, &arbiter, &usdc_token, 500, 5, &bs, "d", 1_500_000).unwrap();
    chain.dispute(&arbiter, "d").unwrap();
    chain.now = 2_000_000;
    assert_eq!(chain.refund("d"), Err(EscrowErrorV2::NotLocked));
    assert_eq!(chain.release(&arbiter, "d"), Err(EscrowErrorV2::NotLocked));
    assert_eq!(chain.resolve_dispute(&merchant, "d", 10), Err(EscrowErrorV2::NotAuthorized));
}

#[test]
fn resolve_with_full_and_no_allotment() {
    let (mut chain, contract, merchant, arbiter, usdc_token) = setup_test();
    let a = chain.generate();
    let b = chain.generate();
    let bs = vec![ben(&a, 5000, "a"), ben(&b, 5000, "b")];
    chain.lock(&merchant, &arbiter, &usdc_token, 101, 1, &bs, "full", 2_000_000).unwrap();
    chain.dispute(&b, "full").unwrap();
    chain.resolve_dispute(&arbiter, "full", 10_000).unwrap();
    assert_eq!(chain.balance(&a), 50);
    assert_eq!(chain.balance(&b), 50);
    assert_eq!(chain.balance(&contract), 0);

    chain.lock(&merchant, &arbiter, &usdc_token, 101, 1, &bs, "none", 2_000_000).unwrap();
    chain.dispute(&merchant, "none").unwrap();
    chain.resolve_dispute(&arbiter, "none", 0).unwrap();
    assert_eq!(chain.balance(&a), 50);
    assert_eq!(chain.balance(&merchant), 10_000_0000000 - 101 - 101 + 100);
    assert_eq!(chain.balance(&contract), 0);
}

#[test]
fn settled_v2_escrow_is_final() {
    let (mut chain, _, merchant, arbiter, usdc_token) = setup_test();
    let a = chain.generate();
    let bs = vec![ben(&a, 10000, "all")];
    chain.lock(&merchant, &arbiter, &usdc_token, 500, 5, &bs, "f", 2_000_000).unwrap();
    chain.release(&merchant, "f").unwrap();
    assert_eq!(chain.release(&merchant, "f"), Err(EscrowErrorV2::NotLocked));
    assert_eq!(chain.dispute(&a, "f"), Err(EscrowErrorV2::NotLocked));
    assert_eq!(chain.resolve_dispute(&arbiter, "f", 1), Err(EscrowErrorV2::NotDisputed));
    chain.now = 3_000_000;
    assert_eq!(chain.refund("f"), Err(EscrowErrorV2::NotLocked));
}

#[test]
fn release_reports_overflow_of_a_share() {
    let chain = setup_test().0;
    let a = Address::new("A".to_string());
    let b = Address::new("B".to_string());
    let e = EscrowDataV2 {
        merchant: a.clone(),
        arbiter: a.clone(),
        usdc_token: a.clone(),
        amount: i128::MAX,
        platform_fee: 0,
        net_amount: i128::MAX,
        beneficiaries: vec![ben(&a, 5000, "a"), ben(&b, 5000, "b")],
        state: EscrowState::Locked,
        order_id: "o".to_string(),
        expires_at: 0,
        created_at: 0,
    };
    assert!(e.is_well_formed());
    let out = release(&chain.ledger(), a, Some(e));
    assert_eq!(out.result.err(), Some(EscrowErrorV2::Overflow));
}

#[test]
fn well_formedness_check_rejects_bad_records() {
    let a = Address::new("A".to_string());
    let good = EscrowDataV2 {
        merchant: a.clone(),
        arbiter: a.clone(),
        usdc_token: a.clone(),
        amount: 100,
        platform_fee: 10,
        net_amount: 90,
        beneficiaries: vec![ben(&a, 10000, "a")],
        state: EscrowState::Locked,
        order_id: "o".to_string(),
        expires_at: 0,
        created_at: 0,
    };
    assert!(good.is_well_formed());
    let mut bad = good.clone();
    bad.net_amount = 91;
    assert!(!bad.is_well_formed());
    let mut bad = good.clone();
    bad.beneficiaries = vec![ben(&a, 9999, "a")];
    assert!(!bad.is_well_formed());
    let mut bad = good.clone();
    bad.beneficiaries = vec![];
    assert!(!bad.is_well_formed());
}

#[test]
fn full_allotment_plans_the_transfers_of_a_release() {
    let (mut chain, _contract, merchant, arbiter, usdc_token) = setup_test();
    let a = chain.generate();
    let b = chain.generate();
    let c = chain.generate();
    let bs = vec![ben(&a, 3333, "a"), ben(&b, 3333, "b"), ben(&c, 3334, "c")];
    chain.lock(&merchant, &arbiter, &usdc_token, 1_000, 30, &bs, "o1", 2_000_000).unwrap();
    chain.lock(&merchant, &arbiter, &usdc_token, 1_000, 30, &bs, "o2", 2_000_000).unwrap();

    let released = release(&chain.ledger(), arbiter.clone(), chain.stored("o1")).result.unwrap();
    let disputed = dispute(merchant.clone(), chain.stored("o2")).result.unwrap();
    assert!(disputed.transfers.is_empty());
    let full = resolve_dispute(&chain.ledger(), arbiter.clone(), Some(disputed.escrow.clone()), 10_000)
        .result
        .unwrap();
    let plan = |ts: &Vec<Transfer>| -> Vec<(Address, Address, Address, i128)> {
        ts.iter().map(|t| (t.token.clone(), t.from.clone(), t.to.clone(), t.amount)).collect()
    };
    assert_eq!(plan(&full.transfers), plan(&released.transfers));
    assert_eq!(plan(&released.transfers).len(), 4);
    assert!(full.transfers.iter().all(|t| t.to != merchant));
    assert_eq!(full.escrow.state, EscrowState::Released);

    let none = resolve_dispute(&chain.ledger(), arbiter.clone(), Some(disputed.escrow), 0).result.unwrap();
    let paid: Vec<(Address, i128)> = none.transfers.iter().map(|t| (t.to.clone(), t.amount)).collect();
    assert_eq!(paid, vec![(arbiter.clone(), 30), (merchant.clone(), 970)]);
}
