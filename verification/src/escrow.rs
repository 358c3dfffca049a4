//! The multi-order escrow: one contract holds any number of escrows, each
//! keyed by its order id.
//!
//! Per escrow: the merchant locks USDC (`lock`); the arbiter or the merchant
//! releases it to the provider (`release`); the merchant or the provider can
//! freeze it (`dispute`), after which the arbiter splits it (`resolve_dispute`);
//! the arbiter, or anyone once it has expired, refunds it (`refund`).
use vstd::prelude::*;
use crate::address::Address;
use crate::effects::{
    Ledger, Outcome, Transfer, authorize, fail, TransferView, make_transfer, transfers_view, transfer_view,
    pay_if_positive, result_view, option_view, div_trunc, fits_i128, total_paid_by,
    lemma_total_paid_by_concat, lemma_pay_if_positive_total, lemma_total_paid_by_single,
};

verus! {

#[derive(Clone, Copy, Debug, PartialEq, Eq, Structural)]
pub enum EscrowState {
    Locked,
    Released,
    Refunded,
    Disputed,
}

#[derive(Clone, Copy, Debug, PartialEq, Eq, PartialOrd, Ord, Structural)]
pub enum EscrowError {
    AlreadyExists,
    NotFound,
    InvalidAmount,
    InvalidFee,
    AlreadyExpired,
    NotLocked,
    NotDisputed,
    NotAuthorized,
    NotExpired,
    InvalidPercent,
    Overflow,
}

/// One escrow, as the contract stores it under its order id.
#[derive(Debug, PartialEq)]
pub struct EscrowData {
    pub merchant: Address,
    pub provider: Address,
    pub arbiter: Address,
    pub usdc_token: Address,
    pub amount: i128,
    pub platform_fee: i128,
    pub provider_amount: i128,
    pub state: EscrowState,
    pub order_id: String,
    pub expires_at: u64,
    pub created_at: u64,
}

pub struct EscrowDataView {
    pub merchant: Seq<char>,
    pub provider: Seq<char>,
    pub arbiter: Seq<char>,
    pub usdc_token: Seq<char>,
    pub amount: i128,
    pub platform_fee: i128,
    pub provider_amount: i128,
    pub state: EscrowState,
    pub order_id: Seq<char>,
    pub expires_at: u64,
    pub created_at: u64,
}

impl View for EscrowData {
    type V = EscrowDataView;

    open spec fn view(&self) -> EscrowDataView {
        EscrowDataView {
            merchant: self.merchant@,
            provider: self.provider@,
            arbiter: self.arbiter@,
            usdc_token: self.usdc_token@,
            amount: self.amount,
            platform_fee: self.platform_fee,
            provider_amount: self.provider_amount,
            state: self.state,
            order_id: self.order_id@,
            expires_at: self.expires_at,
            created_at: self.created_at,
        }
    }
}

impl Clone for EscrowData {
    fn clone(&self) -> (r: Self)
        ensures
            r@ == self@,
    {
        EscrowData {
            merchant: self.merchant.clone(),
            provider: self.provider.clone(),
            arbiter: self.arbiter.clone(),
            usdc_token: self.usdc_token.clone(),
            amount: self.amount,
            platform_fee: self.platform_fee,
            provider_amount: self.provider_amount,
            state: self.state,
            order_id: self.order_id.clone(),
            expires_at: self.expires_at,
            created_at: self.created_at,
        }
    }
}

/// What a successful call leaves behind: the escrow record to store and the
/// token transfers to make, in order.
pub struct Settlement {
    pub escrow: EscrowData,
    pub transfers: Vec<Transfer>,
}

pub struct SettlementView {
    pub escrow: EscrowDataView,
    pub transfers: Seq<TransferView>,
}

impl View for Settlement {
    type V = SettlementView;

    open spec fn view(&self) -> SettlementView {
        SettlementView { escrow: self.escrow@, transfers: transfers_view(self.transfers@) }
    }
}

/// The escrow contract.
pub struct SteloEscrow;

// ─── What each entry point does ───────────────────────────────────────

/// `lock`: a new escrow of `amount` (of which `platform_fee` goes to the
/// arbiter on release), funded by a transfer from the merchant.
pub open spec fn lock_spec(
    taken: bool,
    now: u64,
    contract: Seq<char>,
    merchant: Seq<char>,
    provider: Seq<char>,
    arbiter: Seq<char>,
    usdc_token: Seq<char>,
    amount: i128,
    platform_fee: i128,
    order_id: Seq<char>,
    expires_at: u64,
) -> Result<SettlementView, EscrowError> {
    if taken {
        Err(EscrowError::AlreadyExists)
    } else if amount <= 0 {
        Err(EscrowError::InvalidAmount)
    } else if platform_fee < 0 || platform_fee >= amount {
        Err(EscrowError::InvalidFee)
    } else if expires_at <= now {
        Err(EscrowError::AlreadyExpired)
    } else {
        Ok(
            SettlementView {
                escrow: EscrowDataView {
                    merchant,
                    provider,
                    arbiter,
                    usdc_token,
                    amount,
                    platform_fee,
                    provider_amount: (amount - platform_fee) as i128,
                    state: EscrowState::Locked,
                    order_id,
                    expires_at,
                    created_at: now,
                },
                transfers: seq![transfer_view(usdc_token, merchant, contract, amount as int)],
            },
        )
    }
}

/// The record after a successful call that only changes the escrow's state.
pub open spec fn with_state(e: EscrowDataView, state: EscrowState) -> EscrowDataView {
    EscrowDataView { state, ..e }
}

/// `release`: the provider's share to the provider, the fee to the arbiter.
pub open spec fn release_spec(
    stored: Option<EscrowDataView>,
    caller: Seq<char>,
    contract: Seq<char>,
) -> Result<SettlementView, EscrowError> {
    match stored {
        None => Err(EscrowError::NotFound),
        Some(e) => if caller != e.arbiter && caller != e.merchant {
            Err(EscrowError::NotAuthorized)
        } else if e.state != EscrowState::Locked {
            Err(EscrowError::NotLocked)
        } else {
            Ok(
                SettlementView {
                    escrow: with_state(e, EscrowState::Released),
                    transfers: seq![
                        transfer_view(e.usdc_token, contract, e.provider, e.provider_amount as int),
                    ] + pay_if_positive(e.usdc_token, contract, e.arbiter, e.platform_fee as int),
                },
            )
        },
    }
}

/// `refund`: the whole amount back to the merchant.
pub open spec fn refund_spec(
    stored: Option<EscrowDataView>,
    caller: Seq<char>,
    now: u64,
    contract: Seq<char>,
) -> Result<SettlementView, EscrowError> {
    match stored {
        None => Err(EscrowError::NotFound),
        Some(e) => if !(now > e.expires_at) && caller != e.arbiter {
            Err(EscrowError::NotAuthorized)
        } else if e.state != EscrowState::Locked && e.state != EscrowState::Disputed {
            Err(EscrowError::NotLocked)
        } else {
            Ok(
                SettlementView {
                    escrow: with_state(e, EscrowState::Refunded),
                    transfers: seq![transfer_view(e.usdc_token, contract, e.merchant, e.amount as int)],
                },
            )
        },
    }
}

/// `dispute`: the escrow is frozen; nothing moves.
pub open spec fn dispute_spec(stored: Option<EscrowDataView>, caller: Seq<char>) -> Result<
    SettlementView,
    EscrowError,
> {
    match stored {
        None => Err(EscrowError::NotFound),
        Some(e) => if caller != e.merchant && caller != e.provider {
            Err(EscrowError::NotAuthorized)
        } else if e.state != EscrowState::Locked {
            Err(EscrowError::NotLocked)
        } else {
            Ok(SettlementView { escrow: with_state(e, EscrowState::Disputed), transfers: Seq::empty() })
        },
    }
}

/// The provider's part of the net amount at `percent`, rounded toward zero.
pub open spec fn provider_part(net: int, percent: int) -> int {
    div_trunc(net * percent, 100)
}

/// `resolve_dispute`: `percent` of the net amount to the provider, the rest
/// of it to the merchant, the fee to the arbiter.
pub open spec fn resolve_dispute_spec(
    stored: Option<EscrowDataView>,
    caller: Seq<char>,
    provider_percent: u32,
    contract: Seq<char>,
) -> Result<SettlementView, EscrowError> {
    match stored {
        None => Err(EscrowError::NotFound),
        Some(e) => {
            let net = e.amount - e.platform_fee;
            if caller != e.arbiter {
                Err(EscrowError::NotAuthorized)
            } else if e.state != EscrowState::Disputed {
                Err(EscrowError::NotDisputed)
            } else if provider_percent > 100 {
                Err(EscrowError::InvalidPercent)
            } else if !fits_i128(net) || !fits_i128(net * provider_percent) {
                Err(EscrowError::Overflow)
            } else {
                let to_provider = provider_part(net, provider_percent as int);
                let to_merchant = net - to_provider;
                Ok(
                    SettlementView {
                        escrow: with_state(e, EscrowState::Released),
                        transfers: pay_if_positive(e.usdc_token, contract, e.provider, to_provider)
                            + pay_if_positive(e.usdc_token, contract, e.merchant, to_merchant)
                            + pay_if_positive(
                            e.usdc_token,
                            contract,
                            e.arbiter,
                            e.platform_fee as int,
                        ),
                    },
                )
            }
        },
    }
}

/// A read of a stored escrow.
pub open spec fn get_state_spec(stored: Option<EscrowDataView>) -> Result<EscrowDataView, EscrowError> {
    match stored {
        None => Err(EscrowError::NotFound),
        Some(e) => Ok(e),
    }
}

pub open spec fn time_left(expires_at: u64, now: u64) -> u64 {
    if now >= expires_at {
        0
    } else {
        (expires_at - now) as u64
    }
}

// ─── Entry points ─────────────────────────────────────────────────────

impl SteloEscrow {
    /// Create a new escrow and lock USDC from the merchant into the contract.
    /// Each order id can be used only once: `taken` says whether the
    /// contract already holds an escrow under `order_id`. The merchant must
    /// authorize the call unless the order id is taken.
    pub fn lock(
        ledger: &Ledger,
        taken: bool,
        merchant: Address,
        provider: Address,
        arbiter: Address,
        usdc_token: Address,
        amount: i128,
        platform_fee: i128,
        order_id: String,
        expires_at: u64,
    ) -> (out: Outcome<Settlement, EscrowError>)
        ensures
            out.auth_view() == (if taken { None } else { Some(merchant@) }),
            result_view(out.result) == lock_spec(
                taken,
                ledger.timestamp,
                ledger.contract@,
                merchant@,
                provider@,
                arbiter@,
                usdc_token@,
                amount,
                platform_fee,
                order_id@,
                expires_at,
            ),
    {
        if taken {
            return fail(None, EscrowError::AlreadyExists);
        }
        let auth = authorize(&merchant);
        if amount <= 0 {
            return fail(auth, EscrowError::InvalidAmount);
        }
        if platform_fee < 0 || platform_fee >= amount {
            return fail(auth, EscrowError::InvalidFee);
        }
        if expires_at <= ledger.timestamp {
            return fail(auth, EscrowError::AlreadyExpired);
        }
        let provider_amount = match amount.checked_sub(platform_fee) {
            Some(v) => v,
            None => return fail(auth, EscrowError::Overflow),
        };
        let deposit = make_transfer(&usdc_token, &merchant, &ledger.contract, amount);
        let mut transfers: Vec<Transfer> = Vec::new();
        transfers.push(deposit);
        let escrow = EscrowData {
            merchant,
            provider,
            arbiter,
            usdc_token,
            amount,
            platform_fee,
            provider_amount,
            state: EscrowState::Locked,
            order_id,
            expires_at,
            created_at: ledger.timestamp,
        };
        let settlement = Settlement { escrow, transfers };
        assert(settlement@.transfers =~= seq![deposit@]);
        Outcome { auth, result: Ok(settlement) }
    }

    /// Release the escrow to the provider, and the platform fee to the
    /// arbiter. Only the arbiter or the merchant may call.
    pub fn release(ledger: &Ledger, caller: Address, stored: Option<EscrowData>) -> (out: Outcome<
        Settlement,
        EscrowError,
    >)
        ensures
            out.auth_view() == Some(caller@),
            result_view(out.result) == release_spec(option_view(stored), caller@, ledger.contract@),
    {
        let auth = authorize(&caller);
        let mut escrow = match Self::get_escrow(stored) {
            Ok(e) => e,
            Err(e) => return fail(auth, e),
        };
        if !caller.same_as(&escrow.arbiter) && !caller.same_as(&escrow.merchant) {
            return fail(auth, EscrowError::NotAuthorized);
        }
        if escrow.state != EscrowState::Locked {
            return fail(auth, EscrowError::NotLocked);
        }
        let ghost before = escrow@;
        let mut transfers: Vec<Transfer> = Vec::new();
        transfers.push(
            make_transfer(&escrow.usdc_token, &ledger.contract, &escrow.provider, escrow.provider_amount),
        );
        if escrow.platform_fee > 0 {
            transfers.push(
                make_transfer(&escrow.usdc_token, &ledger.contract, &escrow.arbiter, escrow.platform_fee),
            );
        }
        escrow.state = EscrowState::Released;
        let settlement = Settlement { escrow, transfers };
        assert(settlement@.transfers =~= seq![
            transfer_view(before.usdc_token, ledger.contract@, before.provider, before.provider_amount as int),
        ] + pay_if_positive(before.usdc_token, ledger.contract@, before.arbiter, before.platform_fee as int));
        assert(settlement@.escrow == with_state(before, EscrowState::Released));
        Outcome { auth, result: Ok(settlement) }
    }

    /// Refund the full amount to the merchant. Anyone may call once the
    /// escrow has expired; before that, only the arbiter.
    pub fn refund(ledger: &Ledger, caller: Address, stored: Option<EscrowData>) -> (out: Outcome<
        Settlement,
        EscrowError,
    >)
        ensures
            out.auth_view() == Some(caller@),
            result_view(out.result) == refund_spec(
                option_view(stored),
                caller@,
                ledger.timestamp,
                ledger.contract@,
            ),
    {
        let auth = authorize(&caller);
        let mut escrow = match Self::get_escrow(stored) {
            Ok(e) => e,
            Err(e) => return fail(auth, e),
        };
        let is_expired = ledger.timestamp > escrow.expires_at;
        if !is_expired && !caller.same_as(&escrow.arbiter) {
            return fail(auth, EscrowError::NotAuthorized);
        }
        if escrow.state != EscrowState::Locked && escrow.state != EscrowState::Disputed {
            return fail(auth, EscrowError::NotLocked);
        }
        let ghost before = escrow@;
        let mut transfers: Vec<Transfer> = Vec::new();
        transfers.push(
            make_transfer(&escrow.usdc_token, &ledger.contract, &escrow.merchant, escrow.amount),
        );
        escrow.state = EscrowState::Refunded;
        let settlement = Settlement { escrow, transfers };
        assert(settlement@.transfers =~= seq![
            transfer_view(before.usdc_token, ledger.contract@, before.merchant, before.amount as int),
        ]);
        assert(settlement@.escrow == with_state(before, EscrowState::Refunded));
        Outcome { auth, result: Ok(settlement) }
    }

    /// The merchant or the provider raises a dispute, which freezes the
    /// escrow.
    pub fn dispute(caller: Address, stored: Option<EscrowData>) -> (out: Outcome<
        Settlement,
        EscrowError,
    >)
        ensures
            out.auth_view() == Some(caller@),
            result_view(out.result) == dispute_spec(option_view(stored), caller@),
    {
        let auth = authorize(&caller);
        let mut escrow = match Self::get_escrow(stored) {
            Ok(e) => e,
            Err(e) => return fail(auth, e),
        };
        if !caller.same_as(&escrow.merchant) && !caller.same_as(&escrow.provider) {
            return fail(auth, EscrowError::NotAuthorized);
        }
        if escrow.state != EscrowState::Locked {
            return fail(auth, EscrowError::NotLocked);
        }
        let ghost before = escrow@;
        escrow.state = EscrowState::Disputed;
        let settlement = Settlement { escrow, transfers: Vec::new() };
        assert(settlement@.transfers =~= Seq::<TransferView>::empty());
        assert(settlement@.escrow == with_state(before, EscrowState::Disputed));
        Outcome { auth, result: Ok(settlement) }
    }

    /// The arbiter resolves a dispute by splitting the net amount (amount
    /// less fee): `provider_percent` (0..=100) of it to the provider, the rest
    /// to the merchant; the fee goes to the arbiter.
    pub fn resolve_dispute(
        ledger: &Ledger,
        caller: Address,
        stored: Option<EscrowData>,
        provider_percent: u32,
    ) -> (out: Outcome<Settlement, EscrowError>)
        ensures
            out.auth_view() == Some(caller@),
            result_view(out.result) == resolve_dispute_spec(
                option_view(stored),
                caller@,
                provider_percent,
                ledger.contract@,
            ),
    {
        let auth = authorize(&caller);
        let mut escrow = match Self::get_escrow(stored) {
            Ok(e) => e,
            Err(e) => return fail(auth, e),
        };
        if !caller.same_as(&escrow.arbiter) {
            return fail(auth, EscrowError::NotAuthorized);
        }
        if escrow.state != EscrowState::Disputed {
            return fail(auth, EscrowError::NotDisputed);
        }
        if provider_percent > 100 {
            return fail(auth, EscrowError::InvalidPercent);
        }
        let net = match escrow.amount.checked_sub(escrow.platform_fee) {
            Some(v) => v,
            None => return fail(auth, EscrowError::Overflow),
        };
        let scaled = match net.checked_mul(provider_percent as i128) {
            Some(v) => v,
            None => return fail(auth, EscrowError::Overflow),
        };
        let to_provider = scaled / 100;
        proof {
            lemma_provider_part_bounded(net as int, provider_percent as int);
        }
        let to_merchant = match net.checked_sub(to_provider) {
            Some(v) => v,
            None => return fail(auth, EscrowError::Overflow),
        };
        let ghost before = escrow@;
        let ghost contract = ledger.contract@;
        let mut transfers: Vec<Transfer> = Vec::new();
        if to_provider > 0 {
            transfers.push(make_transfer(&escrow.usdc_token, &ledger.contract, &escrow.provider, to_provider));
        }
        let ghost first = transfers@;
        if to_merchant > 0 {
            transfers.push(make_transfer(&escrow.usdc_token, &ledger.contract, &escrow.merchant, to_merchant));
        }
        let ghost second = transfers@;
        if escrow.platform_fee > 0 {
            transfers.push(
                make_transfer(&escrow.usdc_token, &ledger.contract, &escrow.arbiter, escrow.platform_fee),
            );
        }
        escrow.state = EscrowState::Released;
        let settlement = Settlement { escrow, transfers };
        assert(transfers_view(first) =~= pay_if_positive(before.usdc_token, contract, before.provider, to_provider as int));
        assert(transfers_view(second) =~= transfers_view(first) + pay_if_positive(before.usdc_token, contract, before.merchant, to_merchant as int));
        assert(settlement@.transfers =~= transfers_view(second) + pay_if_positive(
            before.usdc_token,
            contract,
            before.arbiter,
            before.platform_fee as int,
        ));
        assert(settlement@.escrow == with_state(before, EscrowState::Released));
        Outcome { auth, result: Ok(settlement) }
    }

    /// The escrow stored under an order id.
    pub fn get_state(stored: Option<EscrowData>) -> (r: Result<EscrowData, EscrowError>)
        ensures
            result_view(r) == get_state_spec(option_view(stored)),
    {
        Self::get_escrow(stored)
    }

    /// Whether the escrow has expired: the ledger time is past its expiry.
    pub fn is_expired(ledger: &Ledger, stored: Option<EscrowData>) -> (r: Result<bool, EscrowError>)
        ensures
            match option_view(stored) {
                None => r == Err::<bool, EscrowError>(EscrowError::NotFound),
                Some(e) => r == Ok::<bool, EscrowError>(ledger.timestamp > e.expires_at),
            },
    {
        let escrow = Self::get_escrow(stored)?;
        Ok(ledger.timestamp > escrow.expires_at)
    }

    /// Seconds until the escrow expires, or 0 once it has.
    pub fn time_remaining(ledger: &Ledger, stored: Option<EscrowData>) -> (r: Result<u64, EscrowError>)
        ensures
            match option_view(stored) {
                None => r == Err::<u64, EscrowError>(EscrowError::NotFound),
                Some(e) => r == Ok::<u64, EscrowError>(time_left(e.expires_at, ledger.timestamp)),
            },
    {
        let escrow = Self::get_escrow(stored)?;
        let now = ledger.timestamp;
        if now >= escrow.expires_at {
            Ok(0)
        } else {
            Ok(escrow.expires_at - now)
        }
    }

    fn get_escrow(stored: Option<EscrowData>) -> (r: Result<EscrowData, EscrowError>)
        ensures
            result_view(r) == get_state_spec(option_view(stored)),
    {
        match stored {
            Some(e) => Ok(e),
            None => Err(EscrowError::NotFound),
        }
    }
}

proof fn lemma_provider_part_bounded(net: int, percent: int)
    requires
        0 <= percent <= 100,
    ensures
        net >= 0 ==> 0 <= provider_part(net, percent) <= net,
        net < 0 ==> net <= provider_part(net, percent) <= 0,
{
    if net >= 0 {
        assert(0 <= net * percent <= net * 100) by (nonlinear_arith)
            requires
                net >= 0,
                0 <= percent <= 100,
        ;
        assert(0 <= (net * percent) / 100 <= net) by (nonlinear_arith)
            requires
                0 <= net * percent <= net * 100,
        ;
    } else {
        let m = -net;
        assert(0 <= m * percent <= m * 100) by (nonlinear_arith)
            requires
                m >= 0,
                0 <= percent <= 100,
        ;
        assert(-(net * percent) == m * percent) by (nonlinear_arith)
            requires
                m == -net,
        ;
        assert(0 <= (m * percent) / 100 <= m) by (nonlinear_arith)
            requires
                0 <= m * percent <= m * 100,
        ;
    }
}

// ─── Laws ─────────────────────────────────────────────────────────────

/// A stored escrow is well formed: a positive amount, a fee below it, and the
/// provider's share the rest.
pub open spec fn escrow_wf(e: EscrowDataView) -> bool {
    &&& e.amount > 0
    &&& 0 <= e.platform_fee < e.amount
    &&& e.provider_amount == e.amount - e.platform_fee
}

/// An order id can be locked only once: a second `lock` under the same id
/// fails, whatever its other arguments.
pub proof fn lemma_order_id_used_once(
    now: u64,
    contract: Seq<char>,
    merchant: Seq<char>,
    provider: Seq<char>,
    arbiter: Seq<char>,
    usdc_token: Seq<char>,
    amount: i128,
    platform_fee: i128,
    order_id: Seq<char>,
    expires_at: u64,
)
    ensures
        lock_spec(
            true,
            now,
            contract,
            merchant,
            provider,
            arbiter,
            usdc_token,
            amount,
            platform_fee,
            order_id,
            expires_at,
        ) == Err::<SettlementView, EscrowError>(EscrowError::AlreadyExists),
{
}

/// Every escrow that `lock` creates is well formed, locked, not yet expired,
/// and funded by one transfer of its whole amount from the merchant to the
/// contract.
pub proof fn lemma_lock_creates_funded_escrow(
    taken: bool,
    now: u64,
    contract: Seq<char>,
    merchant: Seq<char>,
    provider: Seq<char>,
    arbiter: Seq<char>,
    usdc_token: Seq<char>,
    amount: i128,
    platform_fee: i128,
    order_id: Seq<char>,
    expires_at: u64,
)
    ensures
        lock_spec(
            taken,
            now,
            contract,
            merchant,
            provider,
            arbiter,
            usdc_token,
            amount,
            platform_fee,
            order_id,
            expires_at,
        ) matches Ok(s) ==> {
            &&& escrow_wf(s.escrow)
            &&& s.escrow.state == EscrowState::Locked
            &&& s.escrow.created_at == now < s.escrow.expires_at
            &&& s.escrow.provider_amount == amount - platform_fee
            &&& s.transfers == seq![transfer_view(usdc_token, merchant, contract, amount as int)]
            &&& total_paid_by(s.transfers, merchant) == amount
        },
{
    lemma_total_paid_by_single(transfer_view(usdc_token, merchant, contract, amount as int), merchant);
}

/// Reading an escrow back after `lock` stored it gives the locked escrow
/// with its terms as given: the amount, the fee, the provider's share (the
/// amount less the fee), its parties and its expiry.
pub proof fn lemma_read_after_lock(
    now: u64,
    contract: Seq<char>,
    merchant: Seq<char>,
    provider: Seq<char>,
    arbiter: Seq<char>,
    usdc_token: Seq<char>,
    amount: i128,
    platform_fee: i128,
    order_id: Seq<char>,
    expires_at: u64,
)
    ensures
        lock_spec(
            false,
            now,
            contract,
            merchant,
            provider,
            arbiter,
            usdc_token,
            amount,
            platform_fee,
            order_id,
            expires_at,
        ) matches Ok(s) ==> get_state_spec(Some(s.escrow)) == Ok::<EscrowDataView, EscrowError>(
            EscrowDataView {
                merchant,
                provider,
                arbiter,
                usdc_token,
                amount,
                platform_fee,
                provider_amount: (amount - platform_fee) as i128,
                state: EscrowState::Locked,
                order_id,
                expires_at,
                created_at: now,
            },
        ),
{
}

/// Each call moves an escrow along one edge of its life cycle and changes
/// nothing else in it: `release` takes it from Locked to Released, `dispute`
/// from Locked to Disputed, `resolve_dispute` from Disputed to Released, and
/// `refund` from Locked or Disputed to Refunded. So every call keeps a well
/// formed escrow well formed.
pub proof fn lemma_life_cycle(
    e: EscrowDataView,
    caller: Seq<char>,
    now: u64,
    provider_percent: u32,
    contract: Seq<char>,
)
    ensures
        release_spec(Some(e), caller, contract) matches Ok(s) ==> e.state == EscrowState::Locked
            && s.escrow == with_state(e, EscrowState::Released),
        dispute_spec(Some(e), caller) matches Ok(s) ==> e.state == EscrowState::Locked && s.escrow
            == with_state(e, EscrowState::Disputed),
        resolve_dispute_spec(Some(e), caller, provider_percent, contract) matches Ok(s) ==> e.state
            == EscrowState::Disputed && s.escrow == with_state(e, EscrowState::Released),
        refund_spec(Some(e), caller, now, contract) matches Ok(s) ==> (e.state == EscrowState::Locked
            || e.state == EscrowState::Disputed) && s.escrow == with_state(e, EscrowState::Refunded),
        forall|st: EscrowState| escrow_wf(e) ==> #[trigger] escrow_wf(with_state(e, st)),
{
}

/// A released or refunded escrow is settled for good: no call can move its
/// funds or change it again.
pub proof fn lemma_settled_escrow_is_final(
    e: EscrowDataView,
    caller: Seq<char>,
    now: u64,
    provider_percent: u32,
    contract: Seq<char>,
)
    requires
        e.state == EscrowState::Released || e.state == EscrowState::Refunded,
    ensures
        release_spec(Some(e), caller, contract) is Err,
        refund_spec(Some(e), caller, now, contract) is Err,
        dispute_spec(Some(e), caller) is Err,
        resolve_dispute_spec(Some(e), caller, provider_percent, contract) is Err,
{
}

/// Only the parties named in an escrow can act on it: the arbiter or the
/// merchant releases, the merchant or the provider disputes, the arbiter
/// resolves, and before expiry only the arbiter refunds.
pub proof fn lemma_only_parties_act(
    e: EscrowDataView,
    caller: Seq<char>,
    now: u64,
    provider_percent: u32,
    contract: Seq<char>,
)
    ensures
        release_spec(Some(e), caller, contract) is Ok ==> caller == e.arbiter || caller == e.merchant,
        dispute_spec(Some(e), caller) is Ok ==> caller == e.merchant || caller == e.provider,
        resolve_dispute_spec(Some(e), caller, provider_percent, contract) is Ok ==> caller == e.arbiter,
        refund_spec(Some(e), caller, now, contract) is Ok ==> caller == e.arbiter || now > e.expires_at,
{
}

/// The parties can always act when the escrow is in the right state: the
/// arbiter or the merchant can release a locked escrow, the merchant or the
/// provider can dispute it, the arbiter can refund it at any time and anyone
/// can once it has expired, and the arbiter can resolve a dispute at any
/// percentage up to 100 (when the arithmetic stays within 128 bits).
pub proof fn lemma_parties_can_act(
    e: EscrowDataView,
    caller: Seq<char>,
    now: u64,
    provider_percent: u32,
    contract: Seq<char>,
)
    ensures
        e.state == EscrowState::Locked && (caller == e.arbiter || caller == e.merchant) ==> release_spec(
            Some(e),
            caller,
            contract,
        ) is Ok,
        e.state == EscrowState::Locked && (caller == e.merchant || caller == e.provider) ==> dispute_spec(
            Some(e),
            caller,
        ) is Ok,
        (e.state == EscrowState::Locked || e.state == EscrowState::Disputed) && (caller == e.arbiter || now
            > e.expires_at) ==> refund_spec(Some(e), caller, now, contract) is Ok,
        e.state == EscrowState::Disputed && caller == e.arbiter && provider_percent <= 100 && escrow_wf(e)
            && fits_i128((e.amount - e.platform_fee) * provider_percent) ==> resolve_dispute_spec(
            Some(e),
            caller,
            provider_percent,
            contract,
        ) is Ok,
{
}

/// Releasing a well formed escrow pays out of the contract exactly the amount
/// that was locked: the provider's share to the provider and the fee to the
/// arbiter.
pub proof fn lemma_release_pays_out_locked_amount(e: EscrowDataView, caller: Seq<char>, contract: Seq<char>)
    requires
        escrow_wf(e),
    ensures
        release_spec(Some(e), caller, contract) matches Ok(s) ==> {
            &&& total_paid_by(s.transfers, contract) == e.amount
            &&& s.transfers[0] == transfer_view(e.usdc_token, contract, e.provider, e.amount - e.platform_fee)
        },
{
    if release_spec(Some(e), caller, contract) is Ok {
        let head = seq![transfer_view(e.usdc_token, contract, e.provider, e.provider_amount as int)];
        let tail = pay_if_positive(e.usdc_token, contract, e.arbiter, e.platform_fee as int);
        lemma_total_paid_by_concat(head, tail, contract);
        lemma_pay_if_positive_total(e.usdc_token, contract, e.arbiter, e.platform_fee as int);
        lemma_total_paid_by_single(head[0], contract);
        assert(head =~= seq![head[0]]);
    }
}

/// Refunding an escrow pays its whole amount back to the merchant.
pub proof fn lemma_refund_returns_amount(e: EscrowDataView, caller: Seq<char>, now: u64, contract: Seq<char>)
    ensures
        refund_spec(Some(e), caller, now, contract) matches Ok(s) ==> {
            &&& s.transfers == seq![transfer_view(e.usdc_token, contract, e.merchant, e.amount as int)]
            &&& total_paid_by(s.transfers, contract) == e.amount
        },
{
    lemma_total_paid_by_single(transfer_view(e.usdc_token, contract, e.merchant, e.amount as int), contract);
}

/// Resolving a dispute over a well formed escrow splits the net amount at the
/// given percentage, rounding the provider's part down, and pays out of the
/// contract exactly the amount that was locked.
pub proof fn lemma_resolve_pays_out_locked_amount(
    e: EscrowDataView,
    caller: Seq<char>,
    provider_percent: u32,
    contract: Seq<char>,
)
    requires
        escrow_wf(e),
    ensures
        resolve_dispute_spec(Some(e), caller, provider_percent, contract) matches Ok(s) ==> {
            let net = e.amount - e.platform_fee;
            let to_provider = (net * provider_percent) / 100;
            &&& 0 <= to_provider <= net
            &&& s.transfers == pay_if_positive(e.usdc_token, contract, e.provider, to_provider)
                + pay_if_positive(e.usdc_token, contract, e.merchant, net - to_provider)
                + pay_if_positive(e.usdc_token, contract, e.arbiter, e.platform_fee as int)
            &&& total_paid_by(s.transfers, contract) == e.amount
        },
{
    if resolve_dispute_spec(Some(e), caller, provider_percent, contract) is Ok {
        let net = e.amount - e.platform_fee;
        lemma_provider_part_bounded(net, provider_percent as int);
        let to_provider = provider_part(net, provider_percent as int);
        let a = pay_if_positive(e.usdc_token, contract, e.provider, to_provider);
        let b = pay_if_positive(e.usdc_token, contract, e.merchant, net - to_provider);
        let c = pay_if_positive(e.usdc_token, contract, e.arbiter, e.platform_fee as int);
        lemma_total_paid_by_concat(a, b, contract);
        lemma_total_paid_by_concat(a + b, c, contract);
        lemma_pay_if_positive_total(e.usdc_token, contract, e.provider, to_provider);
        lemma_pay_if_positive_total(e.usdc_token, contract, e.merchant, net - to_provider);
        lemma_pay_if_positive_total(e.usdc_token, contract, e.arbiter, e.platform_fee as int);
    }
}

/// The time left and the expiry agree: no time is left exactly when the
/// ledger time has reached the expiry, an expired escrow has none left, and
/// otherwise the time left runs up to the expiry.
pub proof fn lemma_time_left(expires_at: u64, now: u64)
    ensures
        (time_left(expires_at, now) == 0) == (now >= expires_at),
        now > expires_at ==> time_left(expires_at, now) == 0,
        now < expires_at ==> now + time_left(expires_at, now) == expires_at,
{
}

/// Releasing a locked escrow pays exactly two parties, whichever of the two
/// allowed callers asks: the provider's share to the provider, then the
/// platform fee (when there is one) to the arbiter. Nothing goes to the
/// merchant or to the caller as such, and the escrow becomes released with
/// all its other fields unchanged.
pub proof fn lemma_release_pays_provider_and_arbiter(e: EscrowDataView, caller: Seq<char>, contract: Seq<char>)
    requires
        e.state == EscrowState::Locked,
        caller == e.arbiter || caller == e.merchant,
    ensures
        release_spec(Some(e), caller, contract) == Ok::<SettlementView, EscrowError>(
            SettlementView {
                escrow: EscrowDataView { state: EscrowState::Released, ..e },
                transfers: if e.platform_fee > 0 {
                    seq![
                        TransferView {
                            token: e.usdc_token,
                            from: contract,
                            to: e.provider,
                            amount: e.provider_amount as int,
                        },
                        TransferView {
                            token: e.usdc_token,
                            from: contract,
                            to: e.arbiter,
                            amount: e.platform_fee as int,
                        },
                    ]
                } else {
                    seq![
                        TransferView {
                            token: e.usdc_token,
                            from: contract,
                            to: e.provider,
                            amount: e.provider_amount as int,
                        },
                    ]
                },
            },
        ),
        release_spec(Some(e), e.arbiter, contract) == release_spec(Some(e), e.merchant, contract),
{
    let head = seq![transfer_view(e.usdc_token, contract, e.provider, e.provider_amount as int)];
    let tail = pay_if_positive(e.usdc_token, contract, e.arbiter, e.platform_fee as int);
    if e.platform_fee > 0 {
        assert(head + tail =~= seq![head[0], tail[0]]);
    } else {
        assert(head + tail =~= head);
    }
}

/// `lock` accepts every order whose amount is positive, whose fee is at
/// least 0 and below the amount, whose expiry is still ahead and whose id
/// is free: it creates the locked escrow holding exactly these arguments,
/// the provider's share being the amount less the fee, and funds it with one
/// transfer of the whole amount from the merchant.
pub proof fn lemma_lock_accepts_valid_orders(
    now: u64,
    contract: Seq<char>,
    merchant: Seq<char>,
    provider: Seq<char>,
    arbiter: Seq<char>,
    usdc_token: Seq<char>,
    amount: i128,
    platform_fee: i128,
    order_id: Seq<char>,
    expires_at: u64,
)
    requires
        amount > 0,
        0 <= platform_fee < amount,
        expires_at > now,
    ensures
        lock_spec(
            false,
            now,
            contract,
            merchant,
            provider,
            arbiter,
            usdc_token,
            amount,
            platform_fee,
            order_id,
            expires_at,
        ) == Ok::<SettlementView, EscrowError>(
            SettlementView {
                escrow: EscrowDataView {
                    merchant,
                    provider,
                    arbiter,
                    usdc_token,
                    amount,
                    platform_fee,
                    provider_amount: (amount - platform_fee) as i128,
                    state: EscrowState::Locked,
                    order_id,
                    expires_at,
                    created_at: now,
                },
                transfers: seq![
                    TransferView { token: usdc_token, from: merchant, to: contract, amount: amount as int },
                ],
            },
        ),
{
}

/// The arbiter's ruling on a disputed well formed escrow, at any percentage
/// up to 100 whose product with the net amount fits in 128 bits: the
/// provider gets that percentage of the net amount rounded down (when it is
/// positive), the merchant the rest of it (when positive), and the arbiter
/// the platform fee (when positive), in that order; the escrow becomes
/// released. A disputed escrow can also be refunded, in full to the
/// merchant, by the arbiter at any time or by anyone after its expiry.
pub proof fn lemma_ruling_on_a_dispute(
    e: EscrowDataView,
    provider_percent: u32,
    caller: Seq<char>,
    now: u64,
    contract: Seq<char>,
)
    requires
        escrow_wf(e),
        e.state == EscrowState::Disputed,
    ensures
        ({
            let net = e.amount - e.platform_fee;
            let to_provider = (net * provider_percent) / 100;
            let one = |to: Seq<char>, amount: int|
                if amount > 0 {
                    seq![TransferView { token: e.usdc_token, from: contract, to, amount }]
                } else {
                    Seq::<TransferView>::empty()
                };
            provider_percent <= 100 && fits_i128(net * provider_percent) ==> {
                &&& 0 <= to_provider <= net
                &&& resolve_dispute_spec(Some(e), e.arbiter, provider_percent, contract) == Ok::<
                    SettlementView,
                    EscrowError,
                >(
                    SettlementView {
                        escrow: EscrowDataView { state: EscrowState::Released, ..e },
                        transfers: one(e.provider, to_provider) + one(e.merchant, net - to_provider) + one(
                            e.arbiter,
                            e.platform_fee as int,
                        ),
                    },
                )
            }
        }),
        caller == e.arbiter || now > e.expires_at ==> refund_spec(Some(e), caller, now, contract) == Ok::<
            SettlementView,
            EscrowError,
        >(
            SettlementView {
                escrow: EscrowDataView { state: EscrowState::Refunded, ..e },
                transfers: seq![
                    TransferView { token: e.usdc_token, from: contract, to: e.merchant, amount: e.amount as int },
                ],
            },
        ),
{
    let net = e.amount - e.platform_fee;
    let p = provider_percent as int;
    if provider_percent <= 100 && fits_i128(net * provider_percent) {
        lemma_provider_part_bounded(net, p);
        assert(net * p >= 0) by (nonlinear_arith)
            requires
                net > 0,
                p >= 0,
        ;
        assert(provider_part(net, p) == (net * p) / 100);
    }
}

} // verus!
