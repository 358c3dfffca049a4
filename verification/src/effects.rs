use vstd::prelude::*;
use crate::address::Address;

verus! {

/// When a newly stored escrow or listing has fewer ledgers than this left to
/// live, its storage lifetime is extended...
pub const TTL_THRESHOLD: u32 = 2_592_000;

/// ...to this many ledgers.
pub const TTL_EXTEND_TO: u32 = 7_776_000;

/// What the host tells a contract about the invocation in progress.
pub struct Ledger {
    /// The ledger's close time, in seconds.
    pub timestamp: u64,
    /// The address of the contract being invoked.
    pub contract: Address,
}

/// A token transfer that the contract asks the token contract to make.
#[derive(Debug)]
pub struct Transfer {
    pub token: Address,
    pub from: Address,
    pub to: Address,
    pub amount: i128,
}

pub struct TransferView {
    pub token: Seq<char>,
    pub from: Seq<char>,
    pub to: Seq<char>,
    pub amount: int,
}

impl View for Transfer {
    type V = TransferView;

    open spec fn view(&self) -> TransferView {
        TransferView { token: self.token@, from: self.from@, to: self.to@, amount: self.amount as int }
    }
}

pub open spec fn transfer_view(token: Seq<char>, from: Seq<char>, to: Seq<char>, amount: int) -> TransferView {
    TransferView { token, from, to, amount }
}

pub open spec fn transfers_view(v: Seq<Transfer>) -> Seq<TransferView> {
    v.map_values(|t: Transfer| t@)
}

/// A transfer of `amount`, or nothing when `amount` is not positive.
pub open spec fn pay_if_positive(token: Seq<char>, from: Seq<char>, to: Seq<char>, amount: int) -> Seq<TransferView> {
    if amount > 0 {
        seq![transfer_view(token, from, to, amount)]
    } else {
        Seq::empty()
    }
}

/// The sum of the amounts of a list of transfers.
pub open spec fn total_amount(ts: Seq<TransferView>) -> int
    decreases ts.len(),
{
    if ts.len() == 0 {
        0
    } else {
        total_amount(ts.drop_last()) + ts.last().amount
    }
}

/// The sum of the amounts that a list of transfers moves out of `from`.
pub open spec fn total_paid_by(ts: Seq<TransferView>, from: Seq<char>) -> int
    decreases ts.len(),
{
    if ts.len() == 0 {
        0
    } else {
        total_paid_by(ts.drop_last(), from) + if ts.last().from == from { ts.last().amount } else { 0 }
    }
}

/// Paying out two lists of transfers in turn pays out what each pays out.
pub proof fn lemma_total_paid_by_concat(a: Seq<TransferView>, b: Seq<TransferView>, from: Seq<char>)
    ensures
        total_paid_by(a + b, from) == total_paid_by(a, from) + total_paid_by(b, from),
    decreases b.len(),
{
    if b.len() == 0 {
        assert(a + b =~= a);
    } else {
        lemma_total_paid_by_concat(a, b.drop_last(), from);
        assert((a + b).drop_last() =~= a + b.drop_last());
    }
}

/// A transfer of `amount` when it is positive pays out the positive part of
/// `amount`.
pub proof fn lemma_pay_if_positive_total(token: Seq<char>, from: Seq<char>, to: Seq<char>, amount: int)
    ensures
        total_paid_by(pay_if_positive(token, from, to, amount), from) == if amount > 0 {
            amount
        } else {
            0
        },
{
    if amount > 0 {
        lemma_total_paid_by_single(transfer_view(token, from, to, amount), from);
    }
}

/// Transfers none of which is sent by `from` pay nothing out of it.
pub proof fn lemma_total_paid_by_none(ts: Seq<TransferView>, from: Seq<char>)
    requires
        forall|i: int| 0 <= i < ts.len() ==> #[trigger] ts[i].from != from,
    ensures
        total_paid_by(ts, from) == 0,
    decreases ts.len(),
{
    if ts.len() > 0 {
        let rest = ts.drop_last();
        assert forall|i: int| 0 <= i < rest.len() implies #[trigger] rest[i].from != from by {
            assert(rest[i] == ts[i]);
        }
        lemma_total_paid_by_none(rest, from);
    }
}

/// One transfer pays out its amount from its sender and nothing from anyone
/// else.
pub proof fn lemma_total_paid_by_single(t: TransferView, from: Seq<char>)
    ensures
        total_paid_by(seq![t], from) == if t.from == from {
            t.amount
        } else {
            0
        },
{
    let s = seq![t];
    assert(s.drop_last() =~= Seq::<TransferView>::empty());
    assert(total_paid_by(s.drop_last(), from) == 0);
    assert(s.last() == t);
}

/// The result of a contract invocation: the address whose authorization the
/// host must demand first (if any), then the invocation's own result.
pub struct Outcome<T, E> {
    pub auth: Option<Address>,
    pub result: Result<T, E>,
}

impl<T, E> Outcome<T, E> {
    pub open spec fn auth_view(&self) -> Option<Seq<char>> {
        match self.auth {
            Some(a) => Some(a@),
            None => None,
        }
    }
}

pub open spec fn result_view<T: View, E>(r: Result<T, E>) -> Result<T::V, E> {
    match r {
        Ok(t) => Ok(t@),
        Err(e) => Err(e),
    }
}

pub open spec fn option_view<T: View>(o: Option<T>) -> Option<T::V> {
    match o {
        Some(t) => Some(t@),
        None => None,
    }
}

/// Division that rounds toward zero, as integer division does at run time.
pub open spec fn div_trunc(a: int, b: int) -> int {
    if a >= 0 {
        a / b
    } else {
        -((-a) / b)
    }
}

pub open spec fn fits_i128(x: int) -> bool {
    i128::MIN <= x <= i128::MAX
}

/// Demands the authorization of `who`.
pub fn authorize(who: &Address) -> (a: Option<Address>)
    ensures
        a matches Some(x) && x@ == who@,
{
    Some(who.clone())
}

/// An outcome that fails with `e` after demanding `auth`.
pub fn fail<T, E>(auth: Option<Address>, e: E) -> (out: Outcome<T, E>)
    ensures
        out.auth == auth,
        out.result == Err::<T, E>(e),
{
    Outcome { auth, result: Err(e) }
}

/// Builds a transfer record.
pub fn make_transfer(token: &Address, from: &Address, to: &Address, amount: i128) -> (t: Transfer)
    ensures
        t@ == transfer_view(token@, from@, to@, amount as int),
{
    Transfer { token: token.clone(), from: from.clone(), to: to.clone(), amount }
}

} // verus!
