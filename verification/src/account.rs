//! Per-client account state.
//!
//! An account keeps two sub-balances: `available` funds, which the client may
//! spend or withdraw, and `held` funds, frozen while a dispute is pending. A
//! `locked` flag, set by a successful chargeback, permanently rejects every
//! further operation. Each operation either applies completely or leaves the
//! account exactly as it was; the spec transition functions in this module
//! state each outcome, and every executable operation is proved to match its
//! transition.

use vstd::prelude::*;

use crate::amount::Amount;

verus! {

broadcast use crate::amount::lemma_amount_view_range;

/// Errors an account operation can report.
#[derive(Clone, Copy, Debug, PartialEq, Eq, Structural)]
pub enum AccountError {
    /// The account is locked; nothing can be applied any more.
    Locked,
    /// The relevant sub-balance does not cover the requested amount.
    InsufficientFunds,
}

/// The unique identifier of an account, one per client.
#[derive(Clone, Copy, Debug, PartialEq, Eq, Hash, Structural)]
pub struct AccountId {
    value: u16,
}

impl View for AccountId {
    type V = u16;

    closed spec fn view(&self) -> u16 {
        self.value
    }
}

impl AccountId {
    /// Wraps a client number as an account identifier.
    pub fn new(value: u16) -> (r: AccountId)
        ensures
            r@ == value,
    {
        AccountId { value }
    }

    /// The client number this identifier wraps.
    pub fn value(&self) -> (r: u16)
        ensures
            r == self@,
    {
        self.value
    }
}

/// The mathematical state of an account: both sub-balances as integers of raw
/// fractional units, and the lock flag.
pub struct AccountView {
    pub id: u16,
    pub available: int,
    pub held: int,
    pub locked: bool,
}

impl AccountView {
    /// The total funds: available plus held.
    pub open spec fn total(self) -> int {
        self.available + self.held
    }

    /// Well-formedness: both balances are non-negative and the total fits the
    /// fixed-point representation, so that it can always be computed exactly.
    pub open spec fn inv(self) -> bool {
        &&& 0 <= self.available
        &&& 0 <= self.held
        &&& self.available + self.held <= u64::MAX
    }
}

/// Outcome of depositing `amount`: rejected when locked, otherwise credited
/// to the available balance.
pub open spec fn deposit_tr(a: AccountView, amount: int) -> (AccountView, Result<
    (),
    AccountError,
>) {
    if a.locked {
        (a, Err(AccountError::Locked))
    } else {
        (AccountView { available: a.available + amount, ..a }, Ok(()))
    }
}

/// Outcome of withdrawing `amount`: rejected when locked or when the
/// available balance falls short; otherwise debited from available funds.
pub open spec fn withdrawal_tr(a: AccountView, amount: int) -> (AccountView, Result<
    (),
    AccountError,
>) {
    if a.locked {
        (a, Err(AccountError::Locked))
    } else if amount > a.available {
        (a, Err(AccountError::InsufficientFunds))
    } else {
        (AccountView { available: a.available - amount, ..a }, Ok(()))
    }
}

/// Outcome of holding back `amount` for a dispute: moves it from available to
/// held in one indivisible step, or changes nothing.
pub open spec fn hold_back_tr(a: AccountView, amount: int) -> (AccountView, Result<
    (),
    AccountError,
>) {
    if a.locked {
        (a, Err(AccountError::Locked))
    } else if amount > a.available {
        (a, Err(AccountError::InsufficientFunds))
    } else {
        (
            AccountView { available: a.available - amount, held: a.held + amount, ..a },
            Ok(()),
        )
    }
}

/// Outcome of freeing `amount` after a resolved dispute: moves it from held
/// back to available in one indivisible step, or changes nothing.
pub open spec fn set_free_tr(a: AccountView, amount: int) -> (AccountView, Result<
    (),
    AccountError,
>) {
    if a.locked {
        (a, Err(AccountError::Locked))
    } else if amount > a.held {
        (a, Err(AccountError::InsufficientFunds))
    } else {
        (
            AccountView { available: a.available + amount, held: a.held - amount, ..a },
            Ok(()),
        )
    }
}

/// Outcome of charging back `amount`: removes it from the held balance and
/// locks the account, or — on any failure — changes nothing, so a failed
/// chargeback never locks.
pub open spec fn charge_back_tr(a: AccountView, amount: int) -> (AccountView, Result<
    (),
    AccountError,
>) {
    if a.locked {
        (a, Err(AccountError::Locked))
    } else if amount > a.held {
        (a, Err(AccountError::InsufficientFunds))
    } else {
        (AccountView { held: a.held - amount, locked: true, ..a }, Ok(()))
    }
}

/// One requested balance movement, with its amount in raw fractional units.
/// Used to state laws about whole sequences of account operations.
pub enum AccountOp {
    Deposit { amount: int },
    Withdrawal { amount: int },
    HoldBack { amount: int },
    SetFree { amount: int },
    ChargeBack { amount: int },
}

/// The amount an operation asks to move.
pub open spec fn op_amount(op: AccountOp) -> int {
    match op {
        AccountOp::Deposit { amount } => amount,
        AccountOp::Withdrawal { amount } => amount,
        AccountOp::HoldBack { amount } => amount,
        AccountOp::SetFree { amount } => amount,
        AccountOp::ChargeBack { amount } => amount,
    }
}

/// The transition one operation makes on an account.
pub open spec fn account_step(a: AccountView, op: AccountOp) -> (AccountView, Result<
    (),
    AccountError,
>) {
    match op {
        AccountOp::Deposit { amount } => deposit_tr(a, amount),
        AccountOp::Withdrawal { amount } => withdrawal_tr(a, amount),
        AccountOp::HoldBack { amount } => hold_back_tr(a, amount),
        AccountOp::SetFree { amount } => set_free_tr(a, amount),
        AccountOp::ChargeBack { amount } => charge_back_tr(a, amount),
    }
}

/// The account state after replaying a whole sequence of operations.
pub open spec fn replay(a: AccountView, ops: Seq<AccountOp>) -> AccountView
    decreases ops.len(),
{
    if ops.len() == 0 {
        a
    } else {
        replay(account_step(a, ops[0]).0, ops.drop_first())
    }
}

/// The result each operation of a replayed sequence reports, in order.
pub open spec fn step_results(a: AccountView, ops: Seq<AccountOp>) -> Seq<Result<
    (),
    AccountError,
>>
    decreases ops.len(),
{
    if ops.len() == 0 {
        Seq::empty()
    } else {
        seq![account_step(a, ops[0]).1] + step_results(account_step(a, ops[0]).0, ops.drop_first())
    }
}

/// A replay reports exactly one result per operation.
pub proof fn lemma_step_results_len(a: AccountView, ops: Seq<AccountOp>)
    ensures
        step_results(a, ops).len() == ops.len(),
    decreases ops.len(),
{
    if ops.len() > 0 {
        lemma_step_results_len(account_step(a, ops[0]).0, ops.drop_first());
    }
}

/// Whether an operation is a plain cash movement: a deposit or a withdrawal.
pub open spec fn is_cash_op(op: AccountOp) -> bool {
    op is Deposit || op is Withdrawal
}

/// Whether a sequence consists of deposits and withdrawals alone.
pub open spec fn cash_ops_only(ops: Seq<AccountOp>) -> bool {
    forall|i: int| 0 <= i < ops.len() ==> is_cash_op(#[trigger] ops[i])
}

/// Whether every requested amount of a sequence is non-negative, as every
/// representable `Amount` is.
pub open spec fn amounts_nonneg(ops: Seq<AccountOp>) -> bool {
    forall|i: int| 0 <= i < ops.len() ==> op_amount(#[trigger] ops[i]) >= 0
}

/// The sum of the amounts of the deposits that succeed during a replay.
pub open spec fn successful_deposit_sum(a: AccountView, ops: Seq<AccountOp>) -> int
    decreases ops.len(),
{
    if ops.len() == 0 {
        0
    } else {
        let stepped = account_step(a, ops[0]);
        let here: int = if ops[0] is Deposit && stepped.1 is Ok {
            op_amount(ops[0])
        } else {
            0
        };
        here + successful_deposit_sum(stepped.0, ops.drop_first())
    }
}

/// The sum of the amounts of the withdrawals that succeed during a replay.
pub open spec fn successful_withdrawal_sum(a: AccountView, ops: Seq<AccountOp>) -> int
    decreases ops.len(),
{
    if ops.len() == 0 {
        0
    } else {
        let stepped = account_step(a, ops[0]);
        let here: int = if ops[0] is Withdrawal && stepped.1 is Ok {
            op_amount(ops[0])
        } else {
            0
        };
        here + successful_withdrawal_sum(stepped.0, ops.drop_first())
    }
}

/// Law: replaying any sequence of deposits and withdrawals leaves the
/// available balance at its start value plus the successful deposits minus
/// the successful withdrawals — and it never goes negative.
pub proof fn lemma_cash_replay(a: AccountView, ops: Seq<AccountOp>)
    requires
        a.available >= 0,
        cash_ops_only(ops),
        amounts_nonneg(ops),
    ensures
        replay(a, ops).available == a.available + successful_deposit_sum(a, ops)
            - successful_withdrawal_sum(a, ops),
        replay(a, ops).available >= 0,
    decreases ops.len(),
{
    if ops.len() > 0 {
        let stepped = account_step(a, ops[0]);
        assert(is_cash_op(ops[0]));
        assert(op_amount(ops[0]) >= 0);
        assert forall|i: int| 0 <= i < ops.drop_first().len() implies is_cash_op(
            #[trigger] ops.drop_first()[i],
        ) by {
            assert(ops.drop_first()[i] == ops[i + 1]);
        }
        assert forall|i: int| 0 <= i < ops.drop_first().len() implies op_amount(
            #[trigger] ops.drop_first()[i],
        ) >= 0 by {
            assert(ops.drop_first()[i] == ops[i + 1]);
        }
        lemma_cash_replay(stepped.0, ops.drop_first());
    }
}

/// Law: at every point of every replay both balances stay non-negative, and
/// the total is exactly their sum.
pub proof fn lemma_replay_keeps_balances(a: AccountView, ops: Seq<AccountOp>)
    requires
        a.available >= 0,
        a.held >= 0,
        amounts_nonneg(ops),
    ensures
        replay(a, ops).available >= 0,
        replay(a, ops).held >= 0,
        replay(a, ops).total() == replay(a, ops).available + replay(a, ops).held,
    decreases ops.len(),
{
    if ops.len() > 0 {
        let stepped = account_step(a, ops[0]);
        assert(op_amount(ops[0]) >= 0);
        assert forall|i: int| 0 <= i < ops.drop_first().len() implies op_amount(
            #[trigger] ops.drop_first()[i],
        ) >= 0 by {
            assert(ops.drop_first()[i] == ops[i + 1]);
        }
        lemma_replay_keeps_balances(stepped.0, ops.drop_first());
    }
}

/// Law: once an account is locked it is terminal — no sequence of operations
/// changes it, and every single operation reports `Locked`.
pub proof fn lemma_locked_is_terminal(a: AccountView, ops: Seq<AccountOp>)
    requires
        a.locked,
    ensures
        replay(a, ops) == a,
        forall|i: int| 0 <= i < ops.len() ==> #[trigger] step_results(a, ops)[i] == Err::<
            (),
            AccountError,
        >(AccountError::Locked),
    decreases ops.len(),
{
    if ops.len() > 0 {
        assert(account_step(a, ops[0]).0 == a);
        lemma_locked_is_terminal(a, ops.drop_first());
        lemma_step_results_len(a, ops.drop_first());
        assert forall|i: int| 0 <= i < ops.len() implies #[trigger] step_results(a, ops)[i]
            == Err::<(), AccountError>(AccountError::Locked) by {
            if i > 0 {
                assert(step_results(a, ops)[i] == step_results(a, ops.drop_first())[i - 1]);
            }
        }
    }
}

/// A user account with available and held sub-balances and a lock flag.
#[derive(Clone, Debug, PartialEq, Eq, Structural)]
pub struct Account {
    id: AccountId,
    available: Amount,
    held: Amount,
    locked: bool,
}

impl View for Account {
    type V = AccountView;

    closed spec fn view(&self) -> AccountView {
        AccountView {
            id: self.id@,
            available: self.available@,
            held: self.held@,
            locked: self.locked,
        }
    }
}

impl Account {
    /// Creates a new, empty, unlocked account with the given id.
    pub fn new(id: AccountId) -> (r: Account)
        ensures
            r@ == (AccountView { id: id@, available: 0, held: 0, locked: false }),
            r@.inv(),
    {
        Account {
            id,
            available: Amount::from_raw(0),
            held: Amount::from_raw(0),
            locked: false,
        }
    }

    /// The identifier of the account.
    pub fn id(&self) -> (r: AccountId)
        ensures
            r@ == self@.id,
    {
        self.id
    }

    /// The available funds.
    pub fn available(&self) -> (r: Amount)
        ensures
            r@ == self@.available,
    {
        self.available
    }

    /// The held-back funds.
    pub fn held(&self) -> (r: Amount)
        ensures
            r@ == self@.held,
    {
        self.held
    }

    /// Whether the account is locked.
    pub fn locked(&self) -> (r: bool)
        ensures
            r == self@.locked,
    {
        self.locked
    }

    /// The total funds in the account: available plus held.
    pub fn total(&self) -> (r: Amount)
        requires
            self@.inv(),
        ensures
            r@ == self@.total(),
    {
        self.available.add(self.held)
    }

    /// Deposits the given amount into the available balance.
    ///
    /// Fails with `Locked` on a locked account and changes nothing then.
    pub fn deposit(&mut self, amount: Amount) -> (result: Result<(), AccountError>)
        requires
            old(self)@.inv(),
            old(self)@.total() + amount@ <= u64::MAX,
        ensures
            final(self)@ == deposit_tr(old(self)@, amount@).0,
            result == deposit_tr(old(self)@, amount@).1,
            final(self)@.inv(),
    {
        if self.locked {
            return Err(AccountError::Locked);
        }
        self.available = self.available.add(amount);
        Ok(())
    }

    /// Withdraws the given amount from the available balance.
    ///
    /// Fails with `Locked` on a locked account and with `InsufficientFunds`
    /// when the available balance falls short; on failure nothing changes.
    pub fn withdrawal(&mut self, amount: Amount) -> (result: Result<(), AccountError>)
        requires
            old(self)@.inv(),
        ensures
            final(self)@ == withdrawal_tr(old(self)@, amount@).0,
            result == withdrawal_tr(old(self)@, amount@).1,
            final(self)@.inv(),
    {
        if self.locked {
            return Err(AccountError::Locked);
        }
        match self.available.checked_sub(amount) {
            Some(rest) => {
                self.available = rest;
                Ok(())
            },
            None => Err(AccountError::InsufficientFunds),
        }
    }

    /// Moves the given amount from available to held funds, as one step.
    ///
    /// Fails with `Locked` on a locked account and with `InsufficientFunds`
    /// when the available balance falls short; on failure nothing changes —
    /// in particular the held balance is never credited alone.
    pub fn hold_back(&mut self, amount: Amount) -> (result: Result<(), AccountError>)
        requires
            old(self)@.inv(),
        ensures
            final(self)@ == hold_back_tr(old(self)@, amount@).0,
            result == hold_back_tr(old(self)@, amount@).1,
            final(self)@.inv(),
    {
        if self.locked {
            return Err(AccountError::Locked);
        }
        match self.available.checked_sub(amount) {
            Some(rest) => {
                self.available = rest;
                self.held = self.held.add(amount);
                Ok(())
            },
            None => Err(AccountError::InsufficientFunds),
        }
    }

    /// Moves the given amount from held back to available funds, as one step.
    ///
    /// Fails with `Locked` on a locked account and with `InsufficientFunds`
    /// when the held balance falls short; on failure nothing changes.
    pub fn set_free(&mut self, amount: Amount) -> (result: Result<(), AccountError>)
        requires
            old(self)@.inv(),
        ensures
            final(self)@ == set_free_tr(old(self)@, amount@).0,
            result == set_free_tr(old(self)@, amount@).1,
            final(self)@.inv(),
    {
        if self.locked {
            return Err(AccountError::Locked);
        }
        match self.held.checked_sub(amount) {
            Some(rest) => {
                self.held = rest;
                self.available = self.available.add(amount);
                Ok(())
            },
            None => Err(AccountError::InsufficientFunds),
        }
    }

    /// Removes the given amount from the held balance and locks the account.
    ///
    /// On success the account is always left locked; on failure (`Locked` or
    /// `InsufficientFunds`) nothing changes, so a failed chargeback never
    /// locks an unlocked account.
    pub fn charge_back(&mut self, amount: Amount) -> (result: Result<(), AccountError>)
        requires
            old(self)@.inv(),
        ensures
            final(self)@ == charge_back_tr(old(self)@, amount@).0,
            result == charge_back_tr(old(self)@, amount@).1,
            final(self)@.inv(),
    {
        if self.locked {
            return Err(AccountError::Locked);
        }
        match self.held.checked_sub(amount) {
            Some(rest) => {
                self.held = rest;
                self.locked = true;
                Ok(())
            },
            None => Err(AccountError::InsufficientFunds),
        }
    }
}

} // verus!
