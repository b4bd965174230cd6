//! The transaction engine.
//!
//! The engine owns every account, the log of deposits and withdrawals (the
//! only records a later dispute may reference), and the set of currently
//! open disputes. [`TransactionEngine::handle_transaction`] applies one
//! record at a time; the spec function [`engine_step`] states the exact
//! outcome — new state and result — of each record, and the executable code
//! is proved to match it. A failed record never corrupts the state and never
//! halts the stream: every error is returned to the caller, who goes on with
//! the next record.

use std::collections::{HashMap, HashSet};

use vstd::prelude::*;

use crate::account::{
    Account, AccountError, AccountId, AccountView, charge_back_tr, deposit_tr, hold_back_tr,
    set_free_tr, withdrawal_tr,
};
use crate::amount::Amount;
use crate::transaction::{Transaction, TransactionType, TransactionView};

verus! {

broadcast use vstd::std_specs::hash::group_hash_axioms, crate::amount::lemma_amount_view_range;

/// Errors the engine can report for one record.
#[derive(Clone, Copy, Debug, PartialEq, Eq, Structural)]
pub enum TransactionError {
    /// The account refused the operation (locked, or funds short).
    Account(AccountError),
    /// A dispute referenced a transaction id that is not in the log.
    TransactionNotFound,
    /// A deposit or withdrawal came without an amount.
    TransactionAmountNotSpecified,
    /// The referenced transaction is already under dispute.
    DuplicateDispute,
    /// A resolve or chargeback referenced an id that is not under dispute.
    UnknownDispute,
    /// A deposit or withdrawal reused an id already in the log.
    DuplicateTransaction,
    /// Only deposits can be disputed; the referenced transaction is not one.
    ImpossibleDispute,
}

/// The mathematical state of the engine: the accounts by client number, the
/// log of deposits and withdrawals by transaction number, and the set of
/// open disputes.
#[verifier::ext_equal]
pub struct EngineView {
    pub accounts: Map<u16, AccountView>,
    pub log: Map<u32, TransactionView>,
    pub disputes: Set<u32>,
}

/// The account map a `HashMap` of accounts stands for.
pub open spec fn account_map_view(m: Map<u16, Account>) -> Map<u16, AccountView> {
    Map::new(|c: u16| m.contains_key(c), |c: u16| m[c]@)
}

/// The log a `HashMap` of transactions stands for.
pub open spec fn log_view(m: Map<u32, Transaction>) -> Map<u32, TransactionView> {
    Map::new(|t: u32| m.contains_key(t), |t: u32| m[t]@)
}

/// The state of a freshly created account for client `c`.
pub open spec fn empty_account_view(c: u16) -> AccountView {
    AccountView { id: c, available: 0, held: 0, locked: false }
}

/// `m` with the account of client `c` replaced by `a`.
pub open spec fn with_account_set(m: EngineView, c: u16, a: AccountView) -> EngineView {
    EngineView { accounts: m.accounts.insert(c, a), ..m }
}

/// Wraps an account-level outcome as an engine-level one.
pub open spec fn lift_account_result(r: Result<(), AccountError>) -> Result<
    (),
    TransactionError,
> {
    match r {
        Ok(_) => Ok(()),
        Err(e) => Err(TransactionError::Account(e)),
    }
}

impl EngineView {
    /// Well-formedness of the engine state:
    /// - every stored account is well formed and keyed by its own id;
    /// - the log holds only deposits and withdrawals, each keyed by its own
    ///   id;
    /// - every open dispute references a logged deposit that carries an
    ///   amount.
    pub open spec fn wf(self) -> bool {
        &&& forall|c: u16| #[trigger] self.accounts.contains_key(c) ==> {
            &&& self.accounts[c].inv()
            &&& self.accounts[c].id == c
        }
        &&& forall|t: u32| #[trigger] self.log.contains_key(t) ==> {
            &&& self.log[t].id == t
            &&& (self.log[t].transaction_type is Deposit || self.log[t].transaction_type
                is Withdrawal)
        }
        &&& forall|t: u32| #[trigger] self.disputes.contains(t) ==> {
            &&& self.log.contains_key(t)
            &&& self.log[t].transaction_type is Deposit
            &&& self.log[t].amount is Some
        }
    }

    /// The account of client `c`, or a fresh empty one where none exists yet.
    pub open spec fn account_or_new(self, c: u16) -> AccountView {
        if self.accounts.contains_key(c) {
            self.accounts[c]
        } else {
            empty_account_view(c)
        }
    }
}

/// Room for a deposit: where the record is a deposit carrying an amount, the
/// target account's total plus that amount must fit the fixed-point
/// representation. This is the one machine limit a caller must respect; no
/// other record kind can enlarge a balance.
pub open spec fn deposit_room(m: EngineView, t: TransactionView) -> bool {
    match t.amount {
        Some(amount) => t.transaction_type is Deposit ==> m.account_or_new(t.client).total()
            + amount <= u64::MAX,
        None => true,
    }
}

/// The exact outcome of applying one record `t` to the engine state `m`:
/// the state afterwards and the result handed back.
///
/// A deposit or withdrawal is first logged; a reused id is rejected outright
/// and changes nothing. Then the target account is found or lazily created —
/// also on records that go on to fail. Dispute checks run in order: unknown
/// id, non-deposit reference, already-open dispute, missing amount; a
/// dispute that then fails at the account keeps its place in the open set
/// (the marking is deliberately not rolled back). A resolve or chargeback of
/// an id not under dispute is rejected; a successful chargeback also removes
/// the referenced record from the log, so it can never be disputed again.
pub open spec fn engine_step(m: EngineView, t: TransactionView) -> (EngineView, Result<
    (),
    TransactionError,
>) {
    let cash = t.transaction_type is Deposit || t.transaction_type is Withdrawal;
    if cash && m.log.contains_key(t.id) {
        (m, Err(TransactionError::DuplicateTransaction))
    } else {
        let logged = if cash {
            EngineView { log: m.log.insert(t.id, t), ..m }
        } else {
            m
        };
        let held = EngineView {
            accounts: logged.accounts.insert(t.client, m.account_or_new(t.client)),
            ..logged
        };
        let a = m.account_or_new(t.client);
        match t.transaction_type {
            TransactionType::Deposit => match t.amount {
                None => (held, Err(TransactionError::TransactionAmountNotSpecified)),
                Some(amount) => {
                    let (a2, r) = deposit_tr(a, amount);
                    (with_account_set(held, t.client, a2), lift_account_result(r))
                },
            },
            TransactionType::Withdrawal => match t.amount {
                None => (held, Err(TransactionError::TransactionAmountNotSpecified)),
                Some(amount) => {
                    let (a2, r) = withdrawal_tr(a, amount);
                    (with_account_set(held, t.client, a2), lift_account_result(r))
                },
            },
            TransactionType::Dispute => {
                if !m.log.contains_key(t.id) {
                    (held, Err(TransactionError::TransactionNotFound))
                } else if !(m.log[t.id].transaction_type is Deposit) {
                    (held, Err(TransactionError::ImpossibleDispute))
                } else if m.disputes.contains(t.id) {
                    (held, Err(TransactionError::DuplicateDispute))
                } else {
                    match m.log[t.id].amount {
                        None => (held, Err(TransactionError::TransactionAmountNotSpecified)),
                        Some(amount) => {
                            let opened = EngineView {
                                disputes: held.disputes.insert(t.id),
                                ..held
                            };
                            let (a2, r) = hold_back_tr(a, amount);
                            (with_account_set(opened, t.client, a2), lift_account_result(r))
                        },
                    }
                }
            },
            TransactionType::Resolve => {
                if !m.disputes.contains(t.id) {
                    (held, Err(TransactionError::UnknownDispute))
                } else {
                    let closed_dispute = EngineView {
                        disputes: held.disputes.remove(t.id),
                        ..held
                    };
                    match m.log[t.id].amount {
                        None => (closed_dispute, Err(
                            TransactionError::TransactionAmountNotSpecified,
                        )),
                        Some(amount) => {
                            let (a2, r) = set_free_tr(a, amount);
                            (
                                with_account_set(closed_dispute, t.client, a2),
                                lift_account_result(r),
                            )
                        },
                    }
                }
            },
            TransactionType::Chargeback => {
                if !m.disputes.contains(t.id) {
                    (held, Err(TransactionError::UnknownDispute))
                } else {
                    let closed_dispute = EngineView {
                        disputes: held.disputes.remove(t.id),
                        ..held
                    };
                    match m.log[t.id].amount {
                        None => (closed_dispute, Err(
                            TransactionError::TransactionAmountNotSpecified,
                        )),
                        Some(amount) => {
                            let (a2, r) = charge_back_tr(a, amount);
                            if r is Ok {
                                (
                                    EngineView {
                                        accounts: closed_dispute.accounts.insert(t.client, a2),
                                        log: closed_dispute.log.remove(t.id),
                                        ..closed_dispute
                                    },
                                    Ok(()),
                                )
                            } else {
                                (
                                    with_account_set(closed_dispute, t.client, a2),
                                    lift_account_result(r),
                                )
                            }
                        },
                    }
                }
            },
        }
    }
}

/// Whether the account of client `c` exists and is locked.
pub open spec fn client_locked(m: EngineView, c: u16) -> bool {
    m.accounts.contains_key(c) && m.accounts[c].locked
}

/// Law: a chargeback record that succeeds always leaves the client's account
/// locked, and one that fails never locks it — the lock state stays what it
/// was (an account lazily created by the failing record starts unlocked).
pub proof fn lemma_chargeback_locks_exactly_on_success(m: EngineView, t: TransactionView)
    requires
        t.transaction_type is Chargeback,
    ensures
        engine_step(m, t).1 is Ok ==> client_locked(engine_step(m, t).0, t.client),
        engine_step(m, t).1 is Err ==> client_locked(engine_step(m, t).0, t.client)
            == client_locked(m, t.client),
{
}

/// Law: a deposit or withdrawal addressed to a locked account — one whose id
/// is fresh and that carries an amount, so nothing else rejects it first —
/// returns the account error `Locked` and leaves the account unchanged.
pub proof fn lemma_locked_account_rejects_cash(m: EngineView, t: TransactionView)
    requires
        t.transaction_type is Deposit || t.transaction_type is Withdrawal,
        !m.log.contains_key(t.id),
        t.amount is Some,
        client_locked(m, t.client),
    ensures
        engine_step(m, t).1 == Err::<(), TransactionError>(
            TransactionError::Account(AccountError::Locked),
        ),
        engine_step(m, t).0.accounts[t.client] == m.accounts[t.client],
{
}

/// Law: a second dispute of the same transaction id, right after a first one
/// that marked the dispute open (it either succeeded or failed only at the
/// account, whose refusal does not roll the marking back), is rejected as a
/// duplicate and leaves the log and the open disputes unchanged.
pub proof fn lemma_second_dispute_is_duplicate(m: EngineView, t: TransactionView)
    requires
        t.transaction_type is Dispute,
        engine_step(m, t).1 is Ok || engine_step(m, t).1 matches Err(
            TransactionError::Account(_),
        ),
    ensures
        engine_step(engine_step(m, t).0, t).1 == Err::<(), TransactionError>(
            TransactionError::DuplicateDispute,
        ),
        engine_step(engine_step(m, t).0, t).0.log == engine_step(m, t).0.log,
        engine_step(engine_step(m, t).0, t).0.disputes == engine_step(m, t).0.disputes,
{
}

/// Law: resolving or charging back a transaction id that is not under
/// dispute fails with `UnknownDispute`; the log and the open disputes are
/// untouched and no funds move — at most the client's account is lazily
/// created empty.
pub proof fn lemma_undisputed_close_rejected(m: EngineView, t: TransactionView)
    requires
        t.transaction_type is Resolve || t.transaction_type is Chargeback,
        !m.disputes.contains(t.id),
    ensures
        engine_step(m, t).1 == Err::<(), TransactionError>(TransactionError::UnknownDispute),
        engine_step(m, t).0.log == m.log,
        engine_step(m, t).0.disputes == m.disputes,
        engine_step(m, t).0.accounts == m.accounts.insert(t.client, m.account_or_new(t.client)),
{
}

/// Law: disputing a logged transaction that is not a deposit — a withdrawal
/// — is rejected as impossible, and nothing changes but the lazy creation of
/// the client's account.
pub proof fn lemma_withdrawal_dispute_impossible(m: EngineView, t: TransactionView)
    requires
        t.transaction_type is Dispute,
        m.log.contains_key(t.id),
        m.log[t.id].transaction_type is Withdrawal,
    ensures
        engine_step(m, t).1 == Err::<(), TransactionError>(TransactionError::ImpossibleDispute),
        engine_step(m, t).0.log == m.log,
        engine_step(m, t).0.disputes == m.disputes,
        engine_step(m, t).0.accounts == m.accounts.insert(t.client, m.account_or_new(t.client)),
{
}

/// The central transaction engine holding all accounts, the transaction log
/// and the open disputes. Accounts are created lazily when a record first
/// references their client.
pub struct TransactionEngine {
    accounts: HashMap<u16, Account>,
    transactions: HashMap<u32, Transaction>,
    disputes: HashSet<u32>,
}

impl View for TransactionEngine {
    type V = EngineView;

    closed spec fn view(&self) -> EngineView {
        EngineView {
            accounts: account_map_view(self.accounts@),
            log: log_view(self.transactions@),
            disputes: self.disputes@,
        }
    }
}

impl Default for TransactionEngine {
    /// An empty engine, the same as [`TransactionEngine::new`] builds.
    fn default() -> (r: TransactionEngine)
        ensures
            r@.accounts == Map::<u16, AccountView>::empty(),
            r@.log == Map::<u32, TransactionView>::empty(),
            r@.disputes == Set::<u32>::empty(),
            r@.wf(),
    {
        TransactionEngine::new()
    }
}

impl TransactionEngine {
    /// Creates a new, empty transaction engine.
    pub fn new() -> (r: TransactionEngine)
        ensures
            r@.accounts == Map::<u16, AccountView>::empty(),
            r@.log == Map::<u32, TransactionView>::empty(),
            r@.disputes == Set::<u32>::empty(),
            r@.wf(),
    {
        let r = TransactionEngine {
            accounts: HashMap::new(),
            transactions: HashMap::new(),
            disputes: HashSet::new(),
        };
        proof {
            assert(r@.accounts =~= Map::<u16, AccountView>::empty());
            assert(r@.log =~= Map::<u32, TransactionView>::empty());
        }
        r
    }

    /// The map of all current accounts, keyed by client number.
    pub fn accounts(&self) -> (r: &HashMap<u16, Account>)
        ensures
            account_map_view(r@) == self@.accounts,
    {
        &self.accounts
    }

    /// Processes one transaction record and applies its effects.
    ///
    /// The outcome — new engine state and result — is exactly
    /// [`engine_step`] of the old state and the record. The one demand on
    /// the caller beyond a well-formed engine is [`deposit_room`]: a deposit
    /// may not push the target account's total over the representable
    /// maximum.
    pub fn handle_transaction(&mut self, transaction: Transaction) -> (result: Result<
        (),
        TransactionError,
    >)
        requires
            old(self)@.wf(),
            deposit_room(old(self)@, transaction@),
        ensures
            final(self)@ == engine_step(old(self)@, transaction@).0,
            result == engine_step(old(self)@, transaction@).1,
            final(self)@.wf(),
    {
        let ghost m0 = self@;
        let ghost tv = transaction@;
        let tid: u32 = transaction.id().value();
        let client: u16 = transaction.client().value();
        let ttype = transaction.transaction_type();
        let cash = matches!(ttype, TransactionType::Deposit | TransactionType::Withdrawal);

        if cash {
            if self.transactions.contains_key(&tid) {
                return Err(TransactionError::DuplicateTransaction);
            }
            self.transactions.insert(tid, transaction);
        }

        let mut account = match self.accounts.remove(&client) {
            Some(a) => a,
            None => Account::new(AccountId::new(client)),
        };

        let result: Result<(), TransactionError> = match ttype {
            TransactionType::Deposit => match transaction.amount() {
                None => Err(TransactionError::TransactionAmountNotSpecified),
                Some(amount) => match account.deposit(amount) {
                    Ok(_) => Ok(()),
                    Err(e) => Err(TransactionError::Account(e)),
                },
            },
            TransactionType::Withdrawal => match transaction.amount() {
                None => Err(TransactionError::TransactionAmountNotSpecified),
                Some(amount) => match account.withdrawal(amount) {
                    Ok(_) => Ok(()),
                    Err(e) => Err(TransactionError::Account(e)),
                },
            },
            TransactionType::Dispute => {
                let referenced: Option<(TransactionType, Option<Amount>)> =
                    match self.transactions.get(&tid) {
                    Some(t) => Some((t.transaction_type(), t.amount())),
                    None => None,
                };
                match referenced {
                    None => Err(TransactionError::TransactionNotFound),
                    Some((rtype, ramount)) => {
                        if !matches!(rtype, TransactionType::Deposit) {
                            Err(TransactionError::ImpossibleDispute)
                        } else if self.disputes.contains(&tid) {
                            Err(TransactionError::DuplicateDispute)
                        } else {
                            match ramount {
                                None => Err(TransactionError::TransactionAmountNotSpecified),
                                Some(amount) => {
                                    self.disputes.insert(tid);
                                    match account.hold_back(amount) {
                                        Ok(_) => Ok(()),
                                        Err(e) => Err(TransactionError::Account(e)),
                                    }
                                },
                            }
                        }
                    },
                }
            },
            TransactionType::Resolve => {
                if !self.disputes.contains(&tid) {
                    Err(TransactionError::UnknownDispute)
                } else {
                    self.disputes.remove(&tid);
                    let referenced: Option<Option<Amount>> = match self.transactions.get(&tid) {
                        Some(t) => Some(t.amount()),
                        None => None,
                    };
                    match referenced {
                        None => Err(TransactionError::TransactionNotFound),
                        Some(None) => Err(TransactionError::TransactionAmountNotSpecified),
                        Some(Some(amount)) => match account.set_free(amount) {
                            Ok(_) => Ok(()),
                            Err(e) => Err(TransactionError::Account(e)),
                        },
                    }
                }
            },
            TransactionType::Chargeback => {
                if !self.disputes.contains(&tid) {
                    Err(TransactionError::UnknownDispute)
                } else {
                    self.disputes.remove(&tid);
                    let referenced: Option<Option<Amount>> = match self.transactions.get(&tid) {
                        Some(t) => Some(t.amount()),
                        None => None,
                    };
                    match referenced {
                        None => Err(TransactionError::TransactionNotFound),
                        Some(None) => Err(TransactionError::TransactionAmountNotSpecified),
                        Some(Some(amount)) => match account.charge_back(amount) {
                            Ok(_) => {
                                self.transactions.remove(&tid);
                                Ok(())
                            },
                            Err(e) => Err(TransactionError::Account(e)),
                        },
                    }
                }
            },
        };
        self.accounts.insert(client, account);
        proof {
            assert(self@ =~= engine_step(m0, tv).0);
        }
        result
    }
}

} // verus!
