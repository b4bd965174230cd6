//! Transaction records.
//!
//! A record is an immutable description of one requested operation: its
//! identifier, its type, the client it addresses, and — for deposits and
//! withdrawals — the amount moved. Dispute, resolve and chargeback records
//! carry no amount of their own; their identifier references the prior
//! deposit or withdrawal they speak of.

use vstd::prelude::*;

use crate::account::AccountId;
use crate::amount::Amount;

verus! {

/// The unique identifier of a deposit or withdrawal, and the key under which
/// a later dispute references it.
#[derive(Clone, Copy, Debug, PartialEq, Eq, Hash, Structural)]
pub struct TransactionId {
    value: u32,
}

impl View for TransactionId {
    type V = u32;

    closed spec fn view(&self) -> u32 {
        self.value
    }
}

impl TransactionId {
    /// Wraps a transaction number as an identifier.
    pub fn new(value: u32) -> (r: TransactionId)
        ensures
            r@ == value,
    {
        TransactionId { value }
    }

    /// The transaction number this identifier wraps.
    pub fn value(&self) -> (r: u32)
        ensures
            r == self@,
    {
        self.value
    }
}

/// The closed set of operations the engine understands.
#[derive(Clone, Copy, Debug, PartialEq, Eq, Structural)]
pub enum TransactionType {
    /// A credit to the client's available funds.
    Deposit,
    /// A debit from the client's available funds.
    Withdrawal,
    /// A claim that a prior deposit was erroneous; freezes its amount.
    Dispute,
    /// Closes a dispute in the client's favour, releasing the held funds.
    Resolve,
    /// Closes a dispute against the client, removing the held funds and
    /// locking the account.
    Chargeback,
}

/// The mathematical content of a record: plain numbers for the identifiers
/// and the optional amount in raw fractional units.
pub struct TransactionView {
    pub id: u32,
    pub transaction_type: TransactionType,
    pub client: u16,
    pub amount: Option<int>,
}

/// One requested operation, created once from input and never mutated.
#[derive(Clone, Copy, Debug)]
pub struct Transaction {
    id: TransactionId,
    transaction_type: TransactionType,
    client: AccountId,
    amount: Option<Amount>,
}

impl View for Transaction {
    type V = TransactionView;

    closed spec fn view(&self) -> TransactionView {
        TransactionView {
            id: self.id@,
            transaction_type: self.transaction_type,
            client: self.client@,
            amount: match self.amount {
                Some(a) => Some(a@),
                None => None,
            },
        }
    }
}

impl Transaction {
    /// Builds a record from its four fields. The amount should be present
    /// exactly for deposits and withdrawals; the engine checks this again and
    /// rejects records that lack a needed amount.
    pub fn new(
        id: TransactionId,
        transaction_type: TransactionType,
        client: AccountId,
        amount: Option<Amount>,
    ) -> (r: Transaction)
        ensures
            r@.id == id@,
            r@.transaction_type == transaction_type,
            r@.client == client@,
            r@.amount == (match amount {
                Some(a) => Some(a@),
                None => None,
            }),
    {
        Transaction { id, transaction_type, client, amount }
    }

    /// The unique id of the transaction (the referenced id, for dispute,
    /// resolve and chargeback records).
    pub fn id(&self) -> (r: TransactionId)
        ensures
            r@ == self@.id,
    {
        self.id
    }

    /// The type of the transaction.
    pub fn transaction_type(&self) -> (r: TransactionType)
        ensures
            r == self@.transaction_type,
    {
        self.transaction_type
    }

    /// The account this transaction addresses.
    pub fn client(&self) -> (r: AccountId)
        ensures
            r@ == self@.client,
    {
        self.client
    }

    /// The amount moved; populated only for deposits and withdrawals.
    pub fn amount(&self) -> (r: Option<Amount>)
        ensures
            r matches Some(a) ==> self@.amount == Some(a@),
            r is None ==> self@.amount is None,
    {
        self.amount
    }
}

} // verus!
