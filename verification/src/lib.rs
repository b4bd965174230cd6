//! A verified transaction-processing core: fixed-point amounts, per-client
//! accounts with available/held sub-balances and an irreversible lock, and an
//! engine that applies deposit, withdrawal, dispute, resolve and chargeback
//! records under the dispute-lifecycle rules.

pub use crate::account::{Account, AccountError, AccountId};
pub use crate::amount::{Amount, AMOUNT_SCALE};
pub use crate::engine::{TransactionEngine, TransactionError};
pub use crate::transaction::{Transaction, TransactionId, TransactionType};

mod account;
mod amount;
mod engine;
mod transaction;
