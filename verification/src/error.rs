//! Why a record was refused.

use crate::models::{ClientId, OperationType, TransactionId};
use vstd::prelude::*;

verus! {

/// The reason one record was not applied. A refused record changes nothing
/// in its account, and the records after it are processed as usual.
#[derive(Debug, Clone, Copy, PartialEq, Eq, Structural)]
pub enum ProcessingError {
    /// A deposit or withdrawal of an amount below zero.
    NegativeAmount,
    /// A balance would have grown past what an amount can hold.
    Overflow(TransactionId),
    /// A balance would have fallen below what an amount can hold.
    Underflow(TransactionId),
    /// The account already holds a deposit or withdrawal with this id.
    DuplicatedTransaction(TransactionId, ClientId),
    /// The referenced transaction is under dispute already. Carries the
    /// record's id, the referenced transaction's id and the client.
    DuplicatedDispute(TransactionId, TransactionId, ClientId),
    /// The account is locked and takes no further record.
    AccountLocked(ClientId),
    /// A record that needs an amount came without one.
    MissingAmount(TransactionId),
    /// A withdrawal of more than the account has available.
    InsufficientFounds(TransactionId, ClientId),
    /// The account holds no transaction with the referenced id.
    MissingTransaction(TransactionId),
    /// The referenced transaction is neither a deposit nor a withdrawal.
    InvalidOperationUnderDispute(OperationType, TransactionId),
    /// A resolve of a transaction that is not under dispute.
    IncorrectResolve(OperationType, TransactionId),
    /// A chargeback of a transaction that is not under dispute.
    IncorrectChargeback(OperationType, TransactionId),
}

} // verus!
