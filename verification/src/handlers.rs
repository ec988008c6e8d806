//! The five operations on one account.
//!
//! Each operation comes in three layers. A spec function (`*_outcome`) says
//! what the operation makes of an account and a record: the new account, or
//! the reason for refusing the record. A handler (`operation_*`) checks the
//! record, has `rust_decimal` compute the new balances and hands them to a
//! commit function (`commit_*`), which decides between success and the
//! arithmetic errors and writes the account. A refused record leaves the
//! account exactly as it was.

use crate::amount::{decimal_checked_add, decimal_checked_sub, Amount};
use crate::error::ProcessingError;
use crate::models::{AccountData, AccountView, OperationType, Transaction};
use vstd::prelude::*;
use vstd::std_specs::hash::group_hash_axioms;

verus! {

broadcast use group_hash_axioms;

/// Whether an account moved as `outcome` says: on `Ok` the call succeeded and
/// the account's view is the new one, on `Err` the call returned that error
/// and the account is untouched.
pub open spec fn settles(
    before: AccountData,
    after: AccountData,
    result: Result<(), ProcessingError>,
    outcome: Result<AccountView, ProcessingError>,
) -> bool {
    match outcome {
        Ok(view) => result == Ok::<(), ProcessingError>(()) && after@ == view,
        Err(e) => result == Err::<(), ProcessingError>(e) && after == before,
    }
}

/// Why a deposit or withdrawal is refused before any arithmetic: its id is
/// taken, it has no amount, or its amount is below zero, in that order.
pub open spec fn entry_rejection(account: AccountView, record: Transaction) -> Option<
    ProcessingError,
> {
    if account.transactions.contains_key(record.id) {
        Some(ProcessingError::DuplicatedTransaction(record.id, record.client_id))
    } else if record.amount is None {
        Some(ProcessingError::MissingAmount(record.id))
    } else if record.amount->0.is_negative() {
        Some(ProcessingError::NegativeAmount)
    } else {
        None
    }
}

/// A deposit, given the new available balance that the addition gave.
pub open spec fn deposit_commit(
    account: AccountView,
    record: Transaction,
    available: Option<Amount>,
) -> Result<AccountView, ProcessingError> {
    match available {
        None => Err(ProcessingError::Overflow(record.id)),
        Some(sum) => Ok(
            AccountView {
                available: sum,
                transactions: account.transactions.insert(record.id, record),
                ..account
            },
        ),
    }
}

/// What a deposit makes of an account.
pub open spec fn deposit_outcome(account: AccountView, record: Transaction) -> Result<
    AccountView,
    ProcessingError,
> {
    match entry_rejection(account, record) {
        Some(e) => Err(e),
        None => deposit_commit(
            account,
            record,
            decimal_checked_add(account.available, record.amount->0),
        ),
    }
}

/// A withdrawal, given the new available balance that the subtraction gave.
pub open spec fn withdrawal_commit(
    account: AccountView,
    record: Transaction,
    available: Option<Amount>,
) -> Result<AccountView, ProcessingError> {
    match available {
        None => Err(ProcessingError::Underflow(record.id)),
        Some(rest) => Ok(
            AccountView {
                available: rest,
                transactions: account.transactions.insert(record.id, record),
                ..account
            },
        ),
    }
}

/// What a withdrawal makes of an account.
pub open spec fn withdrawal_outcome(account: AccountView, record: Transaction) -> Result<
    AccountView,
    ProcessingError,
> {
    match entry_rejection(account, record) {
        Some(e) => Err(e),
        None => if account.available.units() < record.amount->0.units() {
            Err(ProcessingError::InsufficientFounds(record.id, record.client_id))
        } else {
            withdrawal_commit(
                account,
                record,
                decimal_checked_sub(account.available, record.amount->0),
            )
        },
    }
}

/// A dispute of `stored`, given the lowered available balance and the raised
/// held balance. A disputed deposit moves its amount from available to held;
/// a disputed withdrawal only raises held.
pub open spec fn dispute_commit(
    account: AccountView,
    record: Transaction,
    stored: Transaction,
    available: Option<Amount>,
    held: Option<Amount>,
) -> Result<AccountView, ProcessingError> {
    match stored.operation {
        OperationType::Deposit => match (available, held) {
            (None, _) => Err(ProcessingError::Underflow(record.id)),
            (Some(_), None) => Err(ProcessingError::Overflow(record.id)),
            (Some(a), Some(h)) => Ok(
                AccountView {
                    available: a,
                    held: h,
                    under_dispute: account.under_dispute.insert(stored.id),
                    ..account
                },
            ),
        },
        OperationType::Withdrawal => match held {
            None => Err(ProcessingError::Overflow(record.id)),
            Some(h) => Ok(
                AccountView {
                    held: h,
                    under_dispute: account.under_dispute.insert(stored.id),
                    ..account
                },
            ),
        },
        _ => Err(ProcessingError::InvalidOperationUnderDispute(record.operation, record.id)),
    }
}

/// What a dispute makes of an account.
pub open spec fn dispute_outcome(account: AccountView, record: Transaction) -> Result<
    AccountView,
    ProcessingError,
> {
    if !account.transactions.contains_key(record.id) {
        Err(ProcessingError::MissingTransaction(record.id))
    } else {
        let stored = account.transactions[record.id];
        if account.under_dispute.contains(stored.id) {
            Err(ProcessingError::DuplicatedDispute(record.id, stored.id, record.client_id))
        } else if stored.amount is None {
            Err(ProcessingError::MissingAmount(record.id))
        } else {
            dispute_commit(
                account,
                record,
                stored,
                decimal_checked_sub(account.available, stored.amount->0),
                decimal_checked_add(account.held, stored.amount->0),
            )
        }
    }
}

/// A resolve of `stored`, given the raised available balance and the lowered
/// held balance. The amount goes back from held to available, whichever kind
/// of transaction was disputed.
pub open spec fn resolve_commit(
    account: AccountView,
    record: Transaction,
    stored: Transaction,
    available: Option<Amount>,
    held: Option<Amount>,
) -> Result<AccountView, ProcessingError> {
    match stored.operation {
        OperationType::Deposit | OperationType::Withdrawal => match (available, held) {
            (None, _) => Err(ProcessingError::Overflow(record.id)),
            (Some(_), None) => Err(ProcessingError::Underflow(record.id)),
            (Some(a), Some(h)) => Ok(
                AccountView {
                    available: a,
                    held: h,
                    under_dispute: account.under_dispute.remove(stored.id),
                    ..account
                },
            ),
        },
        _ => Err(ProcessingError::InvalidOperationUnderDispute(record.operation, record.id)),
    }
}

/// What a resolve makes of an account.
pub open spec fn resolve_outcome(account: AccountView, record: Transaction) -> Result<
    AccountView,
    ProcessingError,
> {
    if !account.transactions.contains_key(record.id) {
        Err(ProcessingError::MissingTransaction(record.id))
    } else {
        let stored = account.transactions[record.id];
        if !account.under_dispute.contains(stored.id) {
            Err(ProcessingError::IncorrectResolve(record.operation, record.id))
        } else if stored.amount is None {
            Err(ProcessingError::MissingAmount(record.id))
        } else {
            resolve_commit(
                account,
                record,
                stored,
                decimal_checked_add(account.available, stored.amount->0),
                decimal_checked_sub(account.held, stored.amount->0),
            )
        }
    }
}

/// A chargeback of `stored`, given the lowered held balance. The held amount
/// leaves the account and the account is locked.
pub open spec fn chargeback_commit(
    account: AccountView,
    record: Transaction,
    stored: Transaction,
    held: Option<Amount>,
) -> Result<AccountView, ProcessingError> {
    match stored.operation {
        OperationType::Deposit | OperationType::Withdrawal => match held {
            None => Err(ProcessingError::Underflow(record.id)),
            Some(h) => Ok(
                AccountView {
                    held: h,
                    under_dispute: account.under_dispute.remove(stored.id),
                    locked: true,
                    ..account
                },
            ),
        },
        _ => Err(ProcessingError::InvalidOperationUnderDispute(record.operation, record.id)),
    }
}

/// What a chargeback makes of an account.
pub open spec fn chargeback_outcome(account: AccountView, record: Transaction) -> Result<
    AccountView,
    ProcessingError,
> {
    if !account.transactions.contains_key(record.id) {
        Err(ProcessingError::MissingTransaction(record.id))
    } else {
        let stored = account.transactions[record.id];
        if !account.under_dispute.contains(stored.id) {
            Err(ProcessingError::IncorrectChargeback(record.operation, record.id))
        } else if stored.amount is None {
            Err(ProcessingError::MissingAmount(record.id))
        } else {
            chargeback_commit(
                account,
                record,
                stored,
                decimal_checked_sub(account.held, stored.amount->0),
            )
        }
    }
}

/// What the operation named by the record's kind makes of an account.
pub open spec fn operation_outcome(account: AccountView, record: Transaction) -> Result<
    AccountView,
    ProcessingError,
> {
    match record.operation {
        OperationType::Deposit => deposit_outcome(account, record),
        OperationType::Withdrawal => withdrawal_outcome(account, record),
        OperationType::Dispute => dispute_outcome(account, record),
        OperationType::Resolve => resolve_outcome(account, record),
        OperationType::Chargeback => chargeback_outcome(account, record),
    }
}

/// Finishes a deposit: stores the record and takes `available` as the new
/// balance, or refuses with `Overflow` where the addition gave none.
pub fn commit_deposit(
    account: &mut AccountData,
    transaction: Transaction,
    available: Option<Amount>,
) -> (r: Result<(), ProcessingError>)
    ensures
        settles(
            *old(account),
            *final(account),
            r,
            deposit_commit(old(account)@, transaction, available),
        ),
{
    match available {
        None => Err(ProcessingError::Overflow(transaction.id)),
        Some(sum) => {
            account.available = sum;
            account.transactions.insert(transaction.id, transaction);
            Ok(())
        },
    }
}

/// Adds the record's amount to the available balance and stores the record.
///
/// Refused, in this order: an id the account already holds, a record without
/// an amount, an amount below zero, a sum that overflows.
pub fn operation_deposit(account: &mut AccountData, transaction: Transaction) -> (r: Result<
    (),
    ProcessingError,
>)
    ensures
        settles(*old(account), *final(account), r, deposit_outcome(old(account)@, transaction)),
        old(account).transactions@.contains_key(transaction.id) ==> r == Err::<
            (),
            ProcessingError,
        >(ProcessingError::DuplicatedTransaction(transaction.id, transaction.client_id)),
        r is Ok ==> final(account).transactions@.contains_key(transaction.id),
        r is Err ==> *final(account) == *old(account),
        final(account).locked == old(account).locked,
{
    if account.transactions.contains_key(&transaction.id) {
        return Err(
            ProcessingError::DuplicatedTransaction(transaction.id, transaction.client_id),
        );
    }
    let amount = match transaction.amount {
        Some(amount) => amount,
        None => {
            return Err(ProcessingError::MissingAmount(transaction.id));
        },
    };
    if amount.below_zero() {
        return Err(ProcessingError::NegativeAmount);
    }
    let available = account.available.checked_add(amount);
    commit_deposit(account, transaction, available)
}

/// Finishes a withdrawal: stores the record and takes `available` as the new
/// balance, or refuses with `Underflow` where the subtraction gave none.
pub fn commit_withdrawal(
    account: &mut AccountData,
    transaction: Transaction,
    available: Option<Amount>,
) -> (r: Result<(), ProcessingError>)
    ensures
        settles(
            *old(account),
            *final(account),
            r,
            withdrawal_commit(old(account)@, transaction, available),
        ),
{
    match available {
        None => Err(ProcessingError::Underflow(transaction.id)),
        Some(rest) => {
            account.available = rest;
            account.transactions.insert(transaction.id, transaction);
            Ok(())
        },
    }
}

/// Takes the record's amount from the available balance and stores the
/// record.
///
/// Refused, in this order: an id the account already holds, a record without
/// an amount, an amount below zero, an amount above the available balance, a
/// difference that overflows.
pub fn operation_withdraw(account: &mut AccountData, transaction: Transaction) -> (r: Result<
    (),
    ProcessingError,
>)
    ensures
        settles(
            *old(account),
            *final(account),
            r,
            withdrawal_outcome(old(account)@, transaction),
        ),
        old(account).transactions@.contains_key(transaction.id) ==> r == Err::<
            (),
            ProcessingError,
        >(ProcessingError::DuplicatedTransaction(transaction.id, transaction.client_id)),
        r is Ok ==> final(account).transactions@.contains_key(transaction.id),
        r is Err ==> *final(account) == *old(account),
        final(account).locked == old(account).locked,
{
    if account.transactions.contains_key(&transaction.id) {
        return Err(
            ProcessingError::DuplicatedTransaction(transaction.id, transaction.client_id),
        );
    }
    let amount = match transaction.amount {
        Some(amount) => amount,
        None => {
            return Err(ProcessingError::MissingAmount(transaction.id));
        },
    };
    if amount.below_zero() {
        return Err(ProcessingError::NegativeAmount);
    }
    if account.available.less_than(amount) {
        return Err(ProcessingError::InsufficientFounds(transaction.id, transaction.client_id));
    }
    let available = account.available.checked_sub(amount);
    commit_withdrawal(account, transaction, available)
}

/// Finishes a dispute of `stored`: takes the new balances and marks the
/// transaction as disputed, or refuses where a balance is missing or
/// `stored` is neither a deposit nor a withdrawal.
pub fn commit_dispute(
    account: &mut AccountData,
    transaction: Transaction,
    stored: Transaction,
    available: Option<Amount>,
    held: Option<Amount>,
) -> (r: Result<(), ProcessingError>)
    ensures
        settles(
            *old(account),
            *final(account),
            r,
            dispute_commit(old(account)@, transaction, stored, available, held),
        ),
{
    match stored.operation {
        OperationType::Deposit => {
            let new_available = match available {
                Some(a) => a,
                None => {
                    return Err(ProcessingError::Underflow(transaction.id));
                },
            };
            let new_held = match held {
                Some(h) => h,
                None => {
                    return Err(ProcessingError::Overflow(transaction.id));
                },
            };
            account.available = new_available;
            account.held = new_held;
        },
        OperationType::Withdrawal => {
            let new_held = match held {
                Some(h) => h,
                None => {
                    return Err(ProcessingError::Overflow(transaction.id));
                },
            };
            account.held = new_held;
        },
        _ => {
            return Err(
                ProcessingError::InvalidOperationUnderDispute(
                    transaction.operation,
                    transaction.id,
                ),
            );
        },
    }
    account.under_dispute.insert(stored.id);
    Ok(())
}

/// Puts the referenced transaction under dispute and holds its amount.
///
/// Refused, in this order: an id the account does not hold, a transaction
/// that is disputed already, a stored transaction without an amount, then
/// what [`commit_dispute`] refuses.
pub fn operation_dispute(account: &mut AccountData, transaction: Transaction) -> (r: Result<
    (),
    ProcessingError,
>)
    ensures
        settles(*old(account), *final(account), r, dispute_outcome(old(account)@, transaction)),
        !old(account).transactions@.contains_key(transaction.id) ==> r == Err::<
            (),
            ProcessingError,
        >(ProcessingError::MissingTransaction(transaction.id)),
        r is Ok ==> final(account).under_dispute@.contains(
            old(account).transactions@[transaction.id].id,
        ),
        r is Err ==> *final(account) == *old(account),
        final(account).locked == old(account).locked,
{
    let stored = match account.transactions.get(&transaction.id) {
        Some(stored) => *stored,
        None => {
            return Err(ProcessingError::MissingTransaction(transaction.id));
        },
    };
    if account.under_dispute.contains(&stored.id) {
        return Err(
            ProcessingError::DuplicatedDispute(transaction.id, stored.id, transaction.client_id),
        );
    }
    let amount = match stored.amount {
        Some(amount) => amount,
        None => {
            return Err(ProcessingError::MissingAmount(transaction.id));
        },
    };
    let available = account.available.checked_sub(amount);
    let held = account.held.checked_add(amount);
    commit_dispute(account, transaction, stored, available, held)
}

/// Finishes a resolve of `stored`: takes the new balances and ends the
/// dispute, or refuses where a balance is missing or `stored` is neither a
/// deposit nor a withdrawal.
pub fn commit_resolve(
    account: &mut AccountData,
    transaction: Transaction,
    stored: Transaction,
    available: Option<Amount>,
    held: Option<Amount>,
) -> (r: Result<(), ProcessingError>)
    ensures
        settles(
            *old(account),
            *final(account),
            r,
            resolve_commit(old(account)@, transaction, stored, available, held),
        ),
{
    match stored.operation {
        OperationType::Deposit | OperationType::Withdrawal => {
            let new_available = match available {
                Some(a) => a,
                None => {
                    return Err(ProcessingError::Overflow(transaction.id));
                },
            };
            let new_held = match held {
                Some(h) => h,
                None => {
                    return Err(ProcessingError::Underflow(transaction.id));
                },
            };
            account.available = new_available;
            account.held = new_held;
        },
        _ => {
            return Err(
                ProcessingError::InvalidOperationUnderDispute(
                    transaction.operation,
                    transaction.id,
                ),
            );
        },
    }
    account.under_dispute.remove(&stored.id);
    Ok(())
}

/// Ends the dispute of the referenced transaction and releases its amount
/// from held to available.
///
/// Refused, in this order: an id the account does not hold, a transaction
/// that is not under dispute, a stored transaction without an amount, then
/// what [`commit_resolve`] refuses.
pub fn operation_resolve(account: &mut AccountData, transaction: Transaction) -> (r: Result<
    (),
    ProcessingError,
>)
    ensures
        settles(*old(account), *final(account), r, resolve_outcome(old(account)@, transaction)),
        !old(account).transactions@.contains_key(transaction.id) ==> r == Err::<
            (),
            ProcessingError,
        >(ProcessingError::MissingTransaction(transaction.id)),
        old(account).transactions@.contains_key(transaction.id) && !old(
            account,
        ).under_dispute@.contains(old(account).transactions@[transaction.id].id) ==> r == Err::<
            (),
            ProcessingError,
        >(ProcessingError::IncorrectResolve(transaction.operation, transaction.id)),
        r is Ok ==> !final(account).under_dispute@.contains(
            old(account).transactions@[transaction.id].id,
        ),
        r is Err ==> *final(account) == *old(account),
        final(account).locked == old(account).locked,
{
    let stored = match account.transactions.get(&transaction.id) {
        Some(stored) => *stored,
        None => {
            return Err(ProcessingError::MissingTransaction(transaction.id));
        },
    };
    if !account.under_dispute.contains(&stored.id) {
        return Err(ProcessingError::IncorrectResolve(transaction.operation, transaction.id));
    }
    let amount = match stored.amount {
        Some(amount) => amount,
        None => {
            return Err(ProcessingError::MissingAmount(transaction.id));
        },
    };
    let available = account.available.checked_add(amount);
    let held = account.held.checked_sub(amount);
    commit_resolve(account, transaction, stored, available, held)
}

/// Finishes a chargeback of `stored`: takes the new held balance, ends the
/// dispute and locks the account, or refuses where the balance is missing or
/// `stored` is neither a deposit nor a withdrawal.
pub fn commit_chargeback(
    account: &mut AccountData,
    transaction: Transaction,
    stored: Transaction,
    held: Option<Amount>,
) -> (r: Result<(), ProcessingError>)
    ensures
        settles(
            *old(account),
            *final(account),
            r,
            chargeback_commit(old(account)@, transaction, stored, held),
        ),
{
    match stored.operation {
        OperationType::Deposit | OperationType::Withdrawal => {
            let new_held = match held {
                Some(h) => h,
                None => {
                    return Err(ProcessingError::Underflow(transaction.id));
                },
            };
            account.held = new_held;
        },
        _ => {
            return Err(
                ProcessingError::InvalidOperationUnderDispute(
                    transaction.operation,
                    transaction.id,
                ),
            );
        },
    }
    account.under_dispute.remove(&stored.id);
    account.locked = true;
    Ok(())
}

/// Ends the dispute of the referenced transaction against the client: its
/// amount leaves the held balance and the account is locked for good.
///
/// Refused, in this order: an id the account does not hold, a transaction
/// that is not under dispute, a stored transaction without an amount, then
/// what [`commit_chargeback`] refuses.
pub fn operation_chargeback(account: &mut AccountData, transaction: Transaction) -> (r: Result<
    (),
    ProcessingError,
>)
    ensures
        settles(
            *old(account),
            *final(account),
            r,
            chargeback_outcome(old(account)@, transaction),
        ),
        !old(account).transactions@.contains_key(transaction.id) ==> r == Err::<
            (),
            ProcessingError,
        >(ProcessingError::MissingTransaction(transaction.id)),
        old(account).transactions@.contains_key(transaction.id) && !old(
            account,
        ).under_dispute@.contains(old(account).transactions@[transaction.id].id) ==> r == Err::<
            (),
            ProcessingError,
        >(ProcessingError::IncorrectChargeback(transaction.operation, transaction.id)),
        r is Ok ==> final(account).locked && !final(account).under_dispute@.contains(
            old(account).transactions@[transaction.id].id,
        ),
        r is Err ==> *final(account) == *old(account),
        old(account).locked ==> final(account).locked,
{
    let stored = match account.transactions.get(&transaction.id) {
        Some(stored) => *stored,
        None => {
            return Err(ProcessingError::MissingTransaction(transaction.id));
        },
    };
    if !account.under_dispute.contains(&stored.id) {
        return Err(ProcessingError::IncorrectChargeback(transaction.operation, transaction.id));
    }
    let amount = match stored.amount {
        Some(amount) => amount,
        None => {
            return Err(ProcessingError::MissingAmount(transaction.id));
        },
    };
    let held = account.held.checked_sub(amount);
    commit_chargeback(account, transaction, stored, held)
}

} // verus!
