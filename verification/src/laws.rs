//! What holds of the ledger whatever the records are.
//!
//! The statements are about [`ledger_after`] and [`verdict`], by which
//! `Engine::process_one` is specified, and about the outcome functions of
//! the single operations.

use crate::accounts::{clients, lemma_position, lemma_position_is, position};
use crate::amount::lemma_zero;
use crate::engine::{
    account_for, ledger_after, ledger_after_all, lemma_slot_after_opening, slot_of, verdict,
    well_formed, with_account, Ledger,
};
use crate::error::ProcessingError;
use crate::handlers::operation_outcome;
use crate::models::{AccountView, ClientId, OperationType, Transaction};
use vstd::prelude::*;

verus! {

/// Whether `client` has an account in the ledger, and it is `account`.
pub open spec fn has_account(ledger: Ledger, client: ClientId, account: AccountView) -> bool {
    &&& position(clients(ledger), client) is Some
    &&& ledger[slot_of(ledger, client)].1 == account
}

/// A record opens at most one account, for its own client, behind all
/// others; it removes none and reorders none.
pub proof fn law_record_keeps_clients(ledger: Ledger, record: Transaction)
    ensures
        clients(ledger_after(ledger, record)) == clients(
            with_account(ledger, record.client_id),
        ),
        ledger_after(ledger, record).len() == with_account(ledger, record.client_id).len(),
        ledger.len() <= ledger_after(ledger, record).len() <= ledger.len() + 1,
{
    let opened = with_account(ledger, record.client_id);
    lemma_slot_after_opening(ledger, record.client_id);
    assert(clients(ledger_after(ledger, record)) =~= clients(opened));
}

/// A record touches the account of its own client only: every other
/// client's account is after the record what it was before, in the same
/// place.
pub proof fn law_other_accounts_untouched(
    ledger: Ledger,
    record: Transaction,
    client: ClientId,
    account: AccountView,
)
    requires
        has_account(ledger, client, account),
        client != record.client_id,
    ensures
        has_account(ledger_after(ledger, record), client, account),
        slot_of(ledger_after(ledger, record), client) == slot_of(ledger, client),
{
    let opened = with_account(ledger, record.client_id);
    let after = ledger_after(ledger, record);
    let slot = slot_of(ledger, client);
    lemma_slot_after_opening(ledger, record.client_id);
    law_record_keeps_clients(ledger, record);
    lemma_position(clients(ledger), client);
    assert forall|j: int| 0 <= j < slot implies clients(opened)[j] != client by {
        assert(clients(opened)[j] == clients(ledger)[j]);
    }
    assert(clients(opened)[slot] == clients(ledger)[slot]);
    lemma_position_is(clients(opened), client, slot);
    assert(slot != slot_of(opened, record.client_id));
    assert(after[slot] == ledger[slot]);
}

/// Once an account is locked, no record changes it: it refuses every record
/// sent to it with `AccountLocked`, and its balances, its stored
/// transactions and its disputes stay as they are.
pub proof fn law_locked_account_refuses(ledger: Ledger, record: Transaction, account: AccountView)
    requires
        has_account(ledger, record.client_id, account),
        account.locked,
    ensures
        verdict(ledger, record) == Err::<(), ProcessingError>(
            ProcessingError::AccountLocked(record.client_id),
        ),
        ledger_after(ledger, record) == ledger,
{
}

/// A locked account stays locked and unchanged under any sequence of
/// records, whichever clients they are for.
pub proof fn law_lock_is_final(
    ledger: Ledger,
    records: Seq<Transaction>,
    client: ClientId,
    account: AccountView,
)
    requires
        has_account(ledger, client, account),
        account.locked,
    ensures
        has_account(ledger_after_all(ledger, records), client, account),
        slot_of(ledger_after_all(ledger, records), client) == slot_of(ledger, client),
    decreases records.len(),
{
    if records.len() > 0 {
        let earlier = ledger_after_all(ledger, records.drop_last());
        law_lock_is_final(ledger, records.drop_last(), client, account);
        if records.last().client_id == client {
            law_locked_account_refuses(earlier, records.last(), account);
        } else {
            law_other_accounts_untouched(earlier, records.last(), client, account);
        }
    }
}

/// A refused record changes no account. All it may leave behind is the
/// fresh account that was opened for a client who had none.
pub proof fn law_refused_record_changes_nothing(ledger: Ledger, record: Transaction)
    requires
        verdict(ledger, record) is Err,
    ensures
        ledger_after(ledger, record) == with_account(ledger, record.client_id),
        position(clients(ledger), record.client_id) is Some ==> ledger_after(ledger, record)
            == ledger,
{
}

/// A deposit or withdrawal whose id the account has already taken is
/// refused as a duplicate and leaves the account as the first one left it.
pub proof fn law_second_entry_is_refused(
    account: AccountView,
    first: Transaction,
    second: Transaction,
)
    requires
        first.id == second.id,
        first.operation == OperationType::Deposit || first.operation
            == OperationType::Withdrawal,
        second.operation == OperationType::Deposit || second.operation
            == OperationType::Withdrawal,
        operation_outcome(account, first) is Ok,
    ensures
        operation_outcome(operation_outcome(account, first)->Ok_0, second) == Err::<
            AccountView,
            ProcessingError,
        >(ProcessingError::DuplicatedTransaction(second.id, second.client_id)),
{
}

/// The same for the whole ledger: of two deposits or withdrawals with the
/// same id for the same client, the second is refused with
/// `DuplicatedTransaction` and the ledger stays as the first one left it.
/// This holds where the first was accepted, and where the first was itself
/// refused as a duplicate.
pub proof fn law_duplicate_is_refused(ledger: Ledger, first: Transaction, second: Transaction)
    requires
        first.id == second.id,
        first.client_id == second.client_id,
        first.operation == OperationType::Deposit || first.operation
            == OperationType::Withdrawal,
        second.operation == OperationType::Deposit || second.operation
            == OperationType::Withdrawal,
        verdict(ledger, first) is Ok || verdict(ledger, first) == Err::<(), ProcessingError>(
            ProcessingError::DuplicatedTransaction(first.id, first.client_id),
        ),
    ensures
        verdict(ledger_after(ledger, first), second) == Err::<(), ProcessingError>(
            ProcessingError::DuplicatedTransaction(second.id, second.client_id),
        ),
        ledger_after(ledger_after(ledger, first), second) == ledger_after(ledger, first),
{
    let client = first.client_id;
    let opened = with_account(ledger, client);
    let slot = slot_of(opened, client);
    let after = ledger_after(ledger, first);
    lemma_slot_after_opening(ledger, client);
    law_record_keeps_clients(ledger, first);
    assert(with_account(after, client) == after);
    assert(slot_of(after, client) == slot);
    if verdict(ledger, first) is Ok {
        law_second_entry_is_refused(opened[slot].1, first, second);
    }
}

/// An accepted record leaves a well-formed account well formed.
pub proof fn law_operation_keeps_account_well_formed(account: AccountView, record: Transaction)
    requires
        account.well_formed(record.client_id),
        operation_outcome(account, record) is Ok,
    ensures
        operation_outcome(account, record)->Ok_0.well_formed(record.client_id),
{
    let changed = operation_outcome(account, record)->Ok_0;
    match record.operation {
        OperationType::Deposit | OperationType::Withdrawal => {
            assert(changed.transactions.dom() == account.transactions.dom().insert(record.id));
        },
        OperationType::Dispute => {},
        OperationType::Resolve | OperationType::Chargeback => {},
    }
}

/// Every record leaves a well-formed ledger well formed.
pub proof fn law_record_keeps_ledger_well_formed(ledger: Ledger, record: Transaction)
    requires
        well_formed(ledger),
    ensures
        well_formed(ledger_after(ledger, record)),
{
    let client = record.client_id;
    let opened = with_account(ledger, client);
    let slot = slot_of(opened, client);
    let after = ledger_after(ledger, record);
    lemma_slot_after_opening(ledger, client);
    law_record_keeps_clients(ledger, record);
    lemma_zero();
    assert(AccountView::fresh().well_formed(client));
    lemma_position(clients(ledger), client);
    assert(clients(opened).no_duplicates()) by {
        if position(clients(ledger), client) is None {
            assert forall|i: int, j: int|
                0 <= i < clients(opened).len() && 0 <= j < clients(opened).len() && i
                    != j implies clients(opened)[i] != clients(opened)[j] by {
                if i < ledger.len() {
                    assert(clients(ledger)[i] == clients(opened)[i]);
                }
                if j < ledger.len() {
                    assert(clients(ledger)[j] == clients(opened)[j]);
                }
            }
        }
    }
    assert forall|i: int| 0 <= i < opened.len() implies (#[trigger] opened[i]).1.well_formed(
        opened[i].0,
    ) by {
        if i < ledger.len() {
            assert(opened[i] == ledger[i]);
        }
    }
    if !opened[slot].1.locked && operation_outcome(opened[slot].1, record) is Ok {
        law_operation_keeps_account_well_formed(opened[slot].1, record);
    }
    assert forall|i: int| 0 <= i < after.len() implies (#[trigger] after[i]).1.well_formed(
        after[i].0,
    ) by {
        if i != slot {
            assert(after[i] == opened[i]);
        }
    }
}

/// The ledger that any sequence of records builds from the empty one is
/// well formed: no client has two accounts, and every account stores only
/// deposits and withdrawals of its own client.
pub proof fn law_ledger_is_well_formed(records: Seq<Transaction>)
    ensures
        well_formed(ledger_after_all(Seq::<(ClientId, AccountView)>::empty(), records)),
    decreases records.len(),
{
    if records.len() > 0 {
        law_ledger_is_well_formed(records.drop_last());
        law_record_keeps_ledger_well_formed(
            ledger_after_all(Seq::<(ClientId, AccountView)>::empty(), records.drop_last()),
            records.last(),
        );
    }
}

/// In a well-formed account the two defensive refusals never come: a
/// dispute, resolve or chargeback is never refused for a stored transaction
/// without an amount, nor for one that is neither deposit nor withdrawal.
/// And the transaction it names is the one stored under the record's id.
pub proof fn law_defensive_refusals_never_come(account: AccountView, record: Transaction)
    requires
        account.well_formed(record.client_id),
        record.operation == OperationType::Dispute || record.operation == OperationType::Resolve
            || record.operation == OperationType::Chargeback,
    ensures
        operation_outcome(account, record) != Err::<AccountView, ProcessingError>(
            ProcessingError::MissingAmount(record.id),
        ),
        operation_outcome(account, record) != Err::<AccountView, ProcessingError>(
            ProcessingError::InvalidOperationUnderDispute(record.operation, record.id),
        ),
        account.transactions.contains_key(record.id) ==> account.transactions[record.id].id
            == record.id,
{
}

/// A dispute that names a transaction the account does not hold is refused
/// with `MissingTransaction`, and no account changes. (A locked account
/// answers `AccountLocked` before it looks at the record.)
pub proof fn law_dispute_of_unknown_transaction(ledger: Ledger, record: Transaction)
    requires
        record.operation == OperationType::Dispute,
        !account_for(ledger, record.client_id).locked,
        !account_for(ledger, record.client_id).transactions.contains_key(record.id),
    ensures
        verdict(ledger, record) == Err::<(), ProcessingError>(
            ProcessingError::MissingTransaction(record.id),
        ),
        ledger_after(ledger, record) == with_account(ledger, record.client_id),
        account_for(ledger_after(ledger, record), record.client_id) == account_for(
            ledger,
            record.client_id,
        ),
{
    lemma_slot_after_opening(ledger, record.client_id);
    assert(with_account(with_account(ledger, record.client_id), record.client_id)
        == with_account(ledger, record.client_id));
}

/// A resolve or chargeback of a transaction that is not under dispute is
/// refused, with `IncorrectResolve` or `IncorrectChargeback`, and no account
/// changes. (A locked account answers `AccountLocked` before it looks at the
/// record.)
pub proof fn law_settling_without_dispute(ledger: Ledger, record: Transaction)
    requires
        record.operation == OperationType::Resolve || record.operation
            == OperationType::Chargeback,
        !account_for(ledger, record.client_id).locked,
        account_for(ledger, record.client_id).transactions.contains_key(record.id),
        !account_for(ledger, record.client_id).under_dispute.contains(
            account_for(ledger, record.client_id).transactions[record.id].id,
        ),
    ensures
        record.operation == OperationType::Resolve ==> verdict(ledger, record) == Err::<
            (),
            ProcessingError,
        >(ProcessingError::IncorrectResolve(record.operation, record.id)),
        record.operation == OperationType::Chargeback ==> verdict(ledger, record) == Err::<
            (),
            ProcessingError,
        >(ProcessingError::IncorrectChargeback(record.operation, record.id)),
        ledger_after(ledger, record) == with_account(ledger, record.client_id),
        account_for(ledger_after(ledger, record), record.client_id) == account_for(
            ledger,
            record.client_id,
        ),
{
    lemma_slot_after_opening(ledger, record.client_id);
    assert(with_account(with_account(ledger, record.client_id), record.client_id)
        == with_account(ledger, record.client_id));
}

} // verus!
