//! The ledger of all accounts and the dispatcher that applies records to it.

use crate::accounts::{
    account_at, account_count, account_entry, account_of, clients, ledger_entries,
    lemma_position, lemma_position_is, new_accounts, position, AccountsMap,
};
use crate::error::ProcessingError;
use crate::handlers::{
    operation_chargeback, operation_deposit, operation_dispute, operation_outcome,
    operation_resolve, operation_withdraw,
};
use crate::laws::law_record_keeps_ledger_well_formed;
use crate::models::{AccountData, AccountView, ClientId, OperationType, ReportRow, Transaction};
use crate::report::report_line;
use vstd::prelude::*;

verus! {

/// The ledger as a mathematical value: each client with its account, in the
/// order in which the clients first appeared.
pub type Ledger = Seq<(ClientId, AccountView)>;

/// The views of a sequence of stored accounts.
pub open spec fn views_of(entries: Seq<(ClientId, AccountData)>) -> Ledger {
    entries.map_values(|entry: (ClientId, AccountData)| (entry.0, entry.1@))
}

/// The ledger with an account for `client`: unchanged where the client has
/// one, with a fresh account appended where it has none.
pub open spec fn with_account(ledger: Ledger, client: ClientId) -> Ledger {
    if position(clients(ledger), client) is Some {
        ledger
    } else {
        ledger.push((client, AccountView::fresh()))
    }
}

/// The index of `client`'s account in a ledger that has one.
pub open spec fn slot_of(ledger: Ledger, client: ClientId) -> int {
    position(clients(ledger), client)->0
}

/// The account that a record for `client` meets: the client's own, or a
/// fresh one where the client has none yet.
pub open spec fn account_for(ledger: Ledger, client: ClientId) -> AccountView {
    let opened = with_account(ledger, client);
    opened[slot_of(opened, client)].1
}

/// The ledger after one record.
///
/// The client's account is opened first if there is none, and stays whatever
/// becomes of the record. A locked account refuses every record. Otherwise
/// the record's operation decides: on success the account is replaced by the
/// new one, on refusal nothing else changes.
pub open spec fn ledger_after(ledger: Ledger, record: Transaction) -> Ledger {
    let opened = with_account(ledger, record.client_id);
    let account = account_for(ledger, record.client_id);
    if account.locked {
        opened
    } else {
        match operation_outcome(account, record) {
            Ok(changed) => opened.update(
                slot_of(opened, record.client_id),
                (record.client_id, changed),
            ),
            Err(_) => opened,
        }
    }
}

/// What the dispatcher answers to one record.
pub open spec fn verdict(ledger: Ledger, record: Transaction) -> Result<(), ProcessingError> {
    let account = account_for(ledger, record.client_id);
    if account.locked {
        Err(ProcessingError::AccountLocked(record.client_id))
    } else {
        match operation_outcome(account, record) {
            Ok(_) => Ok(()),
            Err(e) => Err(e),
        }
    }
}

/// The ledger after a sequence of records, applied from first to last.
pub open spec fn ledger_after_all(ledger: Ledger, records: Seq<Transaction>) -> Ledger
    decreases records.len(),
{
    if records.len() == 0 {
        ledger
    } else {
        ledger_after(ledger_after_all(ledger, records.drop_last()), records.last())
    }
}

/// Whether every account of the ledger is well formed for its client and no
/// client has two accounts.
pub open spec fn well_formed(ledger: Ledger) -> bool {
    &&& clients(ledger).no_duplicates()
    &&& forall|i: int| 0 <= i < ledger.len() ==> (#[trigger] ledger[i]).1.well_formed(ledger[i].0)
}

/// The keys of a ledger are those of the entries it was read from.
pub proof fn lemma_views_keep_clients(entries: Seq<(ClientId, AccountData)>)
    ensures
        clients(views_of(entries)) == clients(entries),
{
    assert(clients(views_of(entries)) =~= clients(entries));
}

/// In a ledger that got an account for `client`, the client's slot is the
/// one it had, or the new last one.
pub proof fn lemma_slot_after_opening(ledger: Ledger, client: ClientId)
    ensures
        position(clients(with_account(ledger, client)), client) is Some,
        0 <= slot_of(with_account(ledger, client), client) < with_account(ledger, client).len(),
        with_account(ledger, client)[slot_of(with_account(ledger, client), client)].0 == client,
        position(clients(ledger), client) is None ==> slot_of(with_account(ledger, client), client)
            == ledger.len(),
{
    let opened = with_account(ledger, client);
    lemma_position(clients(ledger), client);
    if position(clients(ledger), client) is None {
        assert forall|j: int| 0 <= j < ledger.len() implies clients(opened)[j] != client by {
            assert(clients(opened)[j] == clients(ledger)[j]);
        }
        lemma_position_is(clients(opened), client, ledger.len() as int);
    }
}

/// The accounts of all clients.
pub struct Engine {
    accounts: AccountsMap,
}

impl View for Engine {
    type V = Ledger;

    /// The accounts with their clients, in the order of the map.
    closed spec fn view(&self) -> Ledger {
        views_of(ledger_entries(self.accounts))
    }
}

impl Engine {
    /// An engine without accounts.
    pub fn new() -> (engine: Engine)
        ensures
            engine@ == Seq::<(ClientId, AccountView)>::empty(),
            well_formed(engine@),
    {
        let engine = Engine { accounts: new_accounts() };
        assert(engine@ =~= Seq::<(ClientId, AccountView)>::empty());
        engine
    }

    /// Applies one record to the account of its client.
    ///
    /// The account is opened if the client has none. A locked account
    /// refuses the record with `AccountLocked`, whatever its kind. Otherwise
    /// the record goes to the handler of its kind. When the record is
    /// refused, no account changes.
    pub fn process_one(&mut self, transaction: Transaction) -> (r: Result<(), ProcessingError>)
        ensures
            final(self)@ == ledger_after(old(self)@, transaction),
            r == verdict(old(self)@, transaction),
            well_formed(old(self)@) ==> well_formed(final(self)@),
    {
        let ghost entries = ledger_entries(self.accounts);
        let client = transaction.client_id;
        proof {
            lemma_views_keep_clients(entries);
            lemma_slot_after_opening(views_of(entries), client);
            if well_formed(views_of(entries)) {
                law_record_keeps_ledger_well_formed(views_of(entries), transaction);
            }
            lemma_position(clients(entries), client);
        }
        let account = account_entry(&mut self.accounts, client, AccountData::default());
        let ghost found = *account;
        let r = if account.locked {
            Err(ProcessingError::AccountLocked(client))
        } else {
            match transaction.operation {
                OperationType::Deposit => operation_deposit(account, transaction),
                OperationType::Withdrawal => operation_withdraw(account, transaction),
                OperationType::Dispute => operation_dispute(account, transaction),
                OperationType::Resolve => operation_resolve(account, transaction),
                OperationType::Chargeback => operation_chargeback(account, transaction),
            }
        };
        proof {
            let after = ledger_entries(self.accounts);
            let opened = with_account(views_of(entries), client);
            let slot = slot_of(opened, client);
            assert(opened[slot].1 == found@);
            assert(views_of(after) =~= ledger_after(views_of(entries), transaction));
        }
        r
    }

    /// Applies the records in order, each as [`Engine::process_one`] does,
    /// and answers for each whether it was applied or why it was refused. A
    /// refused record does not stop the run.
    pub fn process_all(&mut self, records: &Vec<Transaction>) -> (answers: Vec<
        Result<(), ProcessingError>,
    >)
        ensures
            final(self)@ == ledger_after_all(old(self)@, records@),
            answers@.len() == records@.len(),
            forall|i: int|
                0 <= i < records@.len() ==> #[trigger] answers@[i] == verdict(
                    ledger_after_all(old(self)@, records@.take(i)),
                    records@[i],
                ),
            well_formed(old(self)@) ==> well_formed(final(self)@),
    {
        let ghost start = self@;
        let mut answers: Vec<Result<(), ProcessingError>> = Vec::new();
        let mut index: usize = 0;
        assert(records@.take(0) =~= Seq::<Transaction>::empty());
        while index < records.len()
            invariant
                index <= records@.len(),
                self@ == ledger_after_all(start, records@.take(index as int)),
                answers@.len() == index,
                forall|i: int|
                    0 <= i < index ==> #[trigger] answers@[i] == verdict(
                        ledger_after_all(start, records@.take(i)),
                        records@[i],
                    ),
                well_formed(start) ==> well_formed(self@),
            decreases records@.len() - index,
        {
            let answer = self.process_one(records[index]);
            answers.push(answer);
            proof {
                let taken = records@.take(index as int + 1);
                assert(taken.drop_last() =~= records@.take(index as int));
                assert(taken.last() == records@[index as int]);
            }
            index = index + 1;
        }
        assert(records@.take(records@.len() as int) =~= records@);
        answers
    }

    /// The account of `client`, if the client has appeared in a record.
    pub fn account(&self, client: ClientId) -> (account: Option<&AccountData>)
        ensures
            account is Some <==> position(clients(self@), client) is Some,
            account matches Some(found) ==> found@ == self@[slot_of(self@, client)].1,
    {
        proof {
            lemma_views_keep_clients(ledger_entries(self.accounts));
            lemma_position(clients(ledger_entries(self.accounts)), client);
        }
        account_of(&self.accounts, client)
    }

    /// The report: one line for each account, in the order in which the
    /// accounts were opened. Each line's total is the sum of the account's
    /// available and held balance. `None` where one of the sums overflows.
    pub fn report(&self) -> (rows: Option<Vec<ReportRow>>)
        ensures
            rows is Some <==> forall|i: int|
                0 <= i < self@.len() ==> (#[trigger] report_line(self@[i].0, self@[i].1)) is Some,
            rows matches Some(lines) ==> {
                &&& lines@.len() == self@.len()
                &&& forall|i: int|
                    0 <= i < self@.len() ==> #[trigger] report_line(self@[i].0, self@[i].1)
                        == Some(lines@[i])
            },
    {
        let count = account_count(&self.accounts);
        let mut lines: Vec<ReportRow> = Vec::new();
        let mut index: usize = 0;
        while index < count
            invariant
                index <= count,
                count == ledger_entries(self.accounts).len(),
                self@ == views_of(ledger_entries(self.accounts)),
                lines@.len() == index,
                forall|i: int|
                    0 <= i < index ==> #[trigger] report_line(self@[i].0, self@[i].1) == Some(
                        lines@[i],
                    ),
            decreases count - index,
        {
            let (client, account) = match account_at(&self.accounts, index) {
                Some(entry) => entry,
                None => {
                    return None;
                },
            };
            match ReportRow::of_account(client, account) {
                Some(line) => {
                    lines.push(line);
                },
                None => {
                    assert(report_line(self@[index as int].0, self@[index as int].1) is None);
                    return None;
                },
            }
            index = index + 1;
        }
        Some(lines)
    }

    /// The number of accounts.
    pub fn len(&self) -> (n: usize)
        ensures
            n == self@.len(),
    {
        account_count(&self.accounts)
    }
}

} // verus!
