//! Records, accounts and report rows.

use crate::amount::Amount;
use std::collections::{HashMap, HashSet};
use vstd::prelude::*;
use vstd::set_lib::lemma_subset_equality;
use vstd::std_specs::cmp::PartialEqSpecImpl;
use vstd::seq_lib::seq_to_set_is_finite;
use vstd::std_specs::hash::{group_hash_axioms, spec_hash_keys_iter};
use vstd::std_specs::iter::IteratorSpec;

verus! {

/// Identifies one account.
pub type ClientId = u16;

/// Identifies a deposit or withdrawal within one account.
pub type TransactionId = u32;

/// The kind of a record.
#[derive(Debug, Clone, Copy, PartialEq, Eq, Structural)]
pub enum OperationType {
    Deposit,
    Withdrawal,
    Dispute,
    Resolve,
    Chargeback,
}

/// One incoming record. Deposits and withdrawals carry an amount; disputes,
/// resolves and chargebacks name an earlier transaction by its id instead.
#[derive(Debug, Clone, Copy)]
pub struct Transaction {
    pub operation: OperationType,
    pub client_id: ClientId,
    pub id: TransactionId,
    pub amount: Option<Amount>,
}

/// The state of one client's account.
#[derive(Debug)]
pub struct AccountData {
    pub locked: bool,
    pub available: Amount,
    pub held: Amount,
    /// The deposits and withdrawals applied so far, by id.
    pub transactions: HashMap<TransactionId, Transaction>,
    /// The ids of the transactions that are under dispute now.
    pub under_dispute: HashSet<TransactionId>,
}

/// An account as a mathematical value: its balances, its lock, the stored
/// transactions as a map and the disputed ids as a set.
pub struct AccountView {
    pub locked: bool,
    pub available: Amount,
    pub held: Amount,
    pub transactions: Map<TransactionId, Transaction>,
    pub under_dispute: Set<TransactionId>,
}

impl AccountView {
    /// An untouched account: both balances zero, unlocked, nothing stored
    /// and nothing disputed.
    pub open spec fn fresh() -> AccountView {
        AccountView {
            locked: false,
            available: Amount::spec_zero(),
            held: Amount::spec_zero(),
            transactions: Map::empty(),
            under_dispute: Set::empty(),
        }
    }
}

/// Whether `stored` is what the ledger keeps under `id` for `client`: a
/// deposit or withdrawal of that id and client, with an amount that is not
/// below zero.
pub open spec fn is_entry_of(stored: Transaction, id: TransactionId, client: ClientId) -> bool {
    &&& stored.id == id
    &&& stored.client_id == client
    &&& (stored.operation == OperationType::Deposit || stored.operation
        == OperationType::Withdrawal)
    &&& stored.amount is Some
    &&& !stored.amount->0.is_negative()
}

impl AccountView {
    /// Whether the account is one that records for `client` can have built:
    /// it stores finitely many transactions, each a deposit or withdrawal
    /// under its own id, and only stored transactions are under dispute.
    pub open spec fn well_formed(self, client: ClientId) -> bool {
        &&& self.transactions.dom().finite()
        &&& self.under_dispute.finite()
        &&& self.under_dispute.subset_of(self.transactions.dom())
        &&& forall|id: TransactionId| #[trigger]
            self.transactions.contains_key(id) ==> is_entry_of(self.transactions[id], id, client)
    }
}

impl View for AccountData {
    type V = AccountView;

    open spec fn view(&self) -> AccountView {
        AccountView {
            locked: self.locked,
            available: self.available,
            held: self.held,
            transactions: self.transactions@,
            under_dispute: self.under_dispute@,
        }
    }
}

impl Default for AccountData {
    /// A fresh account.
    fn default() -> (r: AccountData)
        ensures
            r@ == AccountView::fresh(),
    {
        AccountData {
            available: Amount::zero(),
            held: Amount::zero(),
            locked: false,
            under_dispute: HashSet::new(),
            transactions: HashMap::new(),
        }
    }
}

/// Whether two sets hold the same ids.
fn same_ids(left: &HashSet<TransactionId>, right: &HashSet<TransactionId>) -> (r: bool)
    ensures
        r == (left@ == right@),
{
    broadcast use group_hash_axioms;

    if left.len() != right.len() {
        return false;
    }
    for id in ids: left.iter()
        invariant
            ids.seq().unref().to_set() == left@,
            forall|i: int| 0 <= i < ids.index() ==> right@.contains(*(#[trigger] ids.seq()[i])),
    {
        if !right.contains(id) {
            return false;
        }
    }
    proof {
        let walked = spec_hash_keys_iter(right).remaining();
        seq_to_set_is_finite(walked.unref());
        assert(right@.finite());
        assert(left@.subset_of(right@));
        lemma_subset_equality(left@, right@);
    }
    true
}

impl PartialEq for AccountData {
    /// Two accounts are equal where their locks agree, their balances are
    /// the same numbers and the same transactions are under dispute. The
    /// stored transactions are not compared.
    fn eq(&self, other: &AccountData) -> (r: bool) {
        self.locked == other.locked && self.available == other.available && self.held
            == other.held && same_ids(&self.under_dispute, &other.under_dispute)
    }
}

impl PartialEqSpecImpl for AccountData {
    open spec fn obeys_eq_spec() -> bool {
        true
    }

    open spec fn eq_spec(&self, other: &AccountData) -> bool {
        &&& self.locked == other.locked
        &&& self.available.units() == other.available.units()
        &&& self.held.units() == other.held.units()
        &&& self.under_dispute@ == other.under_dispute@
    }
}

/// One line of the final report.
#[derive(Debug, Clone, Copy)]
pub struct ReportRow {
    pub client_id: ClientId,
    pub available: Amount,
    pub held: Amount,
    pub total: Amount,
    pub locked: bool,
}

} // verus!
