//! The accounts of all clients, kept in the order in which they were opened.
//!
//! The container is `indexmap::IndexMap`. Verus does not look inside it, so
//! this module names what it holds, [`ledger_entries`], and states of each
//! method the ledger calls what it does to those entries.

use crate::models::{AccountData, ClientId};
use indexmap::IndexMap;
use std::collections::hash_map::RandomState;
use vstd::prelude::*;

verus! {

/// `indexmap::IndexMap`, made known so that it can stand in fields and
/// signatures. Nothing is said of what is inside it.
#[verifier::external_type_specification]
#[verifier::external_body]
#[verifier::reject_recursive_types(K)]
#[verifier::reject_recursive_types(V)]
#[verifier::reject_recursive_types(S)]
pub struct ExIndexMap<K, V, S>(IndexMap<K, V, S>);

/// Every client's account, by client id, in order of first appearance.
pub type AccountsMap = IndexMap<ClientId, AccountData, RandomState>;

/// The key-value pairs of the map, in the map's own order: the pair at index
/// `i` is the one that `IndexMap::get_index(i)` returns. No key occurs twice.
pub uninterp spec fn ledger_entries(accounts: AccountsMap) -> Seq<(ClientId, AccountData)>;

/// The keys of a sequence of entries, in the same order.
pub open spec fn clients<V>(entries: Seq<(ClientId, V)>) -> Seq<ClientId> {
    entries.map_values(|entry: (ClientId, V)| entry.0)
}

/// The index at which `client` first occurs among the keys, `None` where it
/// does not occur.
pub open spec fn position(keys: Seq<ClientId>, client: ClientId) -> Option<int>
    decreases keys.len(),
{
    if keys.len() == 0 {
        None
    } else if keys[0] == client {
        Some(0)
    } else {
        match position(keys.drop_first(), client) {
            Some(index) => Some(index + 1),
            None => None,
        }
    }
}

/// [`position`] finds the first occurrence, and finds none only where there
/// is none.
pub proof fn lemma_position(keys: Seq<ClientId>, client: ClientId)
    ensures
        match position(keys, client) {
            Some(index) => {
                &&& 0 <= index < keys.len()
                &&& keys[index] == client
                &&& forall|j: int| 0 <= j < index ==> keys[j] != client
            },
            None => forall|j: int| 0 <= j < keys.len() ==> keys[j] != client,
        },
    decreases keys.len(),
{
    if keys.len() > 0 && keys[0] != client {
        let rest = keys.drop_first();
        lemma_position(rest, client);
        match position(rest, client) {
            Some(index) => {
                assert forall|j: int| 0 <= j < index + 1 implies keys[j] != client by {
                    if j > 0 {
                        assert(rest[j - 1] == keys[j]);
                    }
                }
            },
            None => {
                assert forall|j: int| 0 <= j < keys.len() implies keys[j] != client by {
                    if j > 0 {
                        assert(rest[j - 1] == keys[j]);
                    }
                }
            },
        }
    }
}

/// The first occurrence is the only index that holds `client` and has no
/// occurrence before it.
pub proof fn lemma_position_is(keys: Seq<ClientId>, client: ClientId, index: int)
    requires
        0 <= index < keys.len(),
        keys[index] == client,
        forall|j: int| 0 <= j < index ==> keys[j] != client,
    ensures
        position(keys, client) == Some(index),
{
    lemma_position(keys, client);
}

/// `IndexMap::new`: a map without entries.
#[verifier::external_body]
pub(crate) fn new_accounts() -> (accounts: AccountsMap)
    ensures
        ledger_entries(accounts) == Seq::<(ClientId, AccountData)>::empty(),
{
    IndexMap::new()
}

/// `IndexMap::entry` followed by `Entry::or_insert`. Where the map has an
/// entry for `client`, the result borrows its value and the map changes only
/// as that value does. Where it has none, the pair of `client` and `fresh`
/// is appended after all others and the result borrows the new value.
#[verifier::external_body]
pub(crate) fn account_entry(
    accounts: &mut AccountsMap,
    client: ClientId,
    fresh: AccountData,
) -> (account: &mut AccountData)
    ensures
        match position(clients(ledger_entries(*old(accounts))), client) {
            Some(i) => {
                &&& *account == ledger_entries(*old(accounts))[i].1
                &&& ledger_entries(*final(accounts)) == ledger_entries(*old(accounts)).update(
                    i,
                    (client, *final(account)),
                )
            },
            None => {
                &&& *account == fresh
                &&& ledger_entries(*final(accounts)) == ledger_entries(*old(accounts)).push(
                    (client, *final(account)),
                )
            },
        },
{
    accounts.entry(client).or_insert(fresh)
}

/// `IndexMap::get`: the account stored for `client`, if there is one.
#[verifier::external_body]
pub(crate) fn account_of(accounts: &AccountsMap, client: ClientId) -> (account: Option<
    &AccountData,
>)
    ensures
        match position(clients(ledger_entries(*accounts)), client) {
            Some(i) => account == Some(&ledger_entries(*accounts)[i].1),
            None => account is None,
        },
{
    accounts.get(&client)
}

/// `IndexMap::len`: the number of entries.
#[verifier::external_body]
pub(crate) fn account_count(accounts: &AccountsMap) -> (n: usize)
    ensures
        n == ledger_entries(*accounts).len(),
{
    accounts.len()
}

/// `IndexMap::get_index`: the pair at position `index`, which exists exactly
/// for the indices below the length.
#[verifier::external_body]
pub(crate) fn account_at(accounts: &AccountsMap, index: usize) -> (entry: Option<
    (ClientId, &AccountData),
>)
    ensures
        match entry {
            Some((client, account)) => {
                &&& index < ledger_entries(*accounts).len()
                &&& client == ledger_entries(*accounts)[index as int].0
                &&& *account == ledger_entries(*accounts)[index as int].1
            },
            None => index >= ledger_entries(*accounts).len(),
        },
{
    match accounts.get_index(index) {
        Some((client, account)) => Some((*client, account)),
        None => None,
    }
}

} // verus!
