//! The lines of the final report.

use crate::amount::{decimal_checked_add, Amount};
use crate::models::{AccountData, AccountView, ClientId, ReportRow};
use vstd::prelude::*;

verus! {

/// The report line of one account: its balances, their sum as the total,
/// and its lock. `None` where the sum overflows.
pub open spec fn report_line(client: ClientId, account: AccountView) -> Option<ReportRow> {
    match decimal_checked_add(account.available, account.held) {
        Some(total) => Some(
            ReportRow {
                client_id: client,
                available: account.available,
                held: account.held,
                total,
                locked: account.locked,
            },
        ),
        None => None,
    }
}

impl ReportRow {
    /// The line for an account whose total has been computed.
    pub fn new(client_id: ClientId, account: &AccountData, total: Amount) -> (row: ReportRow)
        ensures
            row == (ReportRow {
                client_id,
                available: account.available,
                held: account.held,
                total,
                locked: account.locked,
            }),
    {
        ReportRow {
            client_id,
            available: account.available,
            held: account.held,
            total,
            locked: account.locked,
        }
    }

    /// The line for an account: the total is the sum of the available and
    /// the held balance. `None` where that sum overflows.
    pub fn of_account(client_id: ClientId, account: &AccountData) -> (row: Option<ReportRow>)
        ensures
            row == report_line(client_id, account@),
    {
        match account.available.checked_add(account.held) {
            Some(total) => Some(ReportRow::new(client_id, account, total)),
            None => None,
        }
    }
}

} // verus!
