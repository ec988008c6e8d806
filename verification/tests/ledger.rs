use payments_engine::amount::{Amount, MAX_MANTISSA};
use payments_engine::engine::Engine;
use payments_engine::error::ProcessingError;
use payments_engine::models::{AccountData, OperationType, ReportRow, Transaction};

fn amount(mantissa: i128, scale: u32) -> Amount {
    Amount::new(mantissa, scale).unwrap()
}

fn deposit(client_id: u16, id: u32, value: Amount) -> Transaction {
    Transaction { operation: OperationType::Deposit, client_id, id, amount: Some(value) }
}

fn withdrawal(client_id: u16, id: u32, value: Amount) -> Transaction {
    Transaction { operation: OperationType::Withdrawal, client_id, id, amount: Some(value) }
}

fn dispute(client_id: u16, id: u32) -> Transaction {
    Transaction { operation: OperationType::Dispute, client_id, id, amount: None }
}

fn resolve(client_id: u16, id: u32) -> Transaction {
    Transaction { operation: OperationType::Resolve, client_id, id, amount: None }
}

fn chargeback(client_id: u16, id: u32) -> Transaction {
    Transaction { operation: OperationType::Chargeback, client_id, id, amount: None }
}

fn digits(value: Amount) -> (i128, u32) {
    (value.mantissa(), value.scale())
}

fn line(row: &ReportRow) -> (u16, (i128, u32), (i128, u32), (i128, u32), bool) {
    (row.client_id, digits(row.available), digits(row.held), digits(row.total), row.locked)
}

fn snapshot(account: &AccountData) -> String {
    let mut ids: Vec<u32> = account.transactions.keys().copied().collect();
    ids.sort();
    let mut disputed: Vec<u32> = account.under_dispute.iter().copied().collect();
    disputed.sort();
    format!(
        "{} {:?} {:?} {:?} {:?}",
        account.locked,
        digits(account.available),
        digits(account.held),
        ids,
        disputed
    )
}

#[test]
fn new_engine_has_no_accounts() {
    let engine = Engine::new();
    assert_eq!(engine.len(), 0);
    assert!(engine.account(1).is_none());
    assert!(engine.report().unwrap().is_empty());
}

#[test]
fn account_is_opened_by_its_first_record() {
    let mut engine = Engine::new();
    assert_eq!(
        engine.process_one(dispute(3, 1)),
        Err(ProcessingError::MissingTransaction(1))
    );
    assert_eq!(engine.len(), 1);
    let account = engine.account(3).unwrap();
    assert!(account == &AccountData::default());
    assert!(account.transactions.is_empty());
    assert!(engine.account(4).is_none());
}

#[test]
fn second_entry_with_the_same_id_is_refused() {
    let mut engine = Engine::new();
    engine.process_one(deposit(1, 1, amount(10, 1))).unwrap();
    let after_first = snapshot(engine.account(1).unwrap());
    assert_eq!(
        engine.process_one(deposit(1, 1, amount(5, 0))),
        Err(ProcessingError::DuplicatedTransaction(1, 1))
    );
    assert_eq!(snapshot(engine.account(1).unwrap()), after_first);
    assert_eq!(
        engine.process_one(withdrawal(1, 1, amount(1, 1))),
        Err(ProcessingError::DuplicatedTransaction(1, 1))
    );
    assert_eq!(snapshot(engine.account(1).unwrap()), after_first);

    engine.process_one(withdrawal(1, 2, amount(1, 1))).unwrap();
    let after_withdrawal = snapshot(engine.account(1).unwrap());
    assert_eq!(
        engine.process_one(withdrawal(1, 2, amount(1, 1))),
        Err(ProcessingError::DuplicatedTransaction(2, 1))
    );
    assert_eq!(snapshot(engine.account(1).unwrap()), after_withdrawal);
}

#[test]
fn ids_are_counted_per_client() {
    let mut engine = Engine::new();
    engine.process_one(deposit(1, 1, amount(1, 0))).unwrap();
    assert_eq!(engine.process_one(deposit(2, 1, amount(2, 0))), Ok(()));
    assert_eq!(engine.process_one(dispute(2, 1)), Ok(()));
    assert!(engine.account(1).unwrap().under_dispute.is_empty());
    assert!(engine.account(2).unwrap().under_dispute.contains(&1));
    assert_eq!(digits(engine.account(1).unwrap().available), (1, 0));
}

#[test]
fn dispute_then_resolve_restores_the_account() {
    let mut engine = Engine::new();
    engine.process_one(deposit(1, 1, amount(10, 1))).unwrap();
    let before = snapshot(engine.account(1).unwrap());
    engine.process_one(dispute(1, 1)).unwrap();
    assert_eq!(digits(engine.account(1).unwrap().held), (10, 1));
    engine.process_one(resolve(1, 1)).unwrap();
    let account = engine.account(1).unwrap();
    assert_eq!(digits(account.available), (10, 1));
    assert!(account.held == Amount::zero());
    assert!(account.under_dispute.is_empty());
    assert!(!account.locked);
    assert!(account.available == amount(1, 0));
    assert_eq!(account.transactions.len(), 1);
    assert!(before.starts_with("false (10, 1) (0, 0)"));
}

#[test]
fn dispute_then_chargeback_empties_and_locks() {
    let mut engine = Engine::new();
    engine.process_one(deposit(1, 1, amount(10, 1))).unwrap();
    engine.process_one(dispute(1, 1)).unwrap();
    engine.process_one(chargeback(1, 1)).unwrap();
    let account = engine.account(1).unwrap();
    assert!(account.available == Amount::zero());
    assert!(account.held == Amount::zero());
    assert!(account.locked);
    assert!(account.under_dispute.is_empty());
}

#[test]
fn locked_account_takes_no_record_of_any_kind() {
    let mut engine = Engine::new();
    engine.process_one(deposit(1, 1, amount(5, 0))).unwrap();
    engine.process_one(deposit(1, 2, amount(7, 0))).unwrap();
    engine.process_one(dispute(1, 1)).unwrap();
    engine.process_one(dispute(1, 2)).unwrap();
    engine.process_one(chargeback(1, 1)).unwrap();
    let locked = snapshot(engine.account(1).unwrap());
    let records = vec![
        deposit(1, 3, amount(1, 0)),
        withdrawal(1, 4, amount(1, 0)),
        dispute(1, 2),
        resolve(1, 2),
        chargeback(1, 2),
        dispute(1, 99),
        deposit(1, 1, amount(1, 0)),
    ];
    for record in records {
        assert_eq!(engine.process_one(record), Err(ProcessingError::AccountLocked(1)));
        assert_eq!(snapshot(engine.account(1).unwrap()), locked);
    }
    engine.process_one(deposit(2, 1, amount(1, 0))).unwrap();
    assert_eq!(snapshot(engine.account(1).unwrap()), locked);
    assert!(engine.account(1).unwrap().locked);
    assert!(!engine.account(2).unwrap().locked);
}

#[test]
fn dispute_of_unknown_transaction_changes_nothing() {
    let mut engine = Engine::new();
    engine.process_one(deposit(1, 1, amount(5, 0))).unwrap();
    let before = snapshot(engine.account(1).unwrap());
    assert_eq!(
        engine.process_one(dispute(1, 2)),
        Err(ProcessingError::MissingTransaction(2))
    );
    assert_eq!(snapshot(engine.account(1).unwrap()), before);
    assert_eq!(engine.len(), 1);
}

#[test]
fn settling_what_is_not_disputed_changes_nothing() {
    let mut engine = Engine::new();
    engine.process_one(deposit(1, 1, amount(5, 0))).unwrap();
    let before = snapshot(engine.account(1).unwrap());
    assert_eq!(
        engine.process_one(resolve(1, 1)),
        Err(ProcessingError::IncorrectResolve(OperationType::Resolve, 1))
    );
    assert_eq!(snapshot(engine.account(1).unwrap()), before);
    assert_eq!(
        engine.process_one(chargeback(1, 1)),
        Err(ProcessingError::IncorrectChargeback(OperationType::Chargeback, 1))
    );
    assert_eq!(snapshot(engine.account(1).unwrap()), before);
    assert!(!engine.account(1).unwrap().locked);
}

#[test]
fn scenario_two_clients() {
    let mut engine = Engine::new();
    assert_eq!(engine.process_one(deposit(1, 1, amount(10, 1))), Ok(()));
    assert_eq!(engine.process_one(deposit(2, 2, amount(20, 1))), Ok(()));
    assert_eq!(engine.process_one(deposit(1, 3, amount(20, 1))), Ok(()));
    assert_eq!(engine.process_one(withdrawal(1, 4, amount(15, 1))), Ok(()));
    assert_eq!(
        engine.process_one(withdrawal(2, 5, amount(30, 1))),
        Err(ProcessingError::InsufficientFounds(5, 2))
    );
    let rows = engine.report().unwrap();
    assert_eq!(rows.len(), 2);
    assert_eq!(line(&rows[0]), (1, (15, 1), (0, 0), (15, 1), false));
    assert_eq!(line(&rows[1]), (2, (20, 1), (0, 0), (20, 1), false));
}

#[test]
fn scenario_chargeback_locks() {
    let mut engine = Engine::new();
    assert_eq!(engine.process_one(deposit(1, 1, amount(1, 0))), Ok(()));
    assert_eq!(engine.process_one(deposit(1, 2, amount(2, 0))), Ok(()));
    assert_eq!(engine.process_one(dispute(1, 1)), Ok(()));
    assert_eq!(engine.process_one(chargeback(1, 1)), Ok(()));
    assert_eq!(
        engine.process_one(withdrawal(1, 3, amount(1, 0))),
        Err(ProcessingError::AccountLocked(1))
    );
    assert_eq!(
        engine.process_one(deposit(1, 3, amount(2, 0))),
        Err(ProcessingError::AccountLocked(1))
    );
    let rows = engine.report().unwrap();
    assert_eq!(rows.len(), 1);
    assert_eq!(line(&rows[0]), (1, (2, 0), (0, 0), (2, 0), true));
}

#[test]
fn report_follows_the_order_of_first_appearance() {
    let mut engine = Engine::new();
    engine.process_one(deposit(9, 1, amount(1, 0))).unwrap();
    engine.process_one(deposit(2, 1, amount(2, 0))).unwrap();
    let _ = engine.process_one(resolve(5, 1));
    engine.process_one(deposit(9, 2, amount(3, 0))).unwrap();
    engine.process_one(deposit(1, 1, amount(4, 0))).unwrap();
    let rows = engine.report().unwrap();
    let clients: Vec<u16> = rows.iter().map(|row| row.client_id).collect();
    assert_eq!(clients, vec![9, 2, 5, 1]);
    assert_eq!(engine.len(), 4);
    assert_eq!(line(&rows[0]), (9, (4, 0), (0, 0), (4, 0), false));
    assert_eq!(line(&rows[2]), (5, (0, 0), (0, 0), (0, 0), false));
}

#[test]
fn total_is_available_plus_held() {
    let mut engine = Engine::new();
    engine.process_one(deposit(1, 1, amount(1234, 3))).unwrap();
    engine.process_one(deposit(1, 2, amount(5, 1))).unwrap();
    engine.process_one(withdrawal(1, 3, amount(1, 0))).unwrap();
    engine.process_one(dispute(1, 3)).unwrap();
    engine.process_one(dispute(1, 2)).unwrap();
    let rows = engine.report().unwrap();
    assert_eq!(line(&rows[0]), (1, (234, 3), (15, 1), (1734, 3), false));
    engine.process_one(dispute(1, 1)).unwrap();
    let rows = engine.report().unwrap();
    assert_eq!(line(&rows[0]), (1, (-1000, 3), (2734, 3), (1734, 3), false));
    let account = engine.account(1).unwrap();
    let row = ReportRow::of_account(1, account).unwrap();
    assert_eq!(line(&row), line(&rows[0]));
    let built = ReportRow::new(4, account, amount(77, 0));
    assert_eq!(line(&built), (4, (-1000, 3), (2734, 3), (77, 0), false));
}

#[test]
fn report_without_a_total() {
    let mut engine = Engine::new();
    engine.process_one(deposit(1, 1, amount(MAX_MANTISSA, 0))).unwrap();
    engine.process_one(dispute(1, 1)).unwrap();
    engine.process_one(deposit(1, 2, amount(MAX_MANTISSA, 0))).unwrap();
    assert!(engine.report().is_none());
    assert!(ReportRow::of_account(1, engine.account(1).unwrap()).is_none());
    engine.process_one(deposit(2, 1, amount(1, 0))).unwrap();
    assert!(engine.report().is_none());
}

#[test]
fn process_all_answers_each_record() {
    let records = vec![
        deposit(1, 1, amount(1, 0)),
        deposit(2, 2, amount(2, 0)),
        withdrawal(2, 5, amount(3, 0)),
        deposit(1, 1, amount(7, 0)),
        dispute(1, 1),
        chargeback(1, 1),
        deposit(1, 3, amount(2, 0)),
        resolve(3, 1),
    ];
    let mut engine = Engine::new();
    let answers = engine.process_all(&records);
    assert_eq!(
        answers,
        vec![
            Ok(()),
            Ok(()),
            Err(ProcessingError::InsufficientFounds(5, 2)),
            Err(ProcessingError::DuplicatedTransaction(1, 1)),
            Ok(()),
            Ok(()),
            Err(ProcessingError::AccountLocked(1)),
            Err(ProcessingError::MissingTransaction(1)),
        ]
    );
    let rows = engine.report().unwrap();
    assert_eq!(rows.len(), 3);
    assert_eq!(line(&rows[0]), (1, (0, 0), (0, 0), (0, 0), true));
    assert_eq!(line(&rows[1]), (2, (2, 0), (0, 0), (2, 0), false));
    assert_eq!(line(&rows[2]), (3, (0, 0), (0, 0), (0, 0), false));

    let mut stepwise = Engine::new();
    for (record, answer) in records.iter().zip(answers.iter()) {
        assert_eq!(&stepwise.process_one(*record), answer);
    }
    assert_eq!(
        snapshot(stepwise.account(1).unwrap()),
        snapshot(engine.account(1).unwrap())
    );
    assert!(engine.process_all(&Vec::new()).is_empty());
    assert_eq!(engine.len(), 3);
}
