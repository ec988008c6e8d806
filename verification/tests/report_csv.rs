use csv::{ReaderBuilder, StringRecord, Trim, Writer};
use payments_engine::amount::Amount;
use payments_engine::engine::Engine;
use payments_engine::models::{OperationType, Transaction};
use rust_decimal::Decimal;

fn operation(kind: &str) -> OperationType {
    match kind {
        "deposit" => OperationType::Deposit,
        "withdrawal" => OperationType::Withdrawal,
        "dispute" => OperationType::Dispute,
        "resolve" => OperationType::Resolve,
        "chargeback" => OperationType::Chargeback,
        other => panic!("unknown operation {other}"),
    }
}

fn decode(record: &StringRecord) -> Transaction {
    let (kind, client_id, id, amount) = if record.len() > 3 {
        let fields: (String, u16, u32, Option<Decimal>) = record.deserialize(None).unwrap();
        fields
    } else {
        let fields: (String, u16, u32) = record.deserialize(None).unwrap();
        (fields.0, fields.1, fields.2, None)
    };
    Transaction {
        operation: operation(&kind),
        client_id,
        id,
        amount: amount.map(|number| Amount::new(number.mantissa(), number.scale()).unwrap()),
    }
}

fn decimal(amount: Amount) -> Decimal {
    Decimal::from_i128_with_scale(amount.mantissa(), amount.scale())
}

fn run_test(input: &str) -> String {
    let mut reader = ReaderBuilder::new()
        .flexible(true)
        .trim(Trim::All)
        .from_reader(input.as_bytes());

    let mut engine = Engine::new();
    for line in reader.records() {
        let transaction = decode(&line.unwrap());
        if let Err(e) = engine.process_one(transaction) {
            println!("Processing error: {e:?}");
        }
    }

    let mut writer = Writer::from_writer(Vec::new());
    writer
        .write_record(["client", "available", "held", "total", "locked"])
        .unwrap();
    for row in engine.report().unwrap() {
        writer
            .serialize((
                row.client_id,
                decimal(row.available),
                decimal(row.held),
                decimal(row.total),
                row.locked,
            ))
            .unwrap();
    }
    writer.flush().unwrap();

    String::from_utf8_lossy(&writer.into_inner().unwrap()).into_owned()
}

#[test]
fn simple_input() {
    let input = "\
        type, client, tx, amount
        deposit, 1, 1, 1.0
        deposit, 2, 2, 2.0
        deposit, 1, 3, 2.0
        withdrawal, 1, 4, 1.5
        withdrawal, 2, 5, 3.0";

    let result = run_test(input);

    assert_eq!(
        result,
        "client,available,held,total,locked\n1,1.5,0,1.5,false\n2,2,0,2,false\n"
    );
}

#[test]
fn more_complex_input() {
    let input = "\
            type, client, tx, amount
            deposit, 1, 1, 1.0
            deposit, 1, 2, 2.0
            dispute, 1, 1
            chargeback, 1, 1
            withdrawal, 1, 3, 1
            deposit, 1, 3, 2.0";

    let result = run_test(input);

    assert_eq!(result, "client,available,held,total,locked\n1,2,0,2,true\n");
}
