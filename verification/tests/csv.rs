use rust_decimal::Decimal;
use serde::ser::SerializeStruct;
use std::io::Cursor;
use tx_engine::account::{Account, Operation};
use tx_engine::amount::Amount;
use tx_engine::csv::{CsvReaderBuilder, CsvWriterBuilder};
use tx_engine::deser::{OutRecord, Record};

// A row as the reader hands it over: command, client, transaction, amount.
type Row = (String, u16, u32, Option<Decimal>);

fn record(row: Row) -> Record {
    Record {
        command: row.0,
        client: row.1,
        tx: row.2,
        amount: row.3.map(|d| Amount::from_parts(d.mantissa(), d.scale()).unwrap()),
    }
}

#[test]
#[should_panic]
fn test_csv_read_negative_numbers() {
    let data = "type,client,tx,amount\ndeposit,1,-2,";
    let mut rdr = CsvReaderBuilder::new(Cursor::new(data)).build();
    let _: Row = rdr.deserialize().next().unwrap().unwrap();
}

#[test]
fn test_csv_read_ok() {
    let data = "type,client,tx,amount\ndeposit, 1000, 2, 1.2";
    let mut rdr = CsvReaderBuilder::new(Cursor::new(data)).build();
    let row: Row = rdr.deserialize().next().unwrap().unwrap();
    let record = record(row);
    assert_eq!(record.client, 1_000);
    assert_eq!(record.tx, 2);
    assert_eq!(record.amount, Some(Amount::new(12, 1)));
}

#[test]
#[should_panic]
fn test_csv_read_huge_client_id() {
    let data = "type,client,tx,amount\ndeposit, 100000, 2, 1.2";
    let mut rdr = CsvReaderBuilder::new(Cursor::new(data)).build();
    let _: Row = rdr.deserialize().next().unwrap().unwrap();
}

// Rounding half to even
#[test]
fn test_csv_with_extra_precision() {
    let data = "type,client,tx,amount\ndeposit, 1, 1, 1.23455\ndeposit, 2, 2, 1.23465";
    let mut rdr = CsvReaderBuilder::new(Cursor::new(data)).build();
    let mut rdr_iter = rdr.deserialize();
    let row: Row = rdr_iter.next().unwrap().unwrap();
    let first = record(row);
    assert_eq!(first.client, 1);
    assert_eq!(first.tx, 1);
    assert_eq!(first.amount, Some(Amount::new(12346, 4)));
    let row: Row = rdr_iter.next().unwrap().unwrap();
    let second = record(row);
    assert_eq!(second.client, 2);
    assert_eq!(second.tx, 2);
    assert_eq!(second.amount, Some(Amount::new(12346, 4)));
}

// What goes out for one account, with the amounts as decimals again.
struct OutRow {
    client: u16,
    available: Decimal,
    held: Decimal,
    total: Decimal,
    locked: bool,
}

fn decimal(amount: Amount) -> Decimal {
    Decimal::from_i128_with_scale(amount.mantissa(), amount.scale())
}

fn out_row(record: OutRecord) -> OutRow {
    OutRow {
        client: record.client,
        available: decimal(record.available),
        held: decimal(record.held),
        total: decimal(record.total),
        locked: record.locked,
    }
}

impl serde::Serialize for OutRow {
    fn serialize<S: serde::Serializer>(&self, serializer: S) -> Result<S::Ok, S::Error> {
        let mut row = serializer.serialize_struct("OutRow", 5)?;
        row.serialize_field("client", &self.client)?;
        row.serialize_field("available", &self.available)?;
        row.serialize_field("held", &self.held)?;
        row.serialize_field("total", &self.total)?;
        row.serialize_field("locked", &self.locked)?;
        row.end()
    }
}

#[test]
fn test_csv_write_ok() {
    let mut account = Account::new(7);
    account.execute(Operation::Deposit, Amount::new(25, 1)).unwrap();
    account.execute(Operation::Dispute, Amount::new(1, 0)).unwrap();
    let mut locked = Account::new(8);
    locked.execute(Operation::Deposit, Amount::new(12346, 4)).unwrap();
    locked.execute(Operation::Dispute, Amount::new(12346, 4)).unwrap();
    locked.execute(Operation::Chargeback, Amount::new(12346, 4)).unwrap();

    let (settings, sink) = CsvWriterBuilder::new(Vec::new()).build();
    let mut wtr = settings.from_writer(sink);
    wtr.serialize(out_row(OutRecord::from(&account))).unwrap();
    wtr.serialize(out_row(OutRecord::from(&locked))).unwrap();
    let written = String::from_utf8(wtr.into_inner().unwrap()).unwrap();
    assert_eq!(
        written,
        "client,available,held,total,locked\n\
         7,1.5000,1.0000,2.5000,false\n\
         8,0.0000,0.0000,0.0000,true\n"
    );
}

#[test]
fn out_record_copies_the_account() {
    let account = Account {
        id: 513,
        locked: true,
        total: Amount::new(7, 0),
        available: Amount::new(25, 1),
        held: Amount::new(45, 1),
    };
    let out = OutRecord::from(&account);
    assert_eq!(
        out,
        OutRecord {
            client: 513,
            available: Amount::new(25, 1),
            held: Amount::new(45, 1),
            total: Amount::new(7, 0),
            locked: true,
        }
    );
}

#[test]
fn reader_skips_the_headers_and_trims_white_space() {
    let data = " type ,client, tx,amount\ndeposit, 1 , 1,1.33\ndispute ,1,   1   ,\n";
    let mut rdr = CsvReaderBuilder::new(Cursor::new(data)).build();
    assert_eq!(
        rdr.headers().unwrap().iter().collect::<Vec<&str>>(),
        vec!["type", "client", "tx", "amount"]
    );
    let expected = vec![
        Record {
            command: "deposit".to_string(),
            client: 1,
            tx: 1,
            amount: Some(Amount::new(133, 2)), // 1.33
        },
        Record { command: "dispute".to_string(), client: 1, tx: 1, amount: None },
    ];
    let records: Vec<Record> = rdr.deserialize().map(|row| record(row.unwrap())).collect();
    assert_eq!(records, expected);
}

#[test]
fn reader_over_nothing_but_headers_has_no_record() {
    let data = "type,client,tx,amount\n";
    let mut rdr = CsvReaderBuilder::new(Cursor::new(data)).build();
    assert_eq!(rdr.deserialize::<Row>().count(), 0);
}
