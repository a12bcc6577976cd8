use airline_db::decimal::parse_decimal;
use airline_db::{
    coerce_record, create_table, create_table_sql, decode_row, decode_rows, drop_table,
    drop_table_sql, insert_sql, load_data_from_csv, load_records, plan_load, query_exec, Cell,
    DecodeError, LoadError, QueryError, RecordError, RecordFault, TableError,
};
use airline_db::{is_valid_table_name, Database};
use rusqlite::Connection;

fn open() -> Database {
    Database::new(Connection::open_in_memory().expect("in-memory database"))
}

fn table_present(conn: &Connection, name: &str) -> bool {
    conn.prepare("SELECT name FROM sqlite_master WHERE type='table' AND name=?")
        .unwrap()
        .exists([name])
        .unwrap()
}

fn count(conn: &Connection, name: &str) -> i64 {
    conn.query_row(&format!("SELECT COUNT(*) FROM {}", name), [], |r| r.get(0))
        .unwrap()
}

fn rec(fields: &[&str]) -> Vec<String> {
    fields.iter().map(|s| s.to_string()).collect()
}

#[test]
fn create_twice_succeeds_and_table_exists() {
    let mut db = open();
    assert!(create_table(&mut db, "flights").is_ok());
    assert!(table_present(&db.conn, "flights"));
    assert!(create_table(&mut db, "flights").is_ok());
    assert!(table_present(&db.conn, "flights"));
}

#[test]
fn drop_of_absent_table_succeeds() {
    let mut db = open();
    assert!(drop_table(&mut db, "never_made").is_ok());
    assert!(drop_table(&mut db, "never_made").is_ok());
}

#[test]
fn malformed_names_are_refused_before_any_statement() {
    let mut db = open();
    create_table(&mut db, "other").unwrap();
    let hostile = "a; DROP TABLE other";
    assert!(matches!(drop_table(&mut db, hostile), Err(TableError::InvalidName)));
    assert!(table_present(&db.conn, "other"));
    let hostile = "t(x INT); DROP TABLE other; --";
    assert!(matches!(create_table(&mut db, hostile), Err(TableError::InvalidName)));
    assert!(table_present(&db.conn, "other"));
    assert!(matches!(create_table(&mut db, "bad name here"), Err(TableError::InvalidName)));
    assert!(matches!(create_table(&mut db, ""), Err(TableError::InvalidName)));
    assert!(matches!(create_table(&mut db, "9lives"), Err(TableError::InvalidName)));
    assert!(matches!(drop_table(&mut db, "caf\u{e9}"), Err(TableError::InvalidName)));
    let data = b"Air A,1,1,0,0,0,0,0\n".to_vec();
    assert!(matches!(
        load_data_from_csv(&mut db, "other; --", &data),
        Err(LoadError::InvalidName)
    ));
    assert_eq!(count(&db.conn, "other"), 0);
}

#[test]
fn table_names_of_the_identifier_form_are_accepted() {
    assert!(is_valid_table_name("flights"));
    assert!(is_valid_table_name("_t9"));
    assert!(is_valid_table_name("Test_Airline_Data"));
    assert!(!is_valid_table_name("t-1"));
    assert!(!is_valid_table_name("1t"));
    assert!(!is_valid_table_name(""));
}

#[test]
fn reserved_word_as_name_is_a_storage_error() {
    let mut db = open();
    assert!(matches!(create_table(&mut db, "select"), Err(TableError::Storage(_))));
}

#[test]
fn load_inserts_every_well_formed_record_in_order() {
    let mut db = open();
    create_table(&mut db, "t").unwrap();
    let data = b"Air A,1000000,1,0,0,0,0,0\nAir B,2000000,2,1,5,0,0,0\n\"Air, C\",3,-4,0,0,0,0,7\n".to_vec();
    assert_eq!(load_data_from_csv(&mut db, "t", &data).unwrap(), 3);
    let rows = query_exec(&mut db, "SELECT * FROM t").unwrap();
    assert_eq!(rows.len(), 3);
    assert_eq!(rows[0].id, 1);
    assert_eq!(rows[1].id, 2);
    assert_eq!(rows[2].id, 3);
    assert_eq!(rows[0].incident.airline, "Air A");
    assert_eq!(rows[0].incident.avail_seat_km_per_week, 1000000);
    assert_eq!(rows[1].incident.fatalities_85_99, 5);
    assert_eq!(rows[2].incident.airline, "Air, C");
    assert_eq!(rows[2].incident.incidents_85_99, -4);
    assert_eq!(rows[2].incident.fatalities_00_14, 7);
}

#[test]
fn flights_scenario_keeps_rows_before_bad_record() {
    let mut db = open();
    create_table(&mut db, "flights").unwrap();
    let data = b"Air A,1000000,1,0,0,0,0,0\nAir B,2000000,2,1,5,0,0,0\nAir C,bad,0,0,0,0,0,0\n".to_vec();
    match load_data_from_csv(&mut db, "flights", &data) {
        Err(LoadError::Record(f)) => {
            assert_eq!(f, RecordFault { record: 3, error: RecordError::NotInteger { field: 1 } })
        }
        other => panic!("unexpected outcome: {:?}", other),
    }
    let rows = query_exec(&mut db, "SELECT * FROM flights").unwrap();
    assert_eq!(rows.len(), 2);
    assert_eq!((rows[0].id, rows[0].incident.airline.as_str()), (1, "Air A"));
    assert_eq!((rows[1].id, rows[1].incident.airline.as_str()), (2, "Air B"));
    assert_eq!(rows[1].incident.avail_seat_km_per_week, 2000000);
    assert_eq!(rows[1].incident.fatal_accidents_85_99, 1);
}

#[test]
fn drop_create_then_count_is_zero() {
    let mut db = open();
    drop_table(&mut db, "t").unwrap();
    create_table(&mut db, "t").unwrap();
    assert_eq!(count(&db.conn, "t"), 0);
    assert_eq!(query_exec(&mut db, "SELECT * FROM t").unwrap().len(), 0);
    match query_exec(&mut db, "SELECT COUNT(*) FROM t") {
        Err(QueryError::Decode(d)) => {
            assert_eq!(d.fault.row, 1);
            assert_eq!(d.fault.error, DecodeError::MissingColumn { column: 1 });
            assert!(d.decoded.is_empty());
        }
        other => panic!("unexpected outcome: {:?}", other.map(|v| v.len())),
    }
}

#[test]
fn load_into_missing_table_is_a_storage_error() {
    let mut db = open();
    let data = b"Air A,1,1,0,0,0,0,0\n".to_vec();
    match load_data_from_csv(&mut db, "absent", &data) {
        Err(LoadError::Storage { record, .. }) => assert_eq!(record, 1),
        other => panic!("unexpected outcome: {:?}", other),
    }
}

#[test]
fn load_of_empty_source_inserts_nothing() {
    let mut db = open();
    create_table(&mut db, "t").unwrap();
    assert_eq!(load_data_from_csv(&mut db, "t", &Vec::new()).unwrap(), 0);
    assert_eq!(count(&db.conn, "t"), 0);
}

#[test]
fn load_with_unequal_record_lengths_is_a_reader_error() {
    let mut db = open();
    create_table(&mut db, "t").unwrap();
    let data = b"Air A,1,1,0,0,0,0,0\nAir B,2\n".to_vec();
    match load_data_from_csv(&mut db, "t", &data) {
        Err(LoadError::Csv { records_read, .. }) => assert_eq!(records_read, 1),
        other => panic!("unexpected outcome: {:?}", other),
    }
    assert_eq!(count(&db.conn, "t"), 1);
}

#[test]
fn load_of_short_records_reports_missing_fields() {
    let mut db = open();
    create_table(&mut db, "t").unwrap();
    let data = b"Air A,1,1\n".to_vec();
    match load_data_from_csv(&mut db, "t", &data) {
        Err(LoadError::Record(f)) => {
            assert_eq!(f, RecordFault { record: 1, error: RecordError::MissingFields })
        }
        other => panic!("unexpected outcome: {:?}", other),
    }
}

#[test]
fn load_records_appends_on_each_run() {
    let mut db = open();
    create_table(&mut db, "t").unwrap();
    let recs = vec![rec(&["X", "1", "2", "3", "4", "5", "6", "7"])];
    assert_eq!(load_records(&mut db, "t", &recs).unwrap(), 1);
    assert_eq!(load_records(&mut db, "t", &recs).unwrap(), 1);
    let rows = query_exec(&mut db, "SELECT * FROM t").unwrap();
    assert_eq!(rows.len(), 2);
    assert!(rows[0].id < rows[1].id);
}

#[test]
fn coerce_reads_each_field_strictly() {
    let ok = coerce_record(&rec(&["A", "-5", "+2", "3", "4", "5", "6", "7", "extra"])).unwrap();
    assert_eq!(ok.airline, "A");
    assert_eq!(ok.avail_seat_km_per_week, -5);
    assert_eq!(ok.incidents_85_99, 2);
    assert_eq!(ok.fatalities_00_14, 7);
    let e = coerce_record(&rec(&["A", "1", "2", " 3", "4", "5", "6", "7"]));
    assert_eq!(e.err(), Some(RecordError::NotInteger { field: 3 }));
    let e = coerce_record(&rec(&["A", "1", "2", "3", "4", "5", "6", "2147483648"]));
    assert_eq!(e.err(), Some(RecordError::NotInteger { field: 7 }));
    let e = coerce_record(&rec(&["A", "1", "2"]));
    assert_eq!(e.err(), Some(RecordError::MissingFields));
}

#[test]
fn plan_stops_at_first_bad_record() {
    let recs = vec![
        rec(&["A", "1", "0", "0", "0", "0", "0", "0"]),
        rec(&["B", "x", "0", "0", "0", "0", "0", "0"]),
        rec(&["C", "3", "0", "0", "0", "0", "0", "0"]),
    ];
    let (rows, fault) = plan_load(&recs);
    assert_eq!(rows.len(), 1);
    assert_eq!(rows[0].airline, "A");
    assert_eq!(fault, Some(RecordFault { record: 2, error: RecordError::NotInteger { field: 1 } }));
}

#[test]
fn decimal_parsing_edges() {
    assert_eq!(parse_decimal("0", i64::MIN, i64::MAX), Some(0));
    assert_eq!(parse_decimal("+17", i64::MIN, i64::MAX), Some(17));
    assert_eq!(parse_decimal("-9223372036854775808", i64::MIN, i64::MAX), Some(i64::MIN));
    assert_eq!(parse_decimal("9223372036854775807", i64::MIN, i64::MAX), Some(i64::MAX));
    assert_eq!(parse_decimal("9223372036854775808", i64::MIN, i64::MAX), None);
    assert_eq!(parse_decimal("99999999999999999999999", i64::MIN, i64::MAX), None);
    assert_eq!(parse_decimal("", i64::MIN, i64::MAX), None);
    assert_eq!(parse_decimal("-", i64::MIN, i64::MAX), None);
    assert_eq!(parse_decimal("1,000", i64::MIN, i64::MAX), None);
    assert_eq!(parse_decimal("12 ", i64::MIN, i64::MAX), None);
    assert_eq!(parse_decimal("2147483648", -2147483648, 2147483647), None);
    assert_eq!(parse_decimal("-2147483648", -2147483648, 2147483647), Some(-2147483648));
}

#[test]
fn decode_row_checks_shape_in_column_order() {
    let mut cells = vec![
        Cell::Integer(4),
        Cell::Text("Air".to_string()),
        Cell::Integer(10_000_000_000),
    ];
    for v in 1..=6 {
        cells.push(Cell::Integer(v));
    }
    let row = decode_row(&cells).unwrap();
    assert_eq!(row.id, 4);
    assert_eq!(row.incident.airline, "Air");
    assert_eq!(row.incident.avail_seat_km_per_week, 10_000_000_000);
    assert_eq!(row.incident.incidents_85_99, 1);
    assert_eq!(row.incident.fatalities_00_14, 6);

    let mut wrong = cells.clone();
    wrong[1] = Cell::Integer(3);
    assert_eq!(decode_row(&wrong).err(), Some(DecodeError::WrongType { column: 1 }));
    let mut wide = cells.clone();
    wide[3] = Cell::Integer(1 << 40);
    assert_eq!(decode_row(&wide).err(), Some(DecodeError::OutOfRange { column: 3 }));
    let mut real = cells.clone();
    real[8] = Cell::Real;
    assert_eq!(decode_row(&real).err(), Some(DecodeError::WrongType { column: 8 }));
    let short = vec![Cell::Integer(1), Cell::Text("x".to_string())];
    assert_eq!(decode_row(&short).err(), Some(DecodeError::MissingColumn { column: 2 }));
    let nulls = vec![Cell::Null];
    assert_eq!(decode_row(&nulls).err(), Some(DecodeError::WrongType { column: 0 }));

    match decode_rows(&vec![cells.clone(), short]) {
        Err(d) => {
            assert_eq!(d.fault.row, 2);
            assert_eq!(d.fault.error, DecodeError::MissingColumn { column: 2 });
            assert_eq!(d.decoded.len(), 1);
            assert_eq!(d.decoded[0].id, 4);
        }
        Ok(_) => panic!("second row should not decode"),
    }
}

#[test]
fn statements_name_the_table() {
    assert!(create_table_sql("flights").starts_with("CREATE TABLE IF NOT EXISTS flights ("));
    assert!(create_table_sql("flights").contains("fatalities_00_14 INTEGER NOT NULL"));
    assert_eq!(drop_table_sql("flights"), "DROP TABLE IF EXISTS flights");
    assert!(insert_sql("flights").starts_with("INSERT INTO flights (airline,"));
    assert!(insert_sql("flights").ends_with("VALUES (?, ?, ?, ?, ?, ?, ?, ?)"));
}

#[test]
fn records_after_bad_one_are_not_attempted() {
    let mut db = open();
    create_table(&mut db, "t").unwrap();
    let data = b"A,1,0,0,0,0,0,0\nB,2,0,0,0,0,0,0\nC,3,0,0,zero,0,0,0\nD,4,0,0,0,0,0,0\n".to_vec();
    match load_data_from_csv(&mut db, "t", &data) {
        Err(LoadError::Record(f)) => {
            assert_eq!(f, RecordFault { record: 3, error: RecordError::NotInteger { field: 4 } })
        }
        other => panic!("unexpected outcome: {:?}", other),
    }
    let rows = query_exec(&mut db, "SELECT * FROM t").unwrap();
    let names: Vec<&str> = rows.iter().map(|r| r.incident.airline.as_str()).collect();
    assert_eq!(names, vec!["A", "B"]);
}
