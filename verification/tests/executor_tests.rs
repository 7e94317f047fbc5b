use goobie_mysql::error::{ErrorShape, IoKind};
use goobie_mysql::executor::{execute_query, DriverSuccess};
use goobie_mysql::query::QueryType;
use goobie_mysql::result::{QueryResult, RawCell, RawColumn, Value};

#[test]
fn run_discards_the_metadata() {
    let outcome = Ok(DriverSuccess::Info { rows_affected: 3, last_insert_id: 42 });
    assert!(matches!(execute_query(QueryType::Run, outcome), Ok(QueryResult::Run)));
}

#[test]
fn execute_keeps_the_metadata() {
    let outcome = Ok(DriverSuccess::Info { rows_affected: 3, last_insert_id: 42 });
    match execute_query(QueryType::Execute, outcome) {
        Ok(QueryResult::Execute { rows_affected, last_insert_id }) => {
            assert_eq!(rows_affected, 3);
            assert_eq!(last_insert_id, 42);
        },
        other => panic!("unexpected result: {:?}", other),
    }
}

#[test]
fn fetch_all_of_zero_rows_is_a_success_with_an_empty_sequence() {
    let outcome = Ok(DriverSuccess::Rows(Vec::new()));
    match execute_query(QueryType::FetchAll, outcome) {
        Ok(QueryResult::Rows(Ok(rows))) => assert!(rows.is_empty()),
        other => panic!("unexpected result: {:?}", other),
    }
}

#[test]
fn fetch_one_of_zero_rows_is_a_success_with_no_row() {
    let outcome = Ok(DriverSuccess::Row(None));
    match execute_query(QueryType::FetchOne, outcome) {
        Ok(QueryResult::Row(Ok(None))) => {},
        other => panic!("unexpected result: {:?}", other),
    }
}

#[test]
fn fetch_one_converts_the_row() {
    let row = vec![RawColumn {
        name: String::from("id"),
        declared_type: String::from("BIGINT"),
        cell: RawCell::I64(9),
    }];
    let outcome = Ok(DriverSuccess::Row(Some(row)));
    match execute_query(QueryType::FetchOne, outcome) {
        Ok(QueryResult::Row(Ok(Some(vals)))) => {
            assert_eq!(vals.len(), 1);
            assert_eq!(vals[0].column_name, "id");
            assert_eq!(vals[0].value, Value::I64(9));
        },
        other => panic!("unexpected result: {:?}", other),
    }
}

#[test]
fn fetch_all_converts_every_row_in_order() {
    let mk = |n: i32| {
        vec![RawColumn {
            name: String::from("n"),
            declared_type: String::from("INT"),
            cell: RawCell::I32(n),
        }]
    };
    let outcome = Ok(DriverSuccess::Rows(vec![mk(1), mk(2), mk(3)]));
    match execute_query(QueryType::FetchAll, outcome) {
        Ok(QueryResult::Rows(Ok(rows))) => {
            assert_eq!(rows.len(), 3);
            assert_eq!(rows[0][0].value, Value::I32(1));
            assert_eq!(rows[1][0].value, Value::I32(2));
            assert_eq!(rows[2][0].value, Value::I32(3));
        },
        other => panic!("unexpected result: {:?}", other),
    }
}

#[test]
fn a_conversion_failure_stays_inside_the_success() {
    let row = vec![RawColumn {
        name: String::from("flags"),
        declared_type: String::from("BIT"),
        cell: RawCell::Bytes(Vec::new()),
    }];
    let outcome = Ok(DriverSuccess::Row(Some(row)));
    match execute_query(QueryType::FetchOne, outcome) {
        Ok(QueryResult::Row(Err(m))) => assert!(m.starts_with("BIT type is not supported")),
        other => panic!("unexpected result: {:?}", other),
    }
}

#[test]
fn a_driver_failure_passes_through() {
    let outcome = Err(ErrorShape::Io {
        kind: IoKind::BrokenPipe,
        message: String::from("broken pipe"),
    });
    match execute_query(QueryType::FetchAll, outcome) {
        Err(ErrorShape::Io { kind: IoKind::BrokenPipe, message }) => {
            assert_eq!(message, "broken pipe");
        },
        other => panic!("unexpected result: {:?}", other),
    }
}
