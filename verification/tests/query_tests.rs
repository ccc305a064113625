use ceresdb_client::ColumnSchema;
use ceresdb_client::DataType;
use ceresdb_client::Schema;
use ceresdb_client::SqlQueryRequest;
use ceresdb_client::SqlQueryResponse;
use ceresdb_client::Value;

fn ts_v_schema() -> Schema {
    Schema::new(vec![
        ColumnSchema::new(String::from("ts"), DataType::Timestamp),
        ColumnSchema::new(String::from("v"), DataType::Int32),
    ])
}

fn one_row_response() -> SqlQueryResponse {
    let rows = vec![vec![Value::Timestamp(1_700_000_000_000), Value::Int32(42)]];
    SqlQueryResponse::new(ts_v_schema(), rows, 0).expect("rows match the schema")
}

fn three_row_response() -> SqlQueryResponse {
    let rows = vec![
        vec![Value::Timestamp(1), Value::Int32(10)],
        vec![Value::Timestamp(2), Value::Int32(20)],
        vec![Value::Timestamp(3), Value::Int32(30)],
    ];
    SqlQueryResponse::new(ts_v_schema(), rows, 0).expect("rows match the schema")
}

#[test]
fn sql_query_request_keeps_tables_and_sql() {
    let req = SqlQueryRequest::new(
        vec![String::from("cpu"), String::from("mem")],
        String::from("SELECT * FROM cpu"),
    );
    assert_eq!(req.tables().len(), 2);
    assert_eq!(req.tables()[0], "cpu");
    assert_eq!(req.tables()[1], "mem");
    assert_eq!(req.sql(), "SELECT * FROM cpu");
}

#[test]
fn schema_lookup_by_name_and_index() {
    let schema = ts_v_schema();
    assert_eq!(schema.num_columns(), 2);
    assert_eq!(schema.column_index("ts"), Some(0));
    assert_eq!(schema.column_index("v"), Some(1));
    assert_eq!(schema.column_index("missing"), None);
    assert_eq!(schema.column_index("V"), None);
    let c = schema.column_at(1).expect("index 1 is in range");
    assert_eq!(c.name(), "v");
    assert_eq!(c.data_type(), DataType::Int32);
    assert!(schema.column_at(2).is_none());
}

#[test]
fn schema_name_lookup_returns_the_first_match() {
    let schema = Schema::new(vec![
        ColumnSchema::new(String::from("dup"), DataType::Int32),
        ColumnSchema::new(String::from("dup"), DataType::Int64),
    ]);
    assert_eq!(schema.column_index("dup"), Some(0));
}

#[test]
fn response_rejects_rows_of_the_wrong_width() {
    let rows = vec![vec![Value::Timestamp(1)]];
    assert!(SqlQueryResponse::new(ts_v_schema(), rows, 0).is_none());
}

#[test]
fn one_row_scenario() {
    let resp = one_row_response();
    assert_eq!(resp.num_rows(), 1);
    assert_eq!(resp.affected_rows(), 0);
    let row = resp.row_by_idx(0).expect("row 0 exists");
    let col = row.column("v").expect("column v exists");
    assert_eq!(*col.value(), Value::Int32(42));
    assert!(resp.row_by_idx(1).is_none());
}

#[test]
fn column_views_report_name_type_and_value() {
    let resp = one_row_response();
    let row = resp.row_by_idx(0).expect("row 0 exists");
    let ts = row.column_by_idx(0).expect("column 0 exists");
    assert_eq!(ts.name(), "ts");
    assert_eq!(ts.data_type(), DataType::Timestamp);
    assert_eq!(*ts.value(), Value::Timestamp(1_700_000_000_000));
    let v = row.column_by_idx(1).expect("column 1 exists");
    assert_eq!(v.name(), "v");
    assert_eq!(v.data_type(), DataType::Int32);
    assert_eq!(*v.value(), Value::Int32(42));
}

#[test]
fn lookups_out_of_bounds_yield_absence() {
    let resp = one_row_response();
    let row = resp.row_by_idx(0).expect("row 0 exists");
    assert!(row.column_by_idx(2).is_none());
    assert!(row.column("w").is_none());
    assert!(row.column("").is_none());
}

#[test]
fn schema_accessor_matches_the_given_schema() {
    let resp = one_row_response();
    let schema = resp.schema();
    assert_eq!(schema.num_columns(), 2);
    assert_eq!(schema.column_index("ts"), Some(0));
}

#[test]
fn row_enumeration_is_in_position_order_and_restartable() {
    let resp = three_row_response();
    assert_eq!(resp.num_rows(), 3);

    let mut seen: Vec<i64> = Vec::new();
    let mut it = resp.iter_rows();
    while let Some(row) = it.next() {
        match row.column("ts").expect("ts exists").value() {
            Value::Timestamp(ms) => seen.push(*ms),
            other => panic!("unexpected variant: {other:?}"),
        }
    }
    assert_eq!(seen, vec![1, 2, 3]);
    assert!(it.next().is_none());

    // A fresh enumeration over the same response yields the same rows.
    let mut seen_again: Vec<i64> = Vec::new();
    let mut it2 = resp.iter_rows();
    while let Some(row) = it2.next() {
        match row.column("ts").expect("ts exists").value() {
            Value::Timestamp(ms) => seen_again.push(*ms),
            other => panic!("unexpected variant: {other:?}"),
        }
    }
    assert_eq!(seen, seen_again);
}

#[test]
fn all_rows_yields_num_rows_views() {
    let resp = three_row_response();
    let rows = resp.all_rows();
    assert_eq!(rows.len(), 3);
    for (i, row) in rows.iter().enumerate() {
        match row.column("v").expect("v exists").value() {
            Value::Int32(v) => assert_eq!(*v as usize, (i + 1) * 10),
            other => panic!("unexpected variant: {other:?}"),
        }
    }
}

#[test]
fn column_enumeration_is_in_position_order_and_restartable() {
    let resp = one_row_response();
    let row = resp.row_by_idx(0).expect("row 0 exists");
    assert_eq!(row.num_cols(), 2);

    let mut names: Vec<String> = Vec::new();
    let mut it = row.iter_columns();
    while let Some(col) = it.next() {
        names.push(col.name().clone());
    }
    assert_eq!(names, vec![String::from("ts"), String::from("v")]);
    assert!(it.next().is_none());

    let cols = row.all_columns();
    assert_eq!(cols.len(), 2);
    assert_eq!(cols[0].name(), "ts");
    assert_eq!(cols[1].name(), "v");
}

#[test]
fn every_variant_survives_the_trip_through_a_response() {
    let schema = Schema::new(vec![
        ColumnSchema::new(String::from("name"), DataType::String),
        ColumnSchema::new(String::from("payload"), DataType::Varbinary),
        ColumnSchema::new(String::from("ratio"), DataType::Double),
        ColumnSchema::new(String::from("flag"), DataType::Boolean),
        ColumnSchema::new(String::from("missing"), DataType::Null),
    ]);
    let rows = vec![vec![
        Value::String(String::from("cpu-0")),
        Value::Varbinary(vec![0xde, 0xad]),
        Value::Double(0.75f64.to_bits()),
        Value::Boolean(true),
        Value::Null,
    ]];
    let resp = SqlQueryResponse::new(schema, rows, 0).expect("rows match the schema");
    let row = resp.row_by_idx(0).expect("row 0 exists");
    assert_eq!(*row.column("name").unwrap().value(), Value::String(String::from("cpu-0")));
    assert_eq!(*row.column("payload").unwrap().value(), Value::Varbinary(vec![0xde, 0xad]));
    assert_eq!(*row.column("ratio").unwrap().value(), Value::Double(0.75f64.to_bits()));
    assert_eq!(*row.column("flag").unwrap().value(), Value::Boolean(true));
    assert_eq!(*row.column("missing").unwrap().value(), Value::Null);
    assert_eq!(row.column("flag").unwrap().data_type(), DataType::Boolean);
    assert_eq!(row.column("missing").unwrap().data_type(), DataType::Null);
}

#[test]
fn views_stay_valid_after_the_response_is_dropped() {
    let col = {
        let resp = one_row_response();
        let row = resp.row_by_idx(0).expect("row 0 exists");
        row.column("v").expect("column v exists")
    };
    assert_eq!(*col.value(), Value::Int32(42));
}

#[test]
fn empty_response_has_no_rows() {
    let resp = SqlQueryResponse::new(ts_v_schema(), Vec::new(), 7).expect("no rows to check");
    assert_eq!(resp.num_rows(), 0);
    assert_eq!(resp.affected_rows(), 7);
    assert!(resp.row_by_idx(0).is_none());
    let mut it = resp.iter_rows();
    assert!(it.next().is_none());
}
