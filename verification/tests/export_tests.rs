use clubdata::cell::render_cell;
use clubdata::cell::render_integer;
use clubdata::cell::CellValue;
use clubdata::export::execute_query;
use clubdata::export::export_rows;
use clubdata::export::ExportError;
use rusqlite::Connection;

#[test]
fn test_execute_query() {
    let conn = Connection::open_in_memory().unwrap();
    conn.execute("CREATE TABLE test (id INTEGER, name TEXT)", []).unwrap();
    conn.execute("INSERT INTO test (id, name) VALUES (1, 'Test'), (2, 'Rust')", []).unwrap();

    let out = execute_query(&conn, "SELECT * FROM test").unwrap();

    assert!(out.csv.contains("Test"));
    assert!(out.csv.contains("Rust"));
}

#[test]
fn export_writes_header_then_rows() {
    let conn = Connection::open_in_memory().unwrap();
    conn.execute("CREATE TABLE t (id INTEGER, name TEXT)", []).unwrap();
    conn.execute("INSERT INTO t (id, name) VALUES (1, 'Alice'), (2, NULL)", []).unwrap();

    let out = execute_query(&conn, "SELECT id, name FROM t").unwrap();

    assert_eq!(out.csv, "id,name\n1,Alice\n2,\n");
    assert_eq!(out.header, vec!["id".to_string(), "name".to_string()]);
    assert_eq!(out.rows.len(), 2);
}

#[test]
fn real_values_render_shortest() {
    let conn = Connection::open_in_memory().unwrap();
    conn.execute("CREATE TABLE r (v REAL)", []).unwrap();
    conn.execute("INSERT INTO r (v) VALUES (3.14)", []).unwrap();

    let out = execute_query(&conn, "SELECT v FROM r").unwrap();

    assert_eq!(out.csv, "v\n3.14\n");
}

#[test]
fn preparation_failure_is_reported() {
    let conn = Connection::open_in_memory().unwrap();
    let err = execute_query(&conn, "SELECT id FROM no_such_table").unwrap_err();
    assert_eq!(err, ExportError::QueryPreparation);

    let err = execute_query(&conn, "THIS IS NOT SQL").unwrap_err();
    assert_eq!(err, ExportError::QueryPreparation);
}

#[test]
fn midstream_failure_is_row_fetch() {
    let conn = Connection::open_in_memory().unwrap();
    // The statement compiles, but evaluating the malformed JSON fails while
    // the cursor advances, mid-stream.
    let err = execute_query(&conn, "SELECT json_extract('{', '$')").unwrap_err();
    assert_eq!(err, ExportError::RowFetch);
}

#[test]
fn null_renders_empty_and_stays_distinct() {
    assert_eq!(render_cell(&CellValue::Null), "");
    assert_eq!(render_cell(&CellValue::Integer(0)), "0");
    assert_eq!(render_cell(&CellValue::Text("null".to_string())), "null");
    assert_ne!(render_cell(&CellValue::Null), render_cell(&CellValue::Integer(0)));
    assert_ne!(render_cell(&CellValue::Null), render_cell(&CellValue::Text("null".to_string())));
}

#[test]
fn empty_reimported_field_is_absent_not_zero() {
    let csv = export_rows(
        &vec!["name".to_string(), "note".to_string()],
        &vec![vec![CellValue::Text("Ada".to_string()), CellValue::Null]],
    );
    let mut reader = csv::ReaderBuilder::new().has_headers(false).from_reader(csv.as_bytes());
    let records: Vec<csv::StringRecord> = reader.records().map(|r| r.unwrap()).collect();
    assert_eq!(records.len(), 2);
    assert_eq!(&records[1][0], "Ada");
    assert_eq!(&records[1][1], "");
    assert_ne!(&records[1][1], "0");
    assert_ne!(&records[1][1], "null");
}

#[test]
fn lone_empty_field_is_quoted() {
    let csv = export_rows(&vec![String::new()], &vec![vec![CellValue::Null]]);
    assert_eq!(csv, "\"\"\n\"\"\n");
}

#[test]
fn integer_rendering_is_canonical() {
    assert_eq!(render_integer(0), "0");
    assert_eq!(render_integer(42), "42");
    assert_eq!(render_integer(-7), "-7");
    assert_eq!(render_integer(1000000), "1000000");
    assert_eq!(render_integer(i64::MAX), "9223372036854775807");
    assert_eq!(render_integer(i64::MIN), "-9223372036854775808");
}

#[test]
fn blob_renders_lossy_text() {
    assert_eq!(render_cell(&CellValue::Blob(b"hello".to_vec())), "hello");
    assert_eq!(render_cell(&CellValue::Blob(vec![0xff, 0x68, 0x69])), "\u{FFFD}hi");
}

#[test]
fn special_fields_are_quoted_per_csv_rules() {
    let csv = export_rows(
        &vec!["a".to_string(), "b".to_string()],
        &vec![vec![
            CellValue::Text("x,y".to_string()),
            CellValue::Text("say \"hi\"\nthere".to_string()),
        ]],
    );
    assert_eq!(csv, "a,b\n\"x,y\",\"say \"\"hi\"\"\nthere\"\n");
}

#[test]
fn reparsing_recovers_rows_and_column_order() {
    let conn = Connection::open_in_memory().unwrap();
    conn.execute("CREATE TABLE rt (id INTEGER, name TEXT, note TEXT)", []).unwrap();
    conn.execute(
        "INSERT INTO rt (id, name, note) VALUES \
         (1, 'plain', 'a,b'), (2, NULL, 'quote \" here'), (3, 'line', 'x')",
        [],
    )
    .unwrap();

    let out = execute_query(&conn, "SELECT id, name, note FROM rt").unwrap();

    let mut reader = csv::ReaderBuilder::new()
        .has_headers(false)
        .from_reader(out.csv.as_bytes());
    let records: Vec<csv::StringRecord> = reader.records().map(|r| r.unwrap()).collect();

    assert_eq!(records.len(), 1 + out.rows.len());
    let header: Vec<&str> = records[0].iter().collect();
    assert_eq!(header, vec!["id", "name", "note"]);
    let row1: Vec<&str> = records[1].iter().collect();
    assert_eq!(row1, vec!["1", "plain", "a,b"]);
    let row2: Vec<&str> = records[2].iter().collect();
    assert_eq!(row2, vec!["2", "", "quote \" here"]);
}

#[test]
fn configuration_values_carry_through() {
    let config = clubdata::config::Config {
        transformations: vec![clubdata::config::Transformation {
            name: "transform1".to_string(),
            description: "Description of transform1".to_string(),
            rule: "rule1".to_string(),
        }],
        queries: vec![clubdata::config::Query {
            name: "query1".to_string(),
            description: "Description of query1".to_string(),
            sql: "SELECT * FROM table1".to_string(),
        }],
    };
    assert_eq!(config.transformations.len(), 1);
    assert_eq!(config.transformations[0].name, "transform1");
    assert_eq!(config.queries.len(), 1);
    assert_eq!(config.queries[0].sql, "SELECT * FROM table1");
}
