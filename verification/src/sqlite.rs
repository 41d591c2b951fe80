//! Trusted declarations for the relational store.
//!
//! The store is an external collaborator: these items declare the handful of
//! `rusqlite` types and calls the export engine needs. What a query returns
//! depends on the database, so nothing is promised of the values that come
//! back; the verified engine states what holds of whatever arrives.

use vstd::prelude::*;
use crate::cell::CellValue;

verus! {

#[verifier::external_type_specification]
#[verifier::external_body]
pub struct ExConnection(rusqlite::Connection);

#[verifier::external_type_specification]
#[verifier::external_body]
pub struct ExStatement<'conn>(rusqlite::Statement<'conn>);

#[verifier::external_type_specification]
#[verifier::external_body]
pub struct ExRows<'stmt>(rusqlite::Rows<'stmt>);

#[verifier::external_type_specification]
#[verifier::external_body]
pub struct ExRow<'stmt>(rusqlite::Row<'stmt>);

#[verifier::external_type_specification]
#[verifier::external_body]
pub struct ExSqlError(rusqlite::Error);

/// Relies on `Connection::prepare`: compiles the query, or fails on
/// malformed SQL or a missing schema object.
#[verifier::external_body]
pub(crate) fn prepare<'c>(conn: &'c rusqlite::Connection, sql: &str) -> (r: Result<
    rusqlite::Statement<'c>,
    rusqlite::Error,
>) {
    conn.prepare(sql)
}

/// Relies on `Statement::column_names`: the result column names of the
/// prepared statement, in column order, from its metadata.
#[verifier::external_body]
pub(crate) fn column_names(stmt: &rusqlite::Statement<'_>) -> (r: Vec<String>) {
    stmt.column_names().iter().map(|name| name.to_string()).collect()
}

/// Relies on `Statement::query` with no parameters: starts the row cursor.
#[verifier::external_body]
pub(crate) fn start_query<'s>(stmt: &'s mut rusqlite::Statement<'_>) -> (r: Result<
    rusqlite::Rows<'s>,
    rusqlite::Error,
>) {
    stmt.query([])
}

/// Relies on `Rows::next`: advances the cursor one row; `None` when the
/// result set is exhausted, an error on a mid-stream fetch failure.
#[verifier::external_body]
pub(crate) fn next_row<'a, 's>(rows: &'a mut rusqlite::Rows<'s>) -> (r: Result<
    Option<&'a rusqlite::Row<'s>>,
    rusqlite::Error,
>) {
    rows.next()
}

/// Relies on `Row::get_ref`: the runtime type tag and value of one cell.
/// Each storage tag moves to the matching `CellValue` tag: a floating point
/// value as its `Display` text, which is the shortest round-trippable
/// decimal; a text value decoded from UTF-8 with invalid sequences replaced;
/// a blob as its raw bytes.
#[verifier::external_body]
pub(crate) fn read_cell(row: &rusqlite::Row<'_>, i: usize) -> (r: Result<
    CellValue,
    rusqlite::Error,
>) {
    match row.get_ref(i) {
        Ok(rusqlite::types::ValueRef::Null) => Ok(CellValue::Null),
        Ok(rusqlite::types::ValueRef::Integer(v)) => Ok(CellValue::Integer(v)),
        Ok(rusqlite::types::ValueRef::Real(v)) => Ok(CellValue::Real(v.to_string())),
        Ok(rusqlite::types::ValueRef::Text(t)) => Ok(CellValue::Text(
            String::from_utf8_lossy(t).into_owned(),
        )),
        Ok(rusqlite::types::ValueRef::Blob(b)) => Ok(CellValue::Blob(b.to_vec())),
        Err(e) => Err(e),
    }
}

} // verus!
