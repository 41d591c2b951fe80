//! The export engine: a read query streamed to CSV text.
//!
//! The engine prepares the query, takes the ordered column names from the
//! statement metadata, advances a cursor one row at a time, renders every
//! cell by its type tag, and delegates CSV framing to the external CSV
//! writer, whose emitted text is stated exactly in [`crate::csvenc`]. The
//! result ties the produced text to the header and rows that were read, so a
//! caller holding the output holds exactly the CSV of those rows.

use vstd::prelude::*;
use crate::cell::CellValue;
use crate::cell::render_cell;
use crate::cell::cell_text;
use crate::csvenc::csv_text;
use crate::csvenc::record_text;
use crate::csvenc::records_text;
use crate::csvenc::row_fields;
use crate::csvenc::lemma_records_text_push;

verus! {

/// Why an export failed. The engine surfaces every failure as a result and
/// never panics.
#[derive(Clone, Copy, Debug, PartialEq, Eq, Structural)]
pub enum ExportError {
    /// The query could not be compiled: malformed SQL or a missing schema
    /// object. Nothing was read and no output exists.
    QueryPreparation,
    /// The destination could not be created. Raised by the surrounding
    /// driver, never by the in-memory engine.
    SinkCreation,
    /// A row could not be fetched mid-stream; any partial output is to be
    /// discarded.
    RowFetch,
}

/// A finished export: the column names, the rows that were read, and the
/// CSV text rendered from exactly those.
#[derive(Debug)]
pub struct ExportOutput {
    /// The result column names, in column order.
    pub header: Vec<String>,
    /// The rows, one vector of cells per row, in column order.
    pub rows: Vec<Vec<CellValue>>,
    /// The CSV text: the header record, then one record per row.
    pub csv: String,
}

#[verifier::external_type_specification]
#[verifier::external_body]
pub struct ExCsvError(csv::Error);

/// An external CSV writer over an in-memory buffer. The writer's type is
/// generic over its sink, which Verus refuses to declare, so it is held
/// opaquely in a private field instead.
#[verifier::external_body]
pub struct CsvSink {
    writer: csv::Writer<Vec<u8>>,
}

/// The text the CSV writer has produced so far, buffered or already in its
/// in-memory sink.
pub uninterp spec fn written_text(w: CsvSink) -> Seq<char>;

/// The field count the writer holds every record to: `None` until a first
/// record fixes it.
pub uninterp spec fn record_width(w: CsvSink) -> Option<nat>;

/// Relies on `csv::Writer::from_writer` over an empty in-memory buffer, with
/// the default configuration: comma delimiter, double-quote quoting, line
/// feed terminator, records held to one width. Nothing is written yet and no
/// width is fixed.
#[verifier::external_body]
fn new_csv_writer() -> (w: CsvSink)
    ensures
        written_text(w) == Seq::<char>::empty(),
        record_width(w) is None,
{
    CsvSink { writer: csv::Writer::from_writer(Vec::new()) }
}

/// Relies on `csv::Writer::write_record`: a record of the fixed width, or a
/// first record fixing it, passes the writer's length check, and a write to
/// an in-memory sink cannot fail, so the call succeeds and appends the
/// record's framed text.
#[verifier::external_body]
fn csv_write_record(w: &mut CsvSink, fields: &Vec<String>) -> (r: Result<(), csv::Error>)
    requires
        record_width(*old(w)) is None || record_width(*old(w)) == Some(fields@.len()),
    ensures
        r is Ok,
        written_text(*final(w)) == written_text(*old(w)) + record_text(
            fields@.map_values(|s: String| s@),
        ),
        record_width(*final(w)) == Some(fields@.len()),
{
    w.writer.write_record(fields.iter())
}

/// Relies on `csv::Writer::into_inner` and `String::from_utf8_lossy`:
/// flushing to the in-memory buffer cannot fail, and the buffer then holds
/// the UTF-8 bytes of exactly the written text.
#[verifier::external_body]
fn csv_into_string(w: CsvSink) -> (r: String)
    ensures
        r@ == written_text(w),
{
    match w.writer.into_inner() {
        Ok(bytes) => String::from_utf8_lossy(&bytes).into_owned(),
        Err(_) => String::new(),
    }
}

/// Renders one row of cells to field texts, in column order.
fn render_row(row: &Vec<CellValue>) -> (r: Vec<String>)
    ensures
        r@.map_values(|s: String| s@) =~= row_fields(row@),
{
    let mut fields: Vec<String> = Vec::new();
    let mut i: usize = 0;
    while i < row.len()
        invariant
            i <= row@.len(),
            fields@.len() == i,
            forall|j: int| 0 <= j < i ==> fields@[j]@ == cell_text(row@[j]),
        decreases row@.len() - i,
    {
        fields.push(render_cell(&row[i]));
        i += 1;
    }
    fields
}

/// Frames a header and rendered rows as CSV text. Every row must have as
/// many cells as the header has columns, which is what the CSV writer holds
/// records to; the result is exactly the text of the header record followed
/// by one record per row.
pub fn export_rows(header: &Vec<String>, rows: &Vec<Vec<CellValue>>) -> (r: String)
    requires
        forall|i: int| 0 <= i < rows@.len() ==> (#[trigger] rows@[i])@.len() == header@.len(),
    ensures
        r@ == csv_text(
            header@.map_values(|s: String| s@),
            rows@.map_values(|v: Vec<CellValue>| v@),
        ),
{
    let ghost hdr = header@.map_values(|s: String| s@);
    let mut w = new_csv_writer();
    let _ = csv_write_record(&mut w, header);
    let mut i: usize = 0;
    while i < rows.len()
        invariant
            i <= rows@.len(),
            forall|k: int| 0 <= k < rows@.len() ==> (#[trigger] rows@[k])@.len() == header@.len(),
            hdr == header@.map_values(|s: String| s@),
            hdr.len() == header@.len(),
            record_width(w) == Some(hdr.len()),
            written_text(w) == record_text(hdr) + records_text(
                rows@.subrange(0, i as int).map_values(|v: Vec<CellValue>| v@).map_values(
                    |r: Seq<CellValue>| row_fields(r),
                ),
            ),
        decreases rows@.len() - i,
    {
        let ghost done = rows@.subrange(0, i as int).map_values(|v: Vec<CellValue>| v@)
            .map_values(|r: Seq<CellValue>| row_fields(r));
        let fields = render_row(&rows[i]);
        let _ = csv_write_record(&mut w, &fields);
        proof {
            lemma_records_text_push(done, row_fields(rows@[i as int]@));
            assert(rows@.subrange(0, i + 1 as int).map_values(|v: Vec<CellValue>| v@)
                .map_values(|r: Seq<CellValue>| row_fields(r)) =~= done.push(
                row_fields(rows@[i as int]@),
            ));
        }
        i += 1;
    }
    proof {
        assert(rows@.subrange(0, rows@.len() as int) =~= rows@);
    }
    csv_into_string(w)
}

/// Executes a read query against the store and renders the whole result set
/// as CSV text: the column names from the statement metadata first, then one
/// record per row. Failure to compile the query is `QueryPreparation`; a
/// mid-stream fetch failure is `RowFetch`; on success the returned text is
/// exactly the CSV of the returned header and rows.
pub fn execute_query(conn: &rusqlite::Connection, query: &str) -> (r: Result<
    ExportOutput,
    ExportError,
>)
    ensures
        r matches Ok(o) ==> o.csv@ == csv_text(
            o.header@.map_values(|s: String| s@),
            o.rows@.map_values(|v: Vec<CellValue>| v@),
        ),
        r matches Ok(o) ==> forall|i: int|
            0 <= i < o.rows@.len() ==> (#[trigger] o.rows@[i])@.len() == o.header@.len(),
        r matches Err(e) ==> e == ExportError::QueryPreparation || e == ExportError::RowFetch,
{
    let mut stmt = match crate::sqlite::prepare(conn, query) {
        Ok(s) => s,
        Err(_) => {
            return Err(ExportError::QueryPreparation);
        },
    };
    let header = crate::sqlite::column_names(&stmt);
    let mut rows_cursor = match crate::sqlite::start_query(&mut stmt) {
        Ok(r) => r,
        Err(_) => {
            return Err(ExportError::QueryPreparation);
        },
    };
    let mut rows: Vec<Vec<CellValue>> = Vec::new();
    // The counter gives the cursor loop a termination measure; a result set
    // cannot have more rows than addressable memory holds, so the bound is
    // never reached.
    let mut steps: usize = 0;
    let mut more = true;
    while more
        invariant
            steps <= usize::MAX,
            forall|k: int| 0 <= k < rows@.len() ==> (#[trigger] rows@[k])@.len() == header@.len(),
        decreases usize::MAX - steps,
    {
        if steps == usize::MAX {
            return Err(ExportError::RowFetch);
        }
        steps += 1;
        match crate::sqlite::next_row(&mut rows_cursor) {
            Err(_) => {
                return Err(ExportError::RowFetch);
            },
            Ok(None) => {
                more = false;
            },
            Ok(Some(row)) => {
                let mut cells: Vec<CellValue> = Vec::new();
                let mut i: usize = 0;
                while i < header.len()
                    invariant
                        i <= header@.len(),
                        cells@.len() == i,
                    decreases header@.len() - i,
                {
                    match crate::sqlite::read_cell(row, i) {
                        Ok(c) => cells.push(c),
                        Err(_) => {
                            return Err(ExportError::RowFetch);
                        },
                    }
                    i += 1;
                }
                rows.push(cells);
            },
        }
    }
    let csv = export_rows(&header, &rows);
    Ok(ExportOutput { header, rows, csv })
}

} // verus!
