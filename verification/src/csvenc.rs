//! The CSV text produced for a header and a set of rendered rows.
//!
//! These functions state, over sequences of characters, exactly what the CSV
//! writer emits with its default configuration: fields joined by commas, each
//! record ended by a line feed, a field quoted exactly when it contains a
//! comma, a double quote, or a line break, with embedded double quotes
//! doubled, and a record of a single empty field written as a pair of double
//! quotes so that it stays distinguishable from an empty line.

use vstd::prelude::*;
use crate::cell::CellValue;
use crate::cell::cell_text;

verus! {

/// Whether a field must be quoted: true exactly when it contains the
/// delimiter, the quote character, or a line break character.
pub open spec fn field_needs_quote(f: Seq<char>) -> bool {
    f.contains(',') || f.contains('"') || f.contains('\n') || f.contains('\r')
}

/// The field with every double quote doubled.
pub open spec fn quote_doubled(f: Seq<char>) -> Seq<char> {
    f.map_values(
        |c: char|
            if c == '"' {
                seq!['"', '"']
            } else {
                seq![c]
            },
    ).flatten()
}

/// The emitted text of one field: quoted, with inner quotes doubled, exactly
/// when quoting is needed; otherwise the field verbatim.
pub open spec fn encoded_field(f: Seq<char>) -> Seq<char> {
    if field_needs_quote(f) {
        seq!['"'] + quote_doubled(f) + seq!['"']
    } else {
        f
    }
}

/// The encoded fields joined by commas.
pub open spec fn comma_joined(fields: Seq<Seq<char>>) -> Seq<char>
    decreases fields.len(),
{
    if fields.len() == 0 {
        Seq::<char>::empty()
    } else if fields.len() == 1 {
        encoded_field(fields[0])
    } else {
        encoded_field(fields[0]) + seq![','] + comma_joined(fields.drop_first())
    }
}

/// The emitted text of one record: the joined fields and a line feed. A
/// record with no field, or with a single empty field, is written as a pair
/// of double quotes, as the CSV writer does.
pub open spec fn record_text(fields: Seq<Seq<char>>) -> Seq<char> {
    if fields.len() == 0 || (fields.len() == 1 && fields[0].len() == 0) {
        seq!['"', '"', '\n']
    } else {
        comma_joined(fields) + seq!['\n']
    }
}

/// The emitted text of a sequence of records, one after the other.
pub open spec fn records_text(recs: Seq<Seq<Seq<char>>>) -> Seq<char>
    decreases recs.len(),
{
    if recs.len() == 0 {
        Seq::<char>::empty()
    } else {
        record_text(recs[0]) + records_text(recs.drop_first())
    }
}

/// The rendered field texts of one row of cells, in column order.
pub open spec fn row_fields(row: Seq<CellValue>) -> Seq<Seq<char>> {
    row.map_values(|c: CellValue| cell_text(c))
}

/// The whole exported text: the header record first, then one record per
/// row, each cell rendered by its type tag.
pub open spec fn csv_text(header: Seq<Seq<char>>, rows: Seq<Seq<CellValue>>) -> Seq<char> {
    record_text(header) + records_text(rows.map_values(|r: Seq<CellValue>| row_fields(r)))
}

/// A field with no comma, no double quote, and no line break: it is emitted
/// verbatim and read back verbatim.
pub open spec fn plain_field(f: Seq<char>) -> bool {
    forall|k: int|
        0 <= k < f.len() ==> f[k] != ',' && f[k] != '"' && f[k] != '\n' && f[k] != '\r'
}

/// A record whose emitted line splits back into exactly its fields: at
/// least one field, every field plain, and not the single empty field that
/// the writer must quote.
pub open spec fn unambiguous_record(fields: Seq<Seq<char>>) -> bool {
    &&& fields.len() > 0
    &&& forall|j: int| 0 <= j < fields.len() ==> plain_field(#[trigger] fields[j])
    &&& !(fields.len() == 1 && fields[0].len() == 0)
}

/// The first position of `sep` in `s`, or a negative value when `s` does
/// not contain it.
pub open spec fn sep_index(s: Seq<char>, sep: char) -> int
    decreases s.len(),
{
    if s.len() == 0 {
        -1
    } else if s[0] == sep {
        0
    } else {
        let r = sep_index(s.drop_first(), sep);
        if r < 0 {
            -1
        } else {
            r + 1
        }
    }
}

/// The pieces of `s` between occurrences of `sep`: one more piece than
/// there are separators.
pub open spec fn split_text(s: Seq<char>, sep: char) -> Seq<Seq<char>>
    decreases s.len(),
    via split_text_decreases
{
    let i = sep_index(s, sep);
    if i < 0 {
        seq![s]
    } else {
        seq![s.subrange(0, i)] + split_text(s.subrange(i + 1, s.len() as int), sep)
    }
}

/// The lines of a CSV text whose every record ends in a line feed.
pub open spec fn parse_lines(s: Seq<char>) -> Seq<Seq<char>> {
    split_text(s, '\n').drop_last()
}

/// A re-parse of CSV text over the plain fragment: the lines, each split at
/// its commas.
pub open spec fn parse_csv(s: Seq<char>) -> Seq<Seq<Seq<char>>> {
    parse_lines(s).map_values(|line: Seq<char>| split_text(line, ','))
}

proof fn lemma_sep_index_range(s: Seq<char>, sep: char)
    ensures
        sep_index(s, sep) < s.len(),
    decreases s.len(),
{
    if s.len() > 0 && s[0] != sep {
        lemma_sep_index_range(s.drop_first(), sep);
    }
}

#[via_fn]
proof fn split_text_decreases(s: Seq<char>, sep: char) {
    lemma_sep_index_range(s, sep);
}

proof fn lemma_sep_index_none(s: Seq<char>, sep: char)
    requires
        forall|k: int| 0 <= k < s.len() ==> s[k] != sep,
    ensures
        sep_index(s, sep) < 0,
    decreases s.len(),
{
    if s.len() > 0 {
        lemma_sep_index_none(s.drop_first(), sep);
    }
}

proof fn lemma_sep_index_after(a: Seq<char>, b: Seq<char>, sep: char)
    requires
        forall|k: int| 0 <= k < a.len() ==> a[k] != sep,
    ensures
        sep_index(a + seq![sep] + b, sep) == a.len(),
    decreases a.len(),
{
    let s = a + seq![sep] + b;
    if a.len() == 0 {
        assert(s[0] == sep);
    } else {
        assert(s[0] == a[0]);
        lemma_sep_index_after(a.drop_first(), b, sep);
        assert(s.drop_first() =~= a.drop_first() + seq![sep] + b);
    }
}

/// Splitting a text with no separator gives the text whole.
proof fn lemma_split_single(s: Seq<char>, sep: char)
    requires
        forall|k: int| 0 <= k < s.len() ==> s[k] != sep,
    ensures
        split_text(s, sep) == seq![s],
{
    lemma_sep_index_none(s, sep);
}

/// Splitting after a separator-free prefix peels that prefix off.
proof fn lemma_split_after(a: Seq<char>, b: Seq<char>, sep: char)
    requires
        forall|k: int| 0 <= k < a.len() ==> a[k] != sep,
    ensures
        split_text(a + seq![sep] + b, sep) == seq![a] + split_text(b, sep),
{
    let s = a + seq![sep] + b;
    lemma_sep_index_after(a, b, sep);
    assert(s.subrange(0, a.len() as int) =~= a);
    assert(s.subrange(a.len() as int + 1, s.len() as int) =~= b);
}

/// A plain field is emitted verbatim.
proof fn lemma_encoded_plain(f: Seq<char>)
    requires
        plain_field(f),
    ensures
        encoded_field(f) == f,
{
    if f.contains(',') || f.contains('"') || f.contains('\n') || f.contains('\r') {
        let k = choose|k: int| 0 <= k < f.len() && (f[k] == ',' || f[k] == '"' || f[k] == '\n'
            || f[k] == '\r');
        assert(false);
    }
}

/// The joined line of an unambiguous record holds no line break and splits
/// at its commas back into exactly the fields.
proof fn lemma_comma_joined_split(fields: Seq<Seq<char>>)
    requires
        fields.len() > 0,
        forall|j: int| 0 <= j < fields.len() ==> plain_field(#[trigger] fields[j]),
    ensures
        split_text(comma_joined(fields), ',') == fields,
        forall|k: int|
            0 <= k < comma_joined(fields).len() ==> comma_joined(fields)[k] != '\n' && comma_joined(
                fields,
            )[k] != '\r',
    decreases fields.len(),
{
    if fields.len() == 1 {
        lemma_encoded_plain(fields[0]);
        lemma_split_single(fields[0], ',');
        assert(seq![fields[0]] =~= fields);
    } else {
        lemma_encoded_plain(fields[0]);
        lemma_comma_joined_split(fields.drop_first());
        let rest = comma_joined(fields.drop_first());
        lemma_split_after(fields[0], rest, ',');
        assert(comma_joined(fields) == fields[0] + seq![','] + rest);
        assert(seq![fields[0]] + fields.drop_first() =~= fields);
        assert forall|k: int| 0 <= k < comma_joined(fields).len() implies comma_joined(fields)[k]
            != '\n' && comma_joined(fields)[k] != '\r' by {
            let line = fields[0] + seq![','] + rest;
            if k < fields[0].len() {
                assert(line[k] == fields[0][k]);
            } else if k > fields[0].len() {
                assert(line[k] == rest[k - fields[0].len() - 1]);
            }
        }
    }
}

/// The text of a sequence of unambiguous records splits at line feeds into
/// their joined lines, and one final empty piece after the last line feed.
proof fn lemma_records_split(recs: Seq<Seq<Seq<char>>>)
    requires
        forall|j: int| 0 <= j < recs.len() ==> unambiguous_record(#[trigger] recs[j]),
    ensures
        split_text(records_text(recs), '\n') == recs.map_values(
            |r: Seq<Seq<char>>| comma_joined(r),
        ) + seq![Seq::<char>::empty()],
    decreases recs.len(),
{
    if recs.len() == 0 {
        assert(records_text(recs) =~= Seq::<char>::empty());
        lemma_split_single(Seq::<char>::empty(), '\n');
        assert(recs.map_values(|r: Seq<Seq<char>>| comma_joined(r)) + seq![Seq::<char>::empty()]
            =~= seq![Seq::<char>::empty()]);
    } else {
        let line = comma_joined(recs[0]);
        lemma_comma_joined_split(recs[0]);
        lemma_records_split(recs.drop_first());
        assert(record_text(recs[0]) == line + seq!['\n']);
        assert(records_text(recs) =~= line + seq!['\n'] + records_text(recs.drop_first()));
        lemma_split_after(line, records_text(recs.drop_first()), '\n');
        assert(split_text(records_text(recs), '\n') =~= recs.map_values(
            |r: Seq<Seq<char>>| comma_joined(r),
        ) + seq![Seq::<char>::empty()]);
    }
}

/// Re-parsing an export recovers it: over records whose fields hold no
/// comma, quote, or line break, and are not a lone empty field, the parsed
/// text has one record more than there are rows, the first parsed record is
/// the header, and each later one is its row's rendered fields. Row count
/// and column order survive the round trip.
pub proof fn lemma_csv_round_trip(header: Seq<Seq<char>>, rows: Seq<Seq<CellValue>>)
    requires
        unambiguous_record(header),
        forall|j: int| 0 <= j < rows.len() ==> unambiguous_record(row_fields(#[trigger] rows[j])),
    ensures
        parse_csv(csv_text(header, rows)).len() == 1 + rows.len(),
        parse_csv(csv_text(header, rows))[0] == header,
        forall|j: int|
            0 <= j < rows.len() ==> parse_csv(csv_text(header, rows))[j + 1] == row_fields(
                #[trigger] rows[j],
            ),
{
    let mapped = rows.map_values(|r: Seq<CellValue>| row_fields(r));
    let all = seq![header] + mapped;
    assert(all.drop_first() =~= mapped);
    assert(records_text(all) == record_text(header) + records_text(mapped));
    assert(csv_text(header, rows) == records_text(all));
    assert(forall|j: int| 0 <= j < all.len() ==> unambiguous_record(#[trigger] all[j]));
    lemma_records_split(all);
    let lines = all.map_values(|r: Seq<Seq<char>>| comma_joined(r));
    assert(parse_lines(records_text(all)) =~= lines);
    let parsed = parse_csv(csv_text(header, rows));
    assert(parsed.len() == all.len());
    assert forall|j: int| 0 <= j < all.len() implies parsed[j] == all[j] by {
        lemma_comma_joined_split(all[j]);
        assert(parsed[j] == split_text(lines[j], ','));
        assert(lines[j] == comma_joined(all[j]));
    }
}

/// Appending one record to a sequence of records appends its text.
pub proof fn lemma_records_text_push(recs: Seq<Seq<Seq<char>>>, rec: Seq<Seq<char>>)
    ensures
        records_text(recs.push(rec)) =~= records_text(recs) + record_text(rec),
    decreases recs.len(),
{
    let p = recs.push(rec);
    if recs.len() == 0 {
        assert(p.drop_first() =~= Seq::<Seq<Seq<char>>>::empty());
        assert(p[0] == rec);
        assert(records_text(Seq::<Seq<Seq<char>>>::empty()) =~= Seq::<char>::empty());
        assert(records_text(p) =~= records_text(recs) + record_text(rec));
    } else {
        assert(p.drop_first() =~= recs.drop_first().push(rec));
        assert(p[0] == recs[0]);
        lemma_records_text_push(recs.drop_first(), rec);
        assert(records_text(p) == record_text(recs[0]) + records_text(recs.drop_first().push(rec)));
        assert(records_text(p) =~= records_text(recs) + record_text(rec));
    }
}

} // verus!
