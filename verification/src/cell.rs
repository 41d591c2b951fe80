//! Storage cell values and their rendering as CSV field text.
//!
//! A cell is one value at a (row, column) position of a query result. Exactly
//! one tag is active. Rendering is lossless for `Integer` and `Text`, empty
//! for `Null`, and a best-effort UTF-8 decoding for `Blob`. A `Real` cell
//! carries the shortest round-trippable decimal text of the stored floating
//! point value, produced at the storage boundary, and renders verbatim.

use vstd::prelude::*;

verus! {

/// One storage value, tagged by its runtime type.
#[derive(Debug)]
pub enum CellValue {
    /// The SQL NULL value.
    Null,
    /// A signed integer value.
    Integer(i64),
    /// A floating point value, held as its shortest round-trippable decimal
    /// text.
    Real(String),
    /// A text value.
    Text(String),
    /// A binary value, held as its raw bytes.
    Blob(Vec<u8>),
}

/// The decimal digit characters, used to spell out integer values.
pub open spec fn digit_chars() -> Seq<char> {
    "0123456789"@
}

/// The decimal spelling of a nonnegative integer: most significant digit
/// first, no sign, no grouping, and no leading zero except for zero itself.
pub open spec fn dec_digits(n: nat) -> Seq<char>
    decreases n,
{
    if n < 10 {
        seq![digit_chars()[n as int]]
    } else {
        dec_digits(n / 10).push(digit_chars()[(n % 10) as int])
    }
}

/// The canonical base-10 rendering of an integer: a minus sign only when the
/// value is negative, then the digits.
pub open spec fn int_text(v: int) -> Seq<char> {
    if v < 0 {
        seq!['-'] + dec_digits((-v) as nat)
    } else {
        dec_digits(v as nat)
    }
}

/// What `String::from_utf8_lossy` decodes a byte sequence to: the text, with
/// invalid sequences replaced. The result depends on the bytes alone.
pub uninterp spec fn lossy_text(b: Seq<u8>) -> Seq<char>;

/// The rendered CSV field text of a cell, by its type tag.
pub open spec fn cell_text(c: CellValue) -> Seq<char> {
    match c {
        CellValue::Null => Seq::<char>::empty(),
        CellValue::Integer(v) => int_text(v as int),
        CellValue::Real(s) => s@,
        CellValue::Text(s) => s@,
        CellValue::Blob(b) => lossy_text(b@),
    }
}

/// Relies on `String::from_utf8_lossy`: best-effort UTF-8 decoding of the
/// bytes, invalid sequences replaced rather than failing.
#[verifier::external_body]
fn utf8_lossy(b: &Vec<u8>) -> (r: String)
    ensures
        r@ == lossy_text(b@),
{
    String::from_utf8_lossy(b).into_owned()
}

/// Appends the decimal digits of `n` to `out`, most significant first.
fn push_dec_digits(n: u64, out: &mut String)
    ensures
        final(out)@ == old(out)@ + dec_digits(n as nat),
    decreases n,
{
    let digits = "0123456789";
    proof {
        reveal_strlit("0123456789");
    }
    if n < 10 {
        let d = digits.substring_char(n as usize, n as usize + 1);
        out.append(d);
        assert(d@ =~= seq![digit_chars()[n as int]]);
    } else {
        push_dec_digits(n / 10, out);
        let last = (n % 10) as usize;
        let d = digits.substring_char(last, last + 1);
        out.append(d);
        assert(d@ =~= seq![digit_chars()[(n as nat % 10) as int]]);
    }
}

/// Renders an integer in canonical base-10: sign only if negative, no
/// grouping.
pub fn render_integer(v: i64) -> (r: String)
    ensures
        r@ == int_text(v as int),
{
    if v >= 0 {
        let mut out = String::new();
        push_dec_digits(v as u64, &mut out);
        out
    } else {
        let mut out = String::from_str("-");
        proof {
            reveal_strlit("-");
        }
        let mag: u64 = if v == i64::MIN {
            9223372036854775808u64
        } else {
            (-v) as u64
        };
        assert(mag == -(v as int));
        push_dec_digits(mag, &mut out);
        assert(out@ =~= seq!['-'] + dec_digits((-(v as int)) as nat));
        out
    }
}

/// Renders a cell as CSV field text per its type tag: `Null` as the empty
/// string, `Integer` in canonical base-10, `Real` and `Text` verbatim, and
/// `Blob` as the best-effort UTF-8 decoding of its bytes.
pub fn render_cell(c: &CellValue) -> (r: String)
    ensures
        r@ == cell_text(*c),
{
    match c {
        CellValue::Null => String::new(),
        CellValue::Integer(v) => render_integer(*v),
        CellValue::Real(s) => s.clone(),
        CellValue::Text(s) => s.clone(),
        CellValue::Blob(b) => utf8_lossy(b),
    }
}

/// A rendered integer always has at least one character, so a `Null` cell,
/// which renders empty, is never confused with any integer value.
pub proof fn lemma_integer_text_nonempty(v: int)
    ensures
        int_text(v).len() > 0,
        cell_text(CellValue::Null) =~= Seq::<char>::empty(),
{
    if v < 0 {
        lemma_dec_digits_nonempty((-v) as nat);
    } else {
        lemma_dec_digits_nonempty(v as nat);
    }
}

proof fn lemma_dec_digits_nonempty(n: nat)
    ensures
        dec_digits(n).len() > 0,
    decreases n,
{
    if n >= 10 {
        lemma_dec_digits_nonempty(n / 10);
    }
}

} // verus!
