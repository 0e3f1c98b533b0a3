//! The row codec: turns one storage result row into a JSON object. Null,
//! integer and real cells carry over by kind; text cells are decoded as
//! UTF-8, with an empty string taking the place of invalid bytes rather than
//! failing the row; blob cells become a human-readable byte listing, for
//! display only.

use vstd::prelude::*;
use vstd::string::StringExecFns;

use crate::text::{dec_chars, join, lemma_join_push};
use crate::value::{CellValue, JsonVal, Record};

verus! {

/// What `std::str::from_utf8` decodes a byte sequence to: `Some` of the
/// character sequence when the bytes are valid UTF-8, `None` otherwise. A
/// function of the bytes alone.
pub uninterp spec fn utf8_chars(bs: Seq<u8>) -> Option<Seq<char>>;

/// Relies on std::str::from_utf8: decodes the bytes as UTF-8, succeeding
/// exactly on valid UTF-8; the result depends on the bytes alone.
#[verifier::external_body]
fn decode_utf8(bs: &Vec<u8>) -> (r: Option<String>)
    ensures
        match r {
            Some(s) => utf8_chars(bs@) == Some(s@),
            None => utf8_chars(bs@) is None,
        },
{
    match std::str::from_utf8(bs.as_slice()) {
        Ok(s) => Some(s.to_owned()),
        Err(_) => None,
    }
}

/// The characters a text cell contributes: its UTF-8 decoding, or the empty
/// string where the bytes are not valid UTF-8.
pub open spec fn decoded_text(bs: Seq<u8>) -> Seq<char> {
    match utf8_chars(bs) {
        Some(cs) => cs,
        None => Seq::empty(),
    }
}

/// The display form of a blob: its bytes in decimal, comma-separated inside
/// square brackets.
pub open spec fn byte_list_chars(bs: Seq<u8>) -> Seq<char> {
    ("[")@ + join(bs.map_values(|b: u8| dec_chars(b as int)), (", ")@) + ("]")@
}

/// Renders a blob's bytes as a bracketed, comma-separated decimal listing.
pub fn blob_repr(bs: &Vec<u8>) -> (r: String)
    ensures
        r@ == byte_list_chars(bs@),
{
    let ghost pieces = bs@.map_values(|b: u8| dec_chars(b as int));
    let mut s = String::new();
    s.append("[");
    let mut i: usize = 0;
    while i < bs.len()
        invariant
            0 <= i <= bs@.len(),
            pieces == bs@.map_values(|b: u8| dec_chars(b as int)),
            s@ == ("[")@ + join(pieces.take(i as int), (", ")@),
        decreases bs@.len() - i,
    {
        if i > 0 {
            s.append(", ");
        }
        append_byte(&mut s, bs[i]);
        proof {
            lemma_join_push(pieces.take(i as int), (", ")@, pieces[i as int]);
            assert(pieces.take(i + 1 as int) =~= pieces.take(i as int).push(pieces[i as int]));
            assert(pieces[i as int] == dec_chars(bs@[i as int] as int));
            if i == 0 {
                assert(("[")@ + join(pieces.take(0), (", ")@) =~= ("[")@);
                assert(s@ == ("[")@ + join(pieces.take(1), (", ")@));
            } else {
                assert(s@ =~= ("[")@ + (join(pieces.take(i as int), (", ")@) + (", ")@
                    + pieces[i as int]));
            }
        }
        i += 1;
    }
    assert(pieces.take(bs@.len() as int) =~= pieces);
    s.append("]");
    s
}

/// Appends one byte's decimal digits.
fn append_byte(s: &mut String, b: u8)
    ensures
        final (s)@ == old(s)@ + dec_chars(b as int),
{
    crate::text::append_u64(s, b as u64);
}

/// How one JSON value stands for one storage cell: same kind and content,
/// with text decoded (or emptied) and blobs rendered for display.
pub open spec fn cell_encoded(j: JsonVal, c: CellValue) -> bool {
    match c {
        CellValue::Null => j == JsonVal::Null,
        CellValue::Int(n) => j == JsonVal::Int(n),
        CellValue::Real(bits) => j == JsonVal::Real(bits),
        CellValue::Text(bs) => j matches JsonVal::Str(s) && s@ == decoded_text(bs@),
        CellValue::Blob(bs) => j matches JsonVal::Str(s) && s@ == byte_list_chars(bs@),
    }
}

/// Converts one storage cell into its JSON value.
pub fn cell_to_json(c: &CellValue) -> (r: JsonVal)
    ensures
        cell_encoded(r, *c),
{
    match c {
        CellValue::Null => JsonVal::Null,
        CellValue::Int(n) => JsonVal::Int(*n),
        CellValue::Real(bits) => JsonVal::Real(*bits),
        CellValue::Text(bs) => match decode_utf8(bs) {
            Some(s) => JsonVal::Str(s),
            None => JsonVal::Str(String::new()),
        },
        CellValue::Blob(bs) => JsonVal::Str(blob_repr(bs)),
    }
}

/// How a record stands for a whole row: one field per column, in column
/// order, each key the column's name and each value its encoded cell.
pub open spec fn row_encoded(rec: Record, row: Seq<(String, CellValue)>) -> bool {
    &&& rec.fields@.len() == row.len()
    &&& forall|i: int|
        0 <= i < row.len() ==> (#[trigger] rec.fields@[i]).0@ == row[i].0@ && cell_encoded(
            rec.fields@[i].1,
            row[i].1,
        )
}

/// Converts one storage row, given as column names with cell values, into a
/// JSON object with one field per column in column order.
pub fn row_to_json(row: &Vec<(String, CellValue)>) -> (r: Record)
    ensures
        row_encoded(r, row@),
{
    let mut fields: Vec<(String, JsonVal)> = Vec::new();
    let mut i: usize = 0;
    while i < row.len()
        invariant
            0 <= i <= row@.len(),
            fields@.len() == i,
            forall|j: int|
                0 <= j < i ==> (#[trigger] fields@[j]).0@ == row@[j].0@ && cell_encoded(
                    fields@[j].1,
                    row@[j].1,
                ),
        decreases row@.len() - i,
    {
        let name = row[i].0.clone();
        let val = cell_to_json(&row[i].1);
        fields.push((name, val));
        i += 1;
    }
    Record { fields }
}

} // verus!
