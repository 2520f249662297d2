use vstd::prelude::*;

use crate::digits::{decimal, i64_text, usize_text};
use crate::error::{Error, Result};
use crate::options::PrettyOptions;

verus! {

/// A finer kind of a column, guessed from its name.
///
/// Only classification depends on it for now: every kind is displayed alike.
#[derive(Clone, Copy, Debug, PartialEq, Eq)]
pub enum SubType {
    /// The column name ends in `time`.
    Time,
    /// No finer kind is known.
    Plain,
}

/// One value of a result row, as the data source typed it.
pub enum CellValue {
    Null,
    Integer(i64),
    /// A floating-point value, held as the display text of the float.
    Real(String),
    /// Text as raw bytes, which should be UTF-8.
    Text(Vec<u8>),
    Blob(Vec<u8>),
}

/// The characters `...` that join the two ends of a truncated cell.
pub open spec fn ellipsis() -> Seq<char> {
    seq!['.', '.', '.']
}

/// Whether a column name ends in `time`.
pub open spec fn ends_with_time(name: Seq<char>) -> bool {
    let n = name.len();
    &&& n >= 4
    &&& name[n - 4] == 't'
    &&& name[n - 3] == 'i'
    &&& name[n - 2] == 'm'
    &&& name[n - 1] == 'e'
}

pub open spec fn sub_type_of(name: Seq<char>) -> SubType {
    if ends_with_time(name) {
        SubType::Time
    } else {
        SubType::Plain
    }
}

/// `s` cut to at most `max` characters, when a maximum is set: the first
/// `max / 6` characters, then `...`, then the last `max - max / 6` characters.
pub open spec fn truncated(s: Seq<char>, max: Option<u32>) -> Seq<char> {
    match max {
        None => s,
        Some(m) => {
            let m = m as int;
            if s.len() > m {
                s.subrange(0, m / 6) + ellipsis() + s.subrange(s.len() - (m - m / 6), s.len() as int)
            } else {
                s
            }
        },
    }
}

/// `s` between double quotes.
pub open spec fn quoted(s: Seq<char>) -> Seq<char> {
    seq!['"'] + s + seq!['"']
}

/// What `String::from_utf8` makes of `b`: the characters, or nothing when
/// `b` is not valid UTF-8.
pub uninterp spec fn utf8_decoded(b: Seq<u8>) -> Option<Seq<char>>;

/// The display text of a cell, or `None` when a text cell is not UTF-8.
pub open spec fn cell_text(v: CellValue, max: Option<u32>) -> Option<Seq<char>> {
    match v {
        CellValue::Null => Some(seq!['N', 'U', 'L', 'L']),
        CellValue::Integer(n) => Some(decimal(n as int)),
        CellValue::Real(t) => Some(t@),
        CellValue::Text(b) => match utf8_decoded(b@) {
            Some(t) => Some(truncated(quoted(t), max)),
            None => None,
        },
        CellValue::Blob(b) => Some(blob_text(b@.len())),
    }
}

/// `BLOB (length: <n>)`.
pub open spec fn blob_text(n: nat) -> Seq<char> {
    seq!['B', 'L', 'O', 'B', ' ', '(', 'l', 'e', 'n', 'g', 't', 'h', ':', ' '] + decimal(n as int)
        + seq![')']
}

/// Relies on `String::from_utf8`: the decoded text when the bytes are UTF-8.
#[verifier::external_body]
fn decode_utf8(b: &Vec<u8>) -> (r: Option<String>)
    ensures
        r.is_some() == utf8_decoded(b@).is_some(),
        r.is_some() ==> r.unwrap()@ == utf8_decoded(b@).unwrap(),
{
    String::from_utf8(b.clone()).ok()
}

/// Classifies a column by its name: `Time` when the name ends in `time`.
pub fn classify_column(name: &str) -> (r: SubType)
    ensures
        r == sub_type_of(name@),
{
    let n = name.unicode_len();
    if n >= 4 && name.get_char(n - 4) == 't' && name.get_char(n - 3) == 'i' && name.get_char(n - 2)
        == 'm' && name.get_char(n - 1) == 'e' {
        SubType::Time
    } else {
        SubType::Plain
    }
}

/// Cuts `s` to the truncation maximum of `options`, on character boundaries.
pub fn truncate_string(s: String, options: &PrettyOptions) -> (r: String)
    ensures
        r@ == truncated(s@, options.cell_truncate_max),
{
    match options.cell_truncate_max {
        None => s,
        Some(m) => {
            let max = m as usize;
            let len = s.as_str().unicode_len();
            if len > max {
                let head_len = max / 6;
                let tail_len = max - head_len;
                let head = s.as_str().substring_char(0, head_len);
                let tail = s.as_str().substring_char(len - tail_len, len);
                let mut out = String::from_str(head);
                proof {
                    reveal_strlit("...");
                }
                out.append("...");
                out.append(tail);
                out
            } else {
                s
            }
        },
    }
}

/// The display text of a decoded text cell: quoted, then truncated.
pub fn format_text(txt: &str, options: &PrettyOptions) -> (r: String)
    ensures
        r@ == truncated(quoted(txt@), options.cell_truncate_max),
{
    proof {
        reveal_strlit("\"");
    }
    let mut q = String::from_str("\"");
    q.append(txt);
    q.append("\"");
    truncate_string(q, options)
}

/// The display text of one cell of a column of kind `sub_type`.
pub fn format_cell(v: &CellValue, sub_type: SubType, options: &PrettyOptions) -> (r: Result<String>)
    ensures
        match r {
            Ok(s) => cell_text(*v, options.cell_truncate_max) == Some(s@),
            Err(e) => cell_text(*v, options.cell_truncate_max).is_none()
                && e is SQLiteTextCellIsNotUtf8,
        },
{
    match v {
        CellValue::Null => {
            proof {
                reveal_strlit("NULL");
            }
            Ok(String::from_str("NULL"))
        },
        CellValue::Integer(n) => match sub_type {
            SubType::Time => Ok(i64_text(*n)),
            SubType::Plain => Ok(i64_text(*n)),
        },
        CellValue::Real(t) => Ok(t.clone()),
        CellValue::Text(b) => match decode_utf8(b) {
            Some(t) => Ok(format_text(t.as_str(), options)),
            None => Err(Error::SQLiteTextCellIsNotUtf8),
        },
        CellValue::Blob(b) => {
            proof {
                reveal_strlit("BLOB (length: ");
                reveal_strlit(")");
            }
            let mut out = String::from_str("BLOB (length: ");
            let n = usize_text(b.len());
            out.append(n.as_str());
            out.append(")");
            Ok(out)
        },
    }
}

} // verus!
