use vstd::prelude::*;

use crate::digits::{decimal, usize_text};

verus! {

/// The line put above the table of a whole table: ` TABLE: <name>` and a newline.
pub fn table_title(table: &str) -> (r: String)
    ensures
        r@ == " TABLE: "@ + table@ + "\n"@,
{
    let mut out = String::from_str(" TABLE: ");
    out.append(table);
    out.append("\n");
    out
}

/// The query that reads at most `rows_limit` rows of a whole table; the limit
/// is part of the query, so the data source stops there.
pub fn table_query(table: &str, rows_limit: usize) -> (r: String)
    ensures
        r@ == "SELECT * FROM "@ + table@ + " limit "@ + decimal(rows_limit as int),
{
    let mut out = String::from_str("SELECT * FROM ");
    out.append(table);
    out.append(" limit ");
    let n = usize_text(rows_limit);
    out.append(n.as_str());
    out
}

} // verus!
