use tabled::builder::Builder;
use tabled::settings::Style;
use vstd::prelude::*;

verus! {

/// What tabled draws, in its `modern` style, for the given records: the first
/// record is the header, each record one line of cells.
pub uninterp spec fn modern_table(records: Seq<Seq<Seq<char>>>) -> Seq<char>;

/// The view of a record: the characters of each of its cells.
pub open spec fn record_view(record: Vec<String>) -> Seq<Seq<char>> {
    record@.map_values(|c: String| c@)
}

/// The view of a list of records.
pub open spec fn records_view(records: Seq<Vec<String>>) -> Seq<Seq<Seq<char>>> {
    records.map_values(|r: Vec<String>| record_view(r))
}

/// Relies on tabled's `Builder` and `Table` with `Style::modern()`: the drawn
/// table depends on the records alone.
#[verifier::external_body]
pub(crate) fn draw_modern(records: Vec<Vec<String>>) -> (r: String)
    ensures
        r@ == modern_table(records_view(records@)),
{
    Builder::from(records).build().with(Style::modern()).to_string()
}

} // verus!
