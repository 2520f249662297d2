use vstd::prelude::*;

use crate::cell::{cell_text, format_cell, sub_type_of, classify_column, CellValue, SubType};
use crate::error::{Error, Result};
use crate::options::PrettyOptions;
use crate::render::{draw_modern, modern_table, record_view, records_view};

verus! {

/// The display texts of a row of cells, or `None` when one of them has none.
pub open spec fn row_texts(cells: Seq<CellValue>, max: Option<u32>) -> Option<Seq<Seq<char>>> {
    if forall|i: int| 0 <= i < cells.len() ==> (#[trigger] cell_text(cells[i], max)).is_some() {
        Some(Seq::new(cells.len(), |i: int| cell_text(cells[i], max).unwrap()))
    } else {
        None
    }
}

/// Collects the header and the formatted data rows of a result set, up to
/// a row limit, and draws them as a table.
pub struct GridBuilder {
    header: Vec<String>,
    sub_types: Vec<SubType>,
    rows: Vec<Vec<String>>,
    rows_limit: usize,
    cell_truncate_max: Option<u32>,
}

impl GridBuilder {
    /// The column names.
    pub closed spec fn header_view(&self) -> Seq<Seq<char>> {
        record_view(self.header)
    }

    /// The data rows held so far, each as the texts of its cells.
    pub closed spec fn rows_view(&self) -> Seq<Seq<Seq<char>>> {
        records_view(self.rows@)
    }

    pub closed spec fn limit(&self) -> nat {
        self.rows_limit as nat
    }

    pub closed spec fn truncate_max(&self) -> Option<u32> {
        self.cell_truncate_max
    }

    /// Header first, then the data rows: what the table shows.
    pub open spec fn records(&self) -> Seq<Seq<Seq<char>>> {
        seq![self.header_view()] + self.rows_view()
    }

    /// Every row has one cell per column, each column has its kind, and the
    /// limit is kept.
    pub closed spec fn wf(&self) -> bool {
        &&& self.sub_types@.len() == self.header@.len()
        &&& forall|i: int|
            0 <= i < self.header@.len() ==> self.sub_types@[i] == sub_type_of(
                #[trigger] self.header@[i]@,
            )
        &&& forall|i: int| 0 <= i < self.rows@.len() ==> (#[trigger] self.rows@[i])@.len() == self.header@.len()
        &&& self.rows@.len() <= self.rows_limit
    }

    /// Every record of a well-formed grid, the header and each data row, has
    /// one cell per column, and no more data rows are held than the limit.
    pub proof fn lemma_rows_match_header(&self)
        requires
            self.wf(),
        ensures
            self.records().len() == self.rows_view().len() + 1,
            self.rows_view().len() <= self.limit(),
            forall|i: int|
                0 <= i < self.records().len() ==> (#[trigger] self.records()[i]).len()
                    == self.header_view().len(),
    {
        assert forall|i: int| 0 <= i < self.records().len() implies (
        #[trigger] self.records()[i]).len() == self.header_view().len() by {
            if i > 0 {
                assert(self.records()[i] == record_view(self.rows@[i - 1]));
            }
        }
    }

    /// Drawing is a function of the records alone: two grids with the same
    /// header and rows, or one grid drawn twice, give the same text.
    pub proof fn lemma_render_deterministic(a: &Self, b: &Self)
        requires
            a.records() == b.records(),
        ensures
            modern_table(a.records()) == modern_table(b.records()),
    {
    }

    /// Starts a grid with the given column names and no data rows.
    pub fn new(names: Vec<String>, options: &PrettyOptions) -> (r: Self)
        ensures
            r.wf(),
            r.header_view() == record_view(names),
            r.rows_view().len() == 0,
            r.limit() == options.rows_limit,
            r.truncate_max() == options.cell_truncate_max,
    {
        let mut sub_types: Vec<SubType> = Vec::new();
        let mut i: usize = 0;
        while i < names.len()
            invariant
                i <= names@.len(),
                sub_types@.len() == i,
                forall|j: int| 0 <= j < i ==> sub_types@[j] == sub_type_of(#[trigger] names@[j]@),
            decreases names@.len() - i,
        {
            sub_types.push(classify_column(names[i].as_str()));
            i = i + 1;
        }
        GridBuilder {
            header: names,
            sub_types,
            rows: Vec::new(),
            rows_limit: options.rows_limit,
            cell_truncate_max: options.cell_truncate_max,
        }
    }

    /// Starts a grid for a row stream: with its statement's column names, or
    /// the error that a stream without a statement gets.
    pub fn for_statement(names: Option<Vec<String>>, options: &PrettyOptions) -> (r: Result<Self>)
        ensures
            names.is_none() <==> r is Err,
            r matches Err(e) ==> e is CantPrintRowsHasNoStatement,
            r matches Ok(g) ==> {
                &&& g.wf()
                &&& g.header_view() == record_view(names.unwrap())
                &&& g.rows_view().len() == 0
                &&& g.limit() == options.rows_limit
                &&& g.truncate_max() == options.cell_truncate_max
            },
    {
        match names {
            Some(n) => Ok(GridBuilder::new(n, options)),
            None => Err(Error::CantPrintRowsHasNoStatement),
        }
    }

    /// The number of columns.
    pub fn column_count(&self) -> (r: usize)
        ensures
            r == self.header_view().len(),
    {
        self.header.len()
    }

    /// The number of data rows held.
    pub fn row_count(&self) -> (r: usize)
        ensures
            r == self.rows_view().len(),
    {
        self.rows.len()
    }

    /// Whether another data row is taken: fewer rows than the limit are held.
    pub fn accepts_more(&self) -> (r: bool)
        ensures
            r == (self.rows_view().len() < self.limit()),
    {
        self.rows.len() < self.rows_limit
    }

    /// Formats a row of cells, one per column, and appends it. On an error
    /// nothing is appended.
    #[verifier::loop_isolation(false)]
    pub fn push_row(&mut self, cells: &Vec<CellValue>) -> (r: Result<()>)
        requires
            old(self).wf(),
            old(self).rows_view().len() < old(self).limit(),
            cells@.len() == old(self).header_view().len(),
        ensures
            final(self).wf(),
            final(self).header_view() == old(self).header_view(),
            final(self).limit() == old(self).limit(),
            final(self).truncate_max() == old(self).truncate_max(),
            match r {
                Ok(()) => row_texts(cells@, old(self).truncate_max()) matches Some(texts)
                    && final(self).rows_view() == old(self).rows_view().push(texts),
                Err(e) => row_texts(cells@, old(self).truncate_max()).is_none()
                    && e is SQLiteTextCellIsNotUtf8 && final(self).rows_view() == old(
                    self,
                ).rows_view(),
            },
    {
        let options = PrettyOptions {
            rows_limit: self.rows_limit,
            cell_truncate_max: self.cell_truncate_max,
        };
        let mut row: Vec<String> = Vec::new();
        let mut i: usize = 0;
        while i < cells.len()
            invariant
                i <= cells@.len(),
                cells@.len() == self.header@.len(),
                self.sub_types@.len() == self.header@.len(),
                options.cell_truncate_max == self.cell_truncate_max,
                row@.len() == i,
                forall|j: int|
                    0 <= j < i ==> cell_text(cells@[j], self.cell_truncate_max) == Some(
                        (#[trigger] row@[j])@,
                    ),
            decreases cells@.len() - i,
        {
            match format_cell(&cells[i], self.sub_types[i], &options) {
                Ok(s) => row.push(s),
                Err(e) => {
                    assert(!(cell_text(cells@[i as int], self.cell_truncate_max).is_some()));
                    return Err(e);
                },
            }
            i = i + 1;
        }
        assert forall|j: int| 0 <= j < cells@.len() implies (#[trigger] cell_text(
            cells@[j],
            self.cell_truncate_max,
        )).is_some() by {
            assert(cell_text(cells@[j], self.cell_truncate_max) == Some(row@[j]@));
        }
        let ghost texts = Seq::new(cells@.len(), |j: int| cell_text(cells@[j], self.cell_truncate_max).unwrap());
        assert(record_view(row) =~= texts);
        self.rows.push(row);
        assert(self.rows_view() =~= old(self).rows_view().push(texts));
        Ok(())
    }

    /// Draws the header and the data rows as a table.
    pub fn render(&self) -> (r: String)
        ensures
            r@ == modern_table(self.records()),
    {
        let mut records: Vec<Vec<String>> = Vec::new();
        records.push(clone_record(&self.header));
        let mut i: usize = 0;
        while i < self.rows.len()
            invariant
                i <= self.rows@.len(),
                records@.len() == i + 1,
                record_view(records@[0]) == self.header_view(),
                forall|j: int| 0 <= j < i ==> record_view(#[trigger] records@[j + 1]) == record_view(self.rows@[j]),
            decreases self.rows@.len() - i,
        {
            records.push(clone_record(&self.rows[i]));
            i = i + 1;
        }
        assert forall|k: int| 0 <= k < records@.len() implies records_view(records@)[k]
            == self.records()[k] by {
            if k > 0 {
                assert(record_view(records@[(k - 1) + 1]) == record_view(self.rows@[k - 1]));
            }
        }
        assert(records_view(records@) =~= self.records());
        draw_modern(records)
    }
}

/// A copy of a record.
fn clone_record(record: &Vec<String>) -> (r: Vec<String>)
    ensures
        record_view(r) == record_view(*record),
{
    let mut out: Vec<String> = Vec::new();
    let mut i: usize = 0;
    while i < record.len()
        invariant
            i <= record@.len(),
            out@.len() == i,
            forall|j: int| 0 <= j < i ==> (#[trigger] out@[j])@ == record@[j]@,
        decreases record@.len() - i,
    {
        out.push(record[i].clone());
        i = i + 1;
    }
    assert(record_view(out) =~= record_view(*record));
    out
}

} // verus!
