use vstd::prelude::*;

verus! {

/// Number of data rows kept when no other limit is given.
pub const DEFAULT_ROWS_LIMIT: usize = 300;

/// How a result set is turned into a table.
pub struct PrettyOptions {
    /// Largest number of data rows that are read and shown.
    pub rows_limit: usize,
    /// Largest number of characters of a quoted text cell; `None` keeps cells whole.
    pub cell_truncate_max: Option<u32>,
}

impl Default for PrettyOptions {
    fn default() -> (r: Self)
        ensures
            r.rows_limit == DEFAULT_ROWS_LIMIT,
            r.cell_truncate_max.is_none(),
    {
        PrettyOptions { rows_limit: DEFAULT_ROWS_LIMIT, cell_truncate_max: None }
    }
}

} // verus!
