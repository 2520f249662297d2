use rusqlite::Error as SqliteError;
use vstd::prelude::*;

verus! {

/// rusqlite's error, carried unchanged as the cause of a data source failure.
#[verifier::external_type_specification]
#[verifier::external_body]
pub struct ExSqliteError(SqliteError);

/// Why a table could not be produced.
#[derive(Debug)]
pub enum Error {
    /// The row stream has no statement, so no column names can be read.
    CantPrintRowsHasNoStatement,
    /// A text cell holds bytes that are not valid UTF-8.
    SQLiteTextCellIsNotUtf8,
    /// The data source failed; the cause is kept as it was reported.
    Rusqlite(SqliteError),
}

pub type Result<T> = core::result::Result<T, Error>;

} // verus!
