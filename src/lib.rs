//! Renders relational query results as aligned, box-bordered text tables.
//!
//! The verified part of the library turns typed cells into display strings
//! (with optional, character-safe truncation), assembles them into a grid
//! bounded by a row limit, and hands the grid to a table renderer.

mod cell;
mod digits;
mod error;
mod grid;
mod laws;
mod options;
mod query;
mod render;

pub use cell::{
    blob_text, cell_text, classify_column, ellipsis, ends_with_time, format_cell, format_text,
    quoted, sub_type_of, truncate_string, truncated, utf8_decoded, CellValue, SubType,
};
pub use digits::{decimal, digit_char, digits};
pub use error::{Error, Result};
pub use grid::{row_texts, GridBuilder};
pub use laws::{lemma_row_limit, lemma_truncation_shape, rows_after_offers};
pub use options::{PrettyOptions, DEFAULT_ROWS_LIMIT};
pub use query::{table_query, table_title};
pub use render::{modern_table, record_view, records_view};
