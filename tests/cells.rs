use pretty_sqlite::{
    classify_column, format_cell, format_text, truncate_string, CellValue, Error, PrettyOptions,
    SubType,
};

fn truncating(max: u32) -> PrettyOptions {
    PrettyOptions { rows_limit: 300, cell_truncate_max: Some(max) }
}

#[test]
fn default_options() {
    let o = PrettyOptions::default();
    assert_eq!(o.rows_limit, 300);
    assert_eq!(o.cell_truncate_max, None);
}

#[test]
fn ascii_text_of_twenty_with_max_twelve() {
    let s = "abcdefghijklmnopqrst".to_string();
    let r = truncate_string(s, &truncating(12));
    assert_eq!(r, "ab...klmnopqrst");
    assert_eq!(r.chars().count(), 2 + 3 + 10);
}

#[test]
fn text_that_fits_is_kept() {
    let s = "abcdefghijkl".to_string();
    assert_eq!(truncate_string(s.clone(), &truncating(12)), s);
    let long = "x".repeat(500);
    assert_eq!(truncate_string(long.clone(), &PrettyOptions::default()), long);
}

#[test]
fn truncation_keeps_multibyte_characters_whole() {
    // 14 characters, most of them more than one byte long.
    let s = "日本語のテキストéèêëñü".to_string();
    let r = truncate_string(s, &truncating(7));
    // head 7 / 6 = 1 character, tail 6 characters
    assert_eq!(r, "日...éèêëñü");
}

#[test]
fn small_maximum_has_empty_head() {
    let r = truncate_string("abcdefgh".to_string(), &truncating(5));
    assert_eq!(r, "...defgh");
    let r = truncate_string("abc".to_string(), &truncating(0));
    assert_eq!(r, "...");
}

#[test]
fn text_is_quoted_then_truncated() {
    assert_eq!(format_text("Person 1", &PrettyOptions::default()), "\"Person 1\"");
    // 18 characters quoted make 20
    let r = format_text("abcdefghijklmnopqr", &truncating(12));
    assert_eq!(r, "\"a...jklmnopqr\"");
}

#[test]
fn null_and_blob_cells() {
    let o = PrettyOptions::default();
    assert_eq!(format_cell(&CellValue::Null, SubType::Plain, &o).unwrap(), "NULL");
    let blob = CellValue::Blob(vec![0u8; 10]);
    assert_eq!(format_cell(&blob, SubType::Plain, &o).unwrap(), "BLOB (length: 10)");
    let empty = CellValue::Blob(Vec::new());
    assert_eq!(format_cell(&empty, SubType::Plain, &o).unwrap(), "BLOB (length: 0)");
}

#[test]
fn integer_cells_in_decimal() {
    let o = PrettyOptions::default();
    assert_eq!(format_cell(&CellValue::Integer(1975), SubType::Plain, &o).unwrap(), "1975");
    assert_eq!(format_cell(&CellValue::Integer(-42), SubType::Plain, &o).unwrap(), "-42");
    assert_eq!(format_cell(&CellValue::Integer(0), SubType::Time, &o).unwrap(), "0");
    assert_eq!(
        format_cell(&CellValue::Integer(i64::MIN), SubType::Time, &o).unwrap(),
        "-9223372036854775808"
    );
}

#[test]
fn real_and_text_cells() {
    let o = PrettyOptions::default();
    let real = CellValue::Real(format!("{}", 2.5f64));
    assert_eq!(format_cell(&real, SubType::Plain, &o).unwrap(), "2.5");
    let text = CellValue::Text("héllo".as_bytes().to_vec());
    assert_eq!(format_cell(&text, SubType::Plain, &o).unwrap(), "\"héllo\"");
    let long = CellValue::Text(b"abcdefghijklmnopqr".to_vec());
    assert_eq!(format_cell(&long, SubType::Plain, &truncating(12)).unwrap(), "\"a...jklmnopqr\"");
}

#[test]
fn text_cell_not_utf8() {
    let o = PrettyOptions::default();
    let bad = CellValue::Text(vec![b'a', 0xff, 0xfe]);
    let r = format_cell(&bad, SubType::Plain, &o);
    assert!(matches!(r, Err(Error::SQLiteTextCellIsNotUtf8)));
}

#[test]
fn column_kinds() {
    assert_eq!(classify_column("create_time"), SubType::Time);
    assert_eq!(classify_column("time"), SubType::Time);
    assert_eq!(classify_column("tim"), SubType::Plain);
    assert_eq!(classify_column("timestamp"), SubType::Plain);
    assert_eq!(classify_column("name"), SubType::Plain);
    assert_eq!(classify_column(""), SubType::Plain);
}
