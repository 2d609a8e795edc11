use nflreadrs::table::{from_csv, split_str, ColumnType};
use nflreadrs::Error;

#[test]
fn test_row_count_and_column_names_match_content() {
    let content = "team,wins,losses\nKC,14,3\nSF,12,5\nDET,12,5\n";
    let table = from_csv(content, None).unwrap();
    assert_eq!(table.headers, vec!["team", "wins", "losses"]);
    assert_eq!(table.rows.len(), 3);
    assert_eq!(table.rows[0], vec!["KC", "14", "3"]);
    assert_eq!(table.rows[2], vec!["DET", "12", "5"]);
}

#[test]
fn test_missing_trailing_newline_and_crlf_are_accepted() {
    let content = "name,score\r\na,1\r\nb,2";
    let table = from_csv(content, None).unwrap();
    assert_eq!(table.headers, vec!["name", "score"]);
    assert_eq!(table.rows.len(), 2);
    assert_eq!(table.rows[1], vec!["b", "2"]);
}

#[test]
fn test_header_only_content_has_no_rows() {
    let table = from_csv("one,two\n", None).unwrap();
    assert_eq!(table.headers, vec!["one", "two"]);
    assert_eq!(table.rows.len(), 0);
    assert_eq!(table.col_types, vec![ColumnType::Int, ColumnType::Int]);
}

#[test]
fn test_empty_content_is_a_parse_error() {
    assert_eq!(from_csv("", None).unwrap_err(), Error::ParseError);
}

#[test]
fn test_ragged_row_is_a_parse_error() {
    let content = "a,b,c\n1,2,3\n4,5\n";
    assert_eq!(from_csv(content, None).unwrap_err(), Error::ParseError);
}

#[test]
fn test_column_types_are_inferred_from_content() {
    let content = "id,price,label,note\n1,2.5,x,\n-2,-0.25,y,7\n3,4,z8,\n";
    let table = from_csv(content, None).unwrap();
    assert_eq!(
        table.col_types,
        vec![ColumnType::Int, ColumnType::Float, ColumnType::Str, ColumnType::Int]
    );
}

#[test]
fn test_small_infer_limit_can_mistype_a_column() {
    let content = "value\n1\n2\nnot-a-number\n";
    let scan_all = from_csv(content, None).unwrap();
    assert_eq!(scan_all.col_types, vec![ColumnType::Str]);
    let scan_two = from_csv(content, Some(2)).unwrap();
    assert_eq!(scan_two.col_types, vec![ColumnType::Int]);
}

#[test]
fn test_split_str_keeps_empty_fields() {
    assert_eq!(split_str("a,,b,", ','), vec!["a", "", "b", ""]);
    assert_eq!(split_str("", ','), vec![""]);
}
