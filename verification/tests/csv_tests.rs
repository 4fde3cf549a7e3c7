use velodata::csv::decode_csv;
use velodata::error::ApiError;
use velodata::table::ColType;

#[test]
fn two_by_two_with_header() {
    let t = decode_csv("price,name\n1,abc\n2,def\n").unwrap();
    assert_eq!(t.height(), 2);
    assert_eq!(t.width(), 2);
    assert_eq!(t.headers, vec!["price".to_string(), "name".to_string()]);
    assert_eq!(t.header_at(1), "name");
    assert_eq!(t.dtypes, vec![ColType::IntCol, ColType::StrCol]);
    assert_eq!(t.dtype_at(0), ColType::IntCol);
    assert_eq!(t.rows[0], vec![Some("1".to_string()), Some("abc".to_string())]);
    assert_eq!(t.rows[1], vec![Some("2".to_string()), Some("def".to_string())]);
    assert_eq!(t.cell(1, 1), &Some("def".to_string()));
}

#[test]
fn ragged_row_fails() {
    let r = decode_csv("a,b\n1,2\n3\n");
    assert!(matches!(r, Err(ApiError::InvalidData)));
}

#[test]
fn too_wide_row_fails() {
    let r = decode_csv("a,b\n1,2,3\n");
    assert!(matches!(r, Err(ApiError::InvalidData)));
}

#[test]
fn empty_body_fails() {
    assert!(matches!(decode_csv(""), Err(ApiError::InvalidData)));
}

#[test]
fn header_only_gives_zero_rows() {
    let t = decode_csv("a,b,c\n").unwrap();
    assert_eq!(t.height(), 0);
    assert_eq!(t.width(), 3);
}

#[test]
fn empty_cells_become_missing() {
    let t = decode_csv("a,b\n1,\n,2\n").unwrap();
    assert_eq!(t.rows[0], vec![Some("1".to_string()), None]);
    assert_eq!(t.rows[1], vec![None, Some("2".to_string())]);
}

#[test]
fn float_and_negative_inference() {
    let t = decode_csv("x,y,z\n-1,0.5,1\n2,-2.25,3.5\n").unwrap();
    assert_eq!(t.dtypes, vec![ColType::IntCol, ColType::FloatCol, ColType::FloatCol]);
}

#[test]
fn missing_cells_do_not_change_inference() {
    let t = decode_csv("x\n\n7\n").unwrap();
    assert_eq!(t.height(), 2);
    assert_eq!(t.rows[0], vec![None]);
    assert_eq!(t.dtypes, vec![ColType::IntCol]);
}

#[test]
fn crlf_line_endings() {
    let t = decode_csv("a,b\r\n1,2\r\n").unwrap();
    assert_eq!(t.headers, vec!["a".to_string(), "b".to_string()]);
    assert_eq!(t.height(), 1);
    assert_eq!(t.rows[0], vec![Some("1".to_string()), Some("2".to_string())]);
}

#[test]
fn no_trailing_newline() {
    let t = decode_csv("a\n1").unwrap();
    assert_eq!(t.height(), 1);
    assert_eq!(t.rows[0], vec![Some("1".to_string())]);
}

#[test]
fn text_beats_numbers_in_inference() {
    let t = decode_csv("x\n1\n1.5\nhello\n").unwrap();
    assert_eq!(t.dtypes, vec![ColType::StrCol]);
}

#[test]
fn lone_minus_or_dot_is_text() {
    let t = decode_csv("x,y\n-,.\n").unwrap();
    assert_eq!(t.dtypes, vec![ColType::StrCol, ColType::StrCol]);
}
