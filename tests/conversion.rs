use develop_tool::cache::cache_file_name;
use develop_tool::convert_to_table;
use develop_tool::model::{ConvertError, Table};
use develop_tool::sheet::sheet_cells;

fn table(text: &str) -> Table {
    match convert_to_table(text) {
        Ok(t) => t,
        Err(e) => panic!("conversion failed: {}", e.message()),
    }
}

fn strings(v: &[&str]) -> Vec<String> {
    v.iter().map(|s| s.to_string()).collect()
}

#[test]
fn two_uniform_records() {
    let t = table(r#"[{"a":1,"b":"x"},{"a":2,"b":"y"}]"#);
    assert_eq!(t.header, strings(&["a", "b"]));
    assert_eq!(t.rows, vec![strings(&["1", "x"]), strings(&["2", "y"])]);
}

#[test]
fn rows_are_filled_by_position() {
    let t = table(r#"[{"a":1,"b":2},{"c":3}]"#);
    assert_eq!(t.header, strings(&["a", "b"]));
    assert_eq!(t.rows, vec![strings(&["1", "2"]), strings(&["3"])]);
}

#[test]
fn header_keeps_key_order() {
    let t = table(r#"[{"zeta":1,"alpha":2,"mid":3}]"#);
    assert_eq!(t.header, strings(&["zeta", "alpha", "mid"]));
    assert_eq!(t.rows, vec![strings(&["1", "2", "3"])]);
}

#[test]
fn one_row_per_element() {
    let t = table(r#"[{"a":1},{},2,"s",null,{"a":5}]"#);
    assert_eq!(t.header, strings(&["a"]));
    assert_eq!(t.rows.len(), 6);
    assert_eq!(
        t.rows,
        vec![
            strings(&["1"]),
            vec![],
            vec![],
            vec![],
            vec![],
            strings(&["5"])
        ]
    );
}

#[test]
fn uniform_records_fill_every_column() {
    let t = table(r#"[{"s":"v","n":-7,"b":true,"z":null},{"s":"w","n":0,"b":false,"z":null},{"s":"","n":12,"b":true,"z":null}]"#);
    assert_eq!(t.header, strings(&["s", "n", "b", "z"]));
    assert_eq!(t.rows.len(), 3);
    assert!(t.rows.iter().all(|r| r.len() == 4));
    assert_eq!(t.rows[0], strings(&["v", "-7", "true", ""]));
    assert_eq!(t.rows[1], strings(&["w", "0", "false", ""]));
    assert_eq!(t.rows[2], strings(&["", "12", "true", ""]));
}

#[test]
fn values_are_coerced_by_kind() {
    let t = table(r#"[{"f":1.5,"big":18446744073709551615,"arr":[1,"two",null],"obj":{"x":1,"y":[true]},"q":"say \"hi\""}]"#);
    assert_eq!(
        t.rows[0],
        strings(&[
            "1.5",
            "18446744073709551615",
            "[1,\"two\",null]",
            "{\"x\":1,\"y\":[true]}",
            "say \"hi\""
        ])
    );
}

#[test]
fn extra_fields_beyond_the_header_are_not_written() {
    let t = table(r#"[{"a":1},{"x":"p","y":"q"}]"#);
    assert_eq!(t.rows, vec![strings(&["1"]), strings(&["p"])]);
}

#[test]
fn header_comes_from_first_object_element() {
    let t = table(r#"[7,{"k":"v","m":"w"}]"#);
    assert_eq!(t.header, strings(&["k", "m"]));
    assert_eq!(t.rows, vec![vec![], strings(&["v", "w"])]);
}

#[test]
fn no_object_gives_no_header() {
    let t = table("[1,2,3]");
    assert!(t.header.is_empty());
    assert_eq!(t.rows, vec![Vec::<String>::new(); 3]);
}

#[test]
fn empty_array_gives_empty_sheet() {
    let t = table("[]");
    assert!(t.header.is_empty());
    assert!(t.rows.is_empty());
    assert!(sheet_cells(&t).is_empty());
}

#[test]
fn object_root_is_a_shape_error() {
    assert!(matches!(convert_to_table(r#"{"a":1}"#), Err(ConvertError::Shape)));
}

#[test]
fn number_root_is_a_shape_error() {
    assert!(matches!(convert_to_table("42"), Err(ConvertError::Shape)));
}

#[test]
fn string_root_is_a_shape_error() {
    assert!(matches!(convert_to_table("\"[1]\""), Err(ConvertError::Shape)));
}

#[test]
fn truncated_text_is_a_parse_error() {
    match convert_to_table(r#"[{"a":1"#) {
        Err(ConvertError::Parse(d)) => assert!(!d.is_empty()),
        _ => panic!("expected a parse error"),
    }
}

#[test]
fn empty_text_is_a_parse_error() {
    assert!(matches!(convert_to_table(""), Err(ConvertError::Parse(_))));
}

#[test]
fn trailing_garbage_is_a_parse_error() {
    assert!(matches!(convert_to_table("[] x"), Err(ConvertError::Parse(_))));
}

#[test]
fn sheet_cells_lay_out_header_then_rows() {
    let t = table(r#"[{"a":1,"b":2},{"c":3}]"#);
    let cells: Vec<(usize, usize, String)> = sheet_cells(&t)
        .into_iter()
        .map(|c| (c.row, c.col, c.text))
        .collect();
    assert_eq!(
        cells,
        vec![
            (0, 0, "a".to_string()),
            (0, 1, "b".to_string()),
            (1, 0, "1".to_string()),
            (1, 1, "2".to_string()),
            (2, 0, "3".to_string()),
        ]
    );
}

#[test]
fn sheet_cells_skip_rows_without_cells() {
    let t = table(r#"[{"a":"x"},5,{"a":"y"}]"#);
    let cells: Vec<(usize, usize, String)> = sheet_cells(&t)
        .into_iter()
        .map(|c| (c.row, c.col, c.text))
        .collect();
    assert_eq!(
        cells,
        vec![
            (0, 0, "a".to_string()),
            (1, 0, "x".to_string()),
            (3, 0, "y".to_string()),
        ]
    );
}

#[test]
fn error_messages() {
    assert_eq!(ConvertError::Shape.message(), "root must be an array");
    assert_eq!(ConvertError::Parse("bad".to_string()).message(), "invalid JSON: bad");
    assert_eq!(
        ConvertError::Write("disk".to_string()).message(),
        "could not write the spreadsheet: disk"
    );
    assert_eq!(
        ConvertError::Io("gone".to_string()).message(),
        "could not read the spreadsheet: gone"
    );
}

#[test]
fn cache_file_name_replaces_separators() {
    assert_eq!(cache_file_name("a/b\\c"), "tab-a_b_c.json");
    assert_eq!(cache_file_name(""), "tab-.json");
    assert_eq!(cache_file_name("标签-1"), "tab-标签-1.json");
}

#[test]
fn parse_error_carries_the_parser_diagnostic() {
    let text = r#"[{"a":1"#;
    let expected = serde_json::from_str::<serde_json::Value>(text)
        .unwrap_err()
        .to_string();
    match convert_to_table(text) {
        Err(ConvertError::Parse(d)) => assert_eq!(d, expected),
        _ => panic!("expected a parse error"),
    }
}
