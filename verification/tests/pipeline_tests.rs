use std::io::Cursor;

use calamine::Data;
use calamine::Reader;
use calamine::Xlsx;
use calamine::open_workbook_from_rs;

use rs_jsonl2xlsx::XErr;
use rs_jsonl2xlsx::reader2jsons2sheet2writer;
use rs_jsonl2xlsx::stdin2jsons2sheet2stdout_default;

fn convert_default(input: &str) -> Result<Vec<u8>, XErr> {
    stdin2jsons2sheet2stdout_default(input.as_bytes())
}

fn read_sheet(bytes: &[u8], name: &str) -> calamine::Range<Data> {
    let mut wb: Xlsx<_> =
        open_workbook_from_rs(Cursor::new(bytes.to_vec())).expect("output must be a readable xlsx");
    wb.worksheet_range(name).expect("the worksheet must exist")
}

fn cell_text(range: &calamine::Range<Data>, row: u32, col: u32) -> String {
    match range.get_value((row, col)) {
        Some(Data::String(s)) => s.clone(),
        other => panic!("expected a text cell at ({row},{col}), found {other:?}"),
    }
}

fn cell_number(range: &calamine::Range<Data>, row: u32, col: u32) -> f64 {
    match range.get_value((row, col)) {
        Some(Data::Float(x)) => *x,
        Some(Data::Int(i)) => *i as f64,
        other => panic!("expected a numeric cell at ({row},{col}), found {other:?}"),
    }
}

fn cell_is_empty(range: &calamine::Range<Data>, row: u32, col: u32) -> bool {
    matches!(range.get_value((row, col)), None | Some(Data::Empty))
}

#[test]
fn two_records_make_header_and_two_rows() {
    let out = convert_default("{\"a\":1,\"b\":\"x\"}\n{\"a\":2,\"b\":\"y\"}\n").unwrap();
    let mut wb: Xlsx<_> = open_workbook_from_rs(Cursor::new(out.clone())).unwrap();
    assert_eq!(wb.sheet_names(), vec!["Sheet1".to_string()]);
    let range = read_sheet(&out, "Sheet1");
    assert_eq!(cell_text(&range, 0, 0), "a");
    assert_eq!(cell_text(&range, 0, 1), "b");
    assert_eq!(cell_number(&range, 1, 0), 1.0);
    assert_eq!(cell_text(&range, 1, 1), "x");
    assert_eq!(cell_number(&range, 2, 0), 2.0);
    assert_eq!(cell_text(&range, 2, 1), "y");
    assert!(cell_is_empty(&range, 3, 0));
    assert!(cell_is_empty(&range, 3, 1));
}

#[test]
fn row_count_equals_record_count() {
    let out = convert_default("{\"n\":1}\n{\"n\":2}\n{\"n\":3}\n").unwrap();
    let range = read_sheet(&out, "Sheet1");
    assert_eq!(cell_text(&range, 0, 0), "n");
    assert_eq!(cell_number(&range, 1, 0), 1.0);
    assert_eq!(cell_number(&range, 2, 0), 2.0);
    assert_eq!(cell_number(&range, 3, 0), 3.0);
    assert!(cell_is_empty(&range, 4, 0));
}

#[test]
fn array_value_becomes_json_text_and_null_stays_blank() {
    let out = convert_default("{\"a\":[1,2],\"b\":null}\n").unwrap();
    let range = read_sheet(&out, "Sheet1");
    assert_eq!(cell_text(&range, 0, 0), "a");
    assert_eq!(cell_text(&range, 0, 1), "b");
    assert_eq!(cell_text(&range, 1, 0), "[1,2]");
    assert!(cell_is_empty(&range, 1, 1));
}

#[test]
fn composite_values_round_trip_through_their_cell_text() {
    let out = convert_default("{\"a\":[1,\"two\",null],\"o\":{\"x\":1,\"y\":[true,null]}}\n")
        .unwrap();
    let range = read_sheet(&out, "Sheet1");
    let arr_text = cell_text(&range, 1, 0);
    let arr_back: serde_json::Value = serde_json::from_str(&arr_text).unwrap();
    let arr_orig: serde_json::Value = serde_json::from_str("[1,\"two\",null]").unwrap();
    assert_eq!(arr_back, arr_orig);
    let obj_text = cell_text(&range, 1, 1);
    let obj_back: serde_json::Value = serde_json::from_str(&obj_text).unwrap();
    let obj_orig: serde_json::Value = serde_json::from_str("{\"x\":1,\"y\":[true,null]}").unwrap();
    assert_eq!(obj_back, obj_orig);
}

#[test]
fn field_order_is_kept_not_sorted() {
    let out = convert_default("{\"b\":1,\"a\":2}\n").unwrap();
    let range = read_sheet(&out, "Sheet1");
    assert_eq!(cell_text(&range, 0, 0), "b");
    assert_eq!(cell_text(&range, 0, 1), "a");
    assert_eq!(cell_number(&range, 1, 0), 1.0);
    assert_eq!(cell_number(&range, 1, 1), 2.0);
}

#[test]
fn empty_input_yields_empty_input_error() {
    assert!(matches!(convert_default(""), Err(XErr::EmptyInput)));
}

#[test]
fn whitespace_only_input_yields_empty_input_error() {
    assert!(matches!(convert_default("  \n \t\n"), Err(XErr::EmptyInput)));
}

#[test]
fn unparseable_first_record_aborts() {
    assert!(matches!(
        convert_default("not json\n"),
        Err(XErr::UnableToParseLine(_))
    ));
}

#[test]
fn unparseable_second_record_aborts() {
    assert!(matches!(
        convert_default("{\"a\":1}\nnope\n"),
        Err(XErr::UnableToParseLine(_))
    ));
}

#[test]
fn non_object_record_aborts() {
    assert!(matches!(
        convert_default("[1,2]\n"),
        Err(XErr::UnableToParseLine(_))
    ));
}

#[test]
fn huge_number_literal_yields_invalid_number() {
    assert!(matches!(
        convert_default("{\"a\":1e999}\n"),
        Err(XErr::InvalidNumber(_))
    ));
}

#[test]
fn negative_and_fractional_numbers_survive() {
    let out = convert_default("{\"i\":-5,\"f\":2.5}\n").unwrap();
    let range = read_sheet(&out, "Sheet1");
    assert_eq!(cell_number(&range, 1, 0), -5.0);
    assert_eq!(cell_number(&range, 1, 1), 2.5);
}

#[test]
fn booleans_become_boolean_cells() {
    let out = convert_default("{\"t\":true,\"f\":false}\n").unwrap();
    let range = read_sheet(&out, "Sheet1");
    assert!(matches!(range.get_value((1, 0)), Some(Data::Bool(true))));
    assert!(matches!(range.get_value((1, 1)), Some(Data::Bool(false))));
}

#[test]
fn empty_string_value_leaves_the_cell_unwritten() {
    let out = convert_default("{\"a\":\"\",\"b\":\"x\"}\n").unwrap();
    let range = read_sheet(&out, "Sheet1");
    assert!(cell_is_empty(&range, 1, 0));
    assert_eq!(cell_text(&range, 1, 1), "x");
}

#[test]
fn all_null_record_still_counts_as_a_row() {
    let out = convert_default("{\"a\":null,\"b\":null}\n{\"a\":1,\"b\":2}\n").unwrap();
    let range = read_sheet(&out, "Sheet1");
    assert!(cell_is_empty(&range, 1, 0));
    assert!(cell_is_empty(&range, 1, 1));
    assert_eq!(cell_number(&range, 2, 0), 1.0);
    assert_eq!(cell_number(&range, 2, 1), 2.0);
}

#[test]
fn custom_sheet_name_is_used() {
    let mut buf: Vec<u8> = Vec::new();
    let out = reader2jsons2sheet2writer(
        "{\"a\":1}\n".as_bytes(),
        "Data".to_string(),
        &mut buf,
    )
    .unwrap();
    let mut wb: Xlsx<_> = open_workbook_from_rs(Cursor::new(out)).unwrap();
    assert_eq!(wb.sheet_names(), vec!["Data".to_string()]);
}

#[test]
fn invalid_sheet_name_is_rejected() {
    let mut buf: Vec<u8> = Vec::new();
    assert!(matches!(
        reader2jsons2sheet2writer("{\"a\":1}\n".as_bytes(), "bad[name".to_string(), &mut buf),
        Err(XErr::InvalidSheetName(_))
    ));
}

#[test]
fn empty_sheet_name_is_rejected() {
    let mut buf: Vec<u8> = Vec::new();
    assert!(matches!(
        reader2jsons2sheet2writer("{\"a\":1}\n".as_bytes(), String::new(), &mut buf),
        Err(XErr::InvalidSheetName(_))
    ));
}

#[test]
fn over_long_string_value_is_rejected() {
    let long = "x".repeat(32768);
    let input = format!("{{\"a\":\"{long}\"}}\n");
    assert!(matches!(
        convert_default(&input),
        Err(XErr::UnableToWriteString(_))
    ));
}

#[test]
fn string_at_the_length_limit_is_accepted() {
    let long = "x".repeat(32767);
    let input = format!("{{\"a\":\"{long}\"}}\n");
    let out = convert_default(&input).unwrap();
    let range = read_sheet(&out, "Sheet1");
    assert_eq!(cell_text(&range, 1, 0).len(), 32767);
}

#[test]
fn record_wider_than_the_column_index_range_overflows() {
    // The first record keeps the header narrow; the second runs its null
    // fields (silently ignored out of the sheet bounds) past the 16-bit
    // column index range.
    let mut input = String::from("{\"k0\":1}\n{");
    for i in 0..65537 {
        if i > 0 {
            input.push(',');
        }
        input.push_str(&format!("\"k{i}\":null"));
    }
    input.push_str("}\n");
    assert!(matches!(
        convert_default(&input),
        Err(XErr::ColumnOverflow(_))
    ));
}

#[test]
fn header_wider_than_the_sheet_bounds_is_rejected_by_the_encoder() {
    let mut input = String::from("{");
    for i in 0..16385 {
        if i > 0 {
            input.push(',');
        }
        input.push_str(&format!("\"k{i}\":{i}"));
    }
    input.push_str("}\n");
    assert!(matches!(
        convert_default(&input),
        Err(XErr::UnableToWriteString(_))
    ));
}

#[test]
fn boolean_outside_the_sheet_bounds_is_rejected() {
    let mut input = String::from("{\"k0\":1}\n{");
    for i in 0..16385 {
        if i > 0 {
            input.push(',');
        }
        input.push_str(&format!("\"k{i}\":true"));
    }
    input.push_str("}\n");
    assert!(matches!(
        convert_default(&input),
        Err(XErr::UnableToWriteBool(_))
    ));
}

#[test]
fn data_row_wider_than_the_sheet_bounds_is_rejected_by_the_encoder() {
    let mut input = String::from("{\"k0\":1}\n{");
    for i in 0..16385 {
        if i > 0 {
            input.push(',');
        }
        input.push_str(&format!("\"k{i}\":{i}"));
    }
    input.push_str("}\n");
    assert!(matches!(
        convert_default(&input),
        Err(XErr::UnableToWriteDouble(_))
    ));
}
