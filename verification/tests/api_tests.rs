use std::io::Cursor;

use calamine::Data;
use calamine::Reader;
use calamine::Xlsx;
use calamine::open_workbook_from_rs;

use rs_jsonl2xlsx::Book;
use rs_jsonl2xlsx::rdr2jsons;
use rs_jsonl2xlsx::stdin2jsons2sheet2stdout_default;

#[test]
fn records_split_at_token_boundaries_not_lines() {
    let out = stdin2jsons2sheet2stdout_default("{\"a\":1} {\"a\":2}".as_bytes()).unwrap();
    let mut wb: Xlsx<_> = open_workbook_from_rs(Cursor::new(out)).unwrap();
    let range = wb.worksheet_range("Sheet1").unwrap();
    assert!(matches!(range.get_value((1, 0)), Some(Data::Float(x)) if *x == 1.0));
    assert!(matches!(range.get_value((2, 0)), Some(Data::Float(x)) if *x == 2.0));
    assert!(matches!(range.get_value((3, 0)), None | Some(Data::Empty)));
}

#[test]
fn rdr2jsons_yields_the_parsed_records_in_order() {
    let records = rdr2jsons("{\"a\":1}\n{\"b\":\"x\"}\n".as_bytes());
    assert_eq!(records.len(), 2);
    let first = records[0].as_ref().unwrap();
    assert_eq!(first.get("a").unwrap(), &serde_json::Value::from(1u64));
    let second = records[1].as_ref().unwrap();
    assert_eq!(
        second.get("b").unwrap(),
        &serde_json::Value::String("x".to_string())
    );
}

#[test]
fn rdr2jsons_stops_at_the_first_malformed_record() {
    let records = rdr2jsons("{\"a\":1}\n???\n{\"a\":2}\n".as_bytes());
    assert_eq!(records.len(), 2);
    assert!(records[0].is_ok());
    assert!(records[1].is_err());
}

#[test]
fn book_assembles_a_named_sheet_from_records() {
    let mut bk = Book::default();
    let records = rdr2jsons("{\"a\":true}".as_bytes());
    let mut buf: Vec<u8> = Vec::new();
    let keys = vec!["a".to_string()];
    bk.jsons2sheet(records, "Data".to_string(), &mut buf, &keys)
        .unwrap();
    let bytes = bk.save_to_buffer().unwrap();
    let mut wb: Xlsx<_> = open_workbook_from_rs(Cursor::new(bytes)).unwrap();
    assert_eq!(wb.sheet_names(), vec!["Data".to_string()]);
    let range = wb.worksheet_range("Data").unwrap();
    assert!(matches!(range.get_value((0, 0)), Some(Data::String(s)) if s == "a"));
    assert!(matches!(range.get_value((1, 0)), Some(Data::Bool(true))));
}
