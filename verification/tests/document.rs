use std::io::{Cursor, Read};

use xlsx_writer::{ExcelDate, ExcelDateTime, Workbook, XlsxWriterError};

fn part(bytes: &[u8], name: &str) -> String {
    let mut archive = zip::ZipArchive::new(Cursor::new(bytes)).unwrap();
    let mut file = archive.by_name(name).unwrap();
    let mut text = String::new();
    file.read_to_string(&mut text).unwrap();
    text
}

fn first_sheet(book: &mut Workbook) -> String {
    let bytes = book.save_to_buffer().unwrap();
    part(&bytes, "xl/worksheets/sheet1.xml")
}

/// The element of the cell at `place`, such as `A1`, if the sheet has one.
fn cell(sheet: &str, place: &str) -> Option<String> {
    let open = format!("<c r=\"{}\"", place);
    let from = sheet.find(&open)?;
    let rest = &sheet[from..];
    let to = rest.find("</c>")? + "</c>".len();
    Some(rest[..to].to_string())
}

/// The text between `<v>` and `</v>` of the cell at `place`.
fn value(sheet: &str, place: &str) -> Option<String> {
    let element = cell(sheet, place)?;
    let from = element.find("<v>")? + "<v>".len();
    let to = element.find("</v>")?;
    Some(element[from..to].to_string())
}

#[test]
fn buffer_is_a_zip_container() {
    let mut book = Workbook::new();
    book.add_worksheet().unwrap();
    let bytes = book.save_to_buffer().unwrap();
    assert!(bytes.len() > 4);
    assert_eq!(&bytes[..2], b"PK");
}

#[test]
fn end_to_end() {
    let mut book = Workbook::new();
    assert_eq!(book.add_worksheet().unwrap(), 0);
    book.write_string(0, 0, 0, "Hello".to_string()).unwrap();
    let written = book.worksheet_mut(0).unwrap().write_number(0, 1, 42.5).map(|_| ());
    assert!(written.is_ok());
    book.write_date(0, 1, 0, ExcelDate { year: 2024, month: 3, day: 15 }).unwrap();
    let bytes = book.save_to_buffer().unwrap();
    assert!(!bytes.is_empty());

    let workbook = part(&bytes, "xl/workbook.xml");
    assert_eq!(workbook.matches("<sheet ").count(), 1);
    assert!(workbook.contains("<sheet name=\"Sheet1\" sheetId=\"1\""));

    let sheet = part(&bytes, "xl/worksheets/sheet1.xml");
    assert_eq!(sheet.matches("<c ").count(), 3);
    assert_eq!(cell(&sheet, "A1").unwrap(), "<c r=\"A1\" t=\"s\"><v>0</v></c>");
    assert_eq!(cell(&sheet, "B1").unwrap(), "<c r=\"B1\"><v>42.5</v></c>");
    assert_eq!(cell(&sheet, "A2").unwrap(), "<c r=\"A2\" s=\"1\"><v>45366</v></c>");

    let strings = part(&bytes, "xl/sharedStrings.xml");
    assert!(strings.contains("<si><t>Hello</t></si>"));

    let styles = part(&bytes, "xl/styles.xml");
    assert!(styles.contains("<numFmt numFmtId=\"164\" formatCode=\"yyyy-mm-dd\"/>"));
    let formats = &styles[styles.find("<cellXfs").unwrap()..styles.find("</cellXfs>").unwrap()];
    let second = formats.match_indices("<xf ").nth(1).unwrap().0;
    assert!(formats[second..].starts_with("<xf numFmtId=\"164\""));
}

#[test]
fn written_integer_reads_back_as_the_same_number() {
    let values: [i64; 10] = [
        0,
        1,
        -1,
        42,
        -42,
        123_456_789_012,
        9_007_199_254_740_991,
        9_007_199_254_740_992,
        -9_007_199_254_740_991,
        -9_007_199_254_740_992,
    ];
    let mut book = Workbook::new();
    book.add_worksheet().unwrap();
    for (row, v) in values.iter().enumerate() {
        book.write_integer(0, row as u32, 0, *v).unwrap();
    }
    let sheet = first_sheet(&mut book);
    for (row, v) in values.iter().enumerate() {
        let element = cell(&sheet, &format!("A{}", row + 1)).unwrap();
        assert!(element.starts_with(&format!("<c r=\"A{}\"><v>", row + 1)));
        let read: f64 = value(&sheet, &format!("A{}", row + 1)).unwrap().parse().unwrap();
        assert_eq!(read, *v as f64);
    }
    assert_eq!(value(&sheet, "A4").unwrap(), "42");
    assert_eq!(value(&sheet, "A8").unwrap(), "9007199254740992");
}

#[test]
fn integers_beyond_the_exact_range_are_rounded_to_a_float() {
    let mut book = Workbook::new();
    book.add_worksheet().unwrap();
    book.write_integer(0, 0, 0, i64::MAX).unwrap();
    book.write_integer(0, 1, 0, 9_007_199_254_740_993).unwrap();
    let sheet = first_sheet(&mut book);
    let read: f64 = value(&sheet, "A1").unwrap().parse().unwrap();
    assert_eq!(read, 9_223_372_036_854_775_807i64 as f64);
    let read: f64 = value(&sheet, "A2").unwrap().parse().unwrap();
    assert_eq!(read, 9_007_199_254_740_992.0);
}

#[test]
fn integers_beyond_the_exact_range_can_share_a_float() {
    let mut book = Workbook::new();
    book.add_worksheet().unwrap();
    book.write_integer(0, 0, 0, 9_007_199_254_740_992).unwrap();
    book.write_integer(0, 1, 0, 9_007_199_254_740_993).unwrap();
    book.write_integer(0, 2, 0, -9_007_199_254_740_993).unwrap();
    book.write_integer(0, 3, 0, i64::MIN).unwrap();
    let sheet = first_sheet(&mut book);
    assert_eq!(value(&sheet, "A1"), value(&sheet, "A2"));
    assert_eq!(value(&sheet, "A3").unwrap(), "-9007199254740992");
    let read: f64 = value(&sheet, "A4").unwrap().parse().unwrap();
    assert_eq!(read, -9_223_372_036_854_775_808.0);
}

#[test]
fn saving_twice_without_a_write_gives_the_same_bytes() {
    let mut book = Workbook::new();
    book.add_worksheet().unwrap();
    book.write_integer(0, 0, 0, 1).unwrap();
    book.write_date(0, 1, 0, ExcelDate { year: 2024, month: 3, day: 15 }).unwrap();
    let first = book.save_to_buffer().unwrap();
    let second = book.save_to_buffer().unwrap();
    assert_eq!(first, second);
}

#[test]
fn invalid_date_leaves_the_cell_unwritten() {
    let mut book = Workbook::new();
    book.add_worksheet().unwrap();
    book.write_integer(0, 0, 0, 1).unwrap();
    let bad = ExcelDate { year: 2024, month: 2, day: 30 };
    assert!(matches!(book.write_date(0, 1, 0, bad), Err(XlsxWriterError::DateError(_))));
    assert!(matches!(book.write_date(0, 0, 0, bad), Err(XlsxWriterError::DateError(_))));
    let sheet = first_sheet(&mut book);
    assert_eq!(sheet.matches("<c ").count(), 1);
    assert_eq!(cell(&sheet, "A2"), None);
    assert_eq!(cell(&sheet, "A1").unwrap(), "<c r=\"A1\"><v>1</v></c>");
}

#[test]
fn refused_writes_leave_the_document_as_it_was() {
    let mut book = Workbook::new();
    book.add_worksheet().unwrap();
    book.write_boolean(0, 0, 0, true).unwrap();
    let before = first_sheet(&mut book);
    assert!(book.write_integer(1, 0, 0, 5).is_err());
    assert!(book.write_string(1, 0, 1, "x".to_string()).is_err());
    assert!(book.write_boolean(7, 0, 0, false).is_err());
    assert!(book.write_string(0, 0, 0, "x".repeat(32_768)).is_err());
    assert!(book.write_integer(0, 1_048_576, 0, 5).is_err());
    let moment = ExcelDateTime { year: 2024, month: 3, day: 15, hour: 24, minute: 0, second: 0 };
    assert!(book.write_datetime(0, 0, 0, moment).is_err());
    assert_eq!(first_sheet(&mut book), before);
}

#[test]
fn empty_text_writes_no_cell() {
    let mut book = Workbook::new();
    book.add_worksheet().unwrap();
    book.write_integer(0, 0, 0, 7).unwrap();
    book.write_string(0, 0, 0, String::new()).unwrap();
    book.write_string(0, 0, 1, String::new()).unwrap();
    let sheet = first_sheet(&mut book);
    assert_eq!(cell(&sheet, "A1").unwrap(), "<c r=\"A1\"><v>7</v></c>");
    assert_eq!(cell(&sheet, "B1"), None);
}

#[test]
fn boolean_cells_hold_the_value() {
    let mut book = Workbook::new();
    book.add_worksheet().unwrap();
    book.write_boolean(0, 0, 0, true).unwrap();
    book.write_boolean(0, 0, 1, false).unwrap();
    let sheet = first_sheet(&mut book);
    assert_eq!(cell(&sheet, "A1").unwrap(), "<c r=\"A1\" t=\"b\"><v>1</v></c>");
    assert_eq!(cell(&sheet, "B1").unwrap(), "<c r=\"B1\" t=\"b\"><v>0</v></c>");
}

#[test]
fn text_cells_hold_the_text() {
    let mut book = Workbook::new();
    book.add_worksheet().unwrap();
    book.write_string(0, 2, 3, "first".to_string()).unwrap();
    book.write_string(0, 2, 4, "second".to_string()).unwrap();
    let bytes = book.save_to_buffer().unwrap();
    let sheet = part(&bytes, "xl/worksheets/sheet1.xml");
    assert_eq!(cell(&sheet, "D3").unwrap(), "<c r=\"D3\" t=\"s\"><v>0</v></c>");
    assert_eq!(cell(&sheet, "E3").unwrap(), "<c r=\"E3\" t=\"s\"><v>1</v></c>");
    let strings = part(&bytes, "xl/sharedStrings.xml");
    assert!(strings.contains("<si><t>first</t></si><si><t>second</t></si>"));
}

#[test]
fn the_last_write_to_a_cell_wins() {
    let mut book = Workbook::new();
    book.add_worksheet().unwrap();
    book.write_string(0, 0, 0, "old".to_string()).unwrap();
    book.write_integer(0, 0, 0, 5).unwrap();
    book.write_integer(0, 0, 1, 5).unwrap();
    book.write_boolean(0, 0, 1, true).unwrap();
    let sheet = first_sheet(&mut book);
    assert_eq!(sheet.matches("<c ").count(), 2);
    assert_eq!(cell(&sheet, "A1").unwrap(), "<c r=\"A1\"><v>5</v></c>");
    assert_eq!(cell(&sheet, "B1").unwrap(), "<c r=\"B1\" t=\"b\"><v>1</v></c>");
}

#[test]
fn writes_go_to_the_worksheet_behind_the_handle() {
    let mut book = Workbook::new();
    book.add_worksheet().unwrap();
    book.add_worksheet_with_name("Data".to_string()).unwrap();
    book.write_integer(1, 0, 0, 11).unwrap();
    book.write_integer(0, 0, 0, 10).unwrap();
    let bytes = book.save_to_buffer().unwrap();
    let first = part(&bytes, "xl/worksheets/sheet1.xml");
    let second = part(&bytes, "xl/worksheets/sheet2.xml");
    assert_eq!(value(&first, "A1").unwrap(), "10");
    assert_eq!(value(&second, "A1").unwrap(), "11");
    let workbook = part(&bytes, "xl/workbook.xml");
    assert!(workbook.contains("<sheet name=\"Sheet1\" sheetId=\"1\""));
    assert!(workbook.contains("<sheet name=\"Data\" sheetId=\"2\""));
}

#[test]
fn dates_become_serial_numbers() {
    let mut book = Workbook::new();
    book.add_worksheet().unwrap();
    let days = [
        (1899u16, 12u8, 31u8, "0"),
        (1900, 1, 1, "1"),
        (1900, 2, 28, "59"),
        (1900, 3, 1, "61"),
        (2000, 2, 29, "36585"),
        (2024, 3, 15, "45366"),
        (9999, 12, 31, "2958465"),
    ];
    for (row, (year, month, day, _)) in days.iter().enumerate() {
        let date = ExcelDate { year: *year, month: *month, day: *day };
        book.write_date(0, row as u32, 0, date).unwrap();
    }
    let sheet = first_sheet(&mut book);
    for (row, (_, _, _, serial)) in days.iter().enumerate() {
        assert_eq!(value(&sheet, &format!("A{}", row + 1)).unwrap(), *serial);
    }
}

#[test]
fn moments_carry_the_time_of_day() {
    let mut book = Workbook::new();
    book.add_worksheet().unwrap();
    let noon = ExcelDateTime { year: 2024, month: 3, day: 15, hour: 12, minute: 0, second: 0 };
    book.write_datetime(0, 0, 0, noon).unwrap();
    book.write_datetime(0, 1, 0, ExcelDateTime { hour: 0, ..noon }).unwrap();
    book.write_datetime(0, 2, 0, ExcelDateTime { hour: 6, ..noon }).unwrap();
    book.write_datetime(0, 3, 0, ExcelDateTime { minute: 30, second: 45, ..noon }).unwrap();
    let bytes = book.save_to_buffer().unwrap();
    let sheet = part(&bytes, "xl/worksheets/sheet1.xml");
    assert_eq!(cell(&sheet, "A1").unwrap(), "<c r=\"A1\" s=\"1\"><v>45366.5</v></c>");
    assert_eq!(value(&sheet, "A2").unwrap(), "45366");
    assert_eq!(value(&sheet, "A3").unwrap(), "45366.25");
    assert_eq!(value(&sheet, "A4").unwrap(), "45366.52135416667");
    let styles = part(&bytes, "xl/styles.xml");
    assert!(styles.contains("<numFmt numFmtId=\"164\" formatCode=\"yyyy-mm-dd hh:mm:ss\"/>"));
}

#[test]
fn a_given_format_goes_to_the_file_as_it_is() {
    let mut book = Workbook::new();
    book.add_worksheet().unwrap();
    let date = ExcelDate { year: 2024, month: 3, day: 15 };
    book.write_date_with_format(0, 0, 0, date, "dd/mm/yyyy".to_string()).unwrap();
    book.write_date_with_format(0, 1, 0, date, "no format at all".to_string()).unwrap();
    book.write_date(0, 2, 0, date).unwrap();
    let bytes = book.save_to_buffer().unwrap();
    let sheet = part(&bytes, "xl/worksheets/sheet1.xml");
    assert_eq!(cell(&sheet, "A1").unwrap(), "<c r=\"A1\" s=\"1\"><v>45366</v></c>");
    assert_eq!(cell(&sheet, "A2").unwrap(), "<c r=\"A2\" s=\"2\"><v>45366</v></c>");
    assert_eq!(cell(&sheet, "A3").unwrap(), "<c r=\"A3\" s=\"3\"><v>45366</v></c>");
    let styles = part(&bytes, "xl/styles.xml");
    assert!(styles.contains("<numFmt numFmtId=\"164\" formatCode=\"dd/mm/yyyy\"/>"));
    assert!(styles.contains("<numFmt numFmtId=\"165\" formatCode=\"no format at all\"/>"));
    assert!(styles.contains("<numFmt numFmtId=\"166\" formatCode=\"yyyy-mm-dd\"/>"));
}

#[test]
fn an_empty_document_is_saved_with_one_worksheet() {
    let mut book = Workbook::new();
    let bytes = book.save_to_buffer().unwrap();
    let workbook = part(&bytes, "xl/workbook.xml");
    assert_eq!(workbook.matches("<sheet ").count(), 1);
    let sheet = part(&bytes, "xl/worksheets/sheet1.xml");
    assert!(sheet.contains("<sheetData/>"));
}

#[test]
fn a_document_can_be_saved_again_after_more_writes() {
    let mut book = Workbook::new();
    book.add_worksheet().unwrap();
    book.write_integer(0, 0, 0, 1).unwrap();
    let first = first_sheet(&mut book);
    book.write_integer(0, 1, 0, 2).unwrap();
    let second = first_sheet(&mut book);
    assert_eq!(first.matches("<c ").count(), 1);
    assert_eq!(second.matches("<c ").count(), 2);
    assert_eq!(value(&second, "A1").unwrap(), "1");
    assert_eq!(value(&second, "A2").unwrap(), "2");
}
