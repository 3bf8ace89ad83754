//! The engine, as far as the facade calls it. Nothing in this file is
//! proved: each function states what the `rust_xlsxwriter` source shows of
//! the call it makes, and the rest of the crate is proved from that.

use rust_xlsxwriter::XlsxError;
use vstd::prelude::*;

use crate::calendar::{engine_takes_date, engine_takes_time, time_of_day, ExcelDateTime};
use crate::error::EngineFault;
use crate::model::{
    exact_integer, generated_name, in_grid, name_accepted, no_cells, CellValue, SHEET_LIMIT,
    TEXT_LIMIT,
};

verus! {

/// An engine document: `rust_xlsxwriter::Workbook`, held as it is.
#[verifier::external_body]
pub struct Document {
    raw: rust_xlsxwriter::Workbook,
}

/// An engine date: `rust_xlsxwriter::ExcelDateTime`, held as it is.
#[verifier::external_body]
pub struct SerialDate {
    raw: rust_xlsxwriter::ExcelDateTime,
}

#[verifier::external_type_specification]
#[verifier::external_body]
pub struct ExWorksheet(rust_xlsxwriter::Worksheet);

#[verifier::external_type_specification]
#[verifier::external_body]
pub struct ExXlsxError(rust_xlsxwriter::XlsxError);

#[verifier::external_type_specification]
#[verifier::external_body]
pub struct ExFormat(rust_xlsxwriter::Format);

/// The worksheets of a document, in the order in which they were added.
pub uninterp spec fn sheets(book: Document) -> Seq<rust_xlsxwriter::Worksheet>;

/// The engine's count of the worksheets it has numbered so far, from which
/// it makes the next generated name.
pub uninterp spec fn sheets_numbered(book: Document) -> u16;

/// The name of a worksheet.
pub uninterp spec fn sheet_name(sheet: rust_xlsxwriter::Worksheet) -> Seq<char>;

/// The cells of a worksheet that hold a value.
pub uninterp spec fn sheet_cells(sheet: rust_xlsxwriter::Worksheet) -> Map<(u32, u16), CellValue>;

/// The calendar fields that an engine date was made from.
pub uninterp spec fn moment_of(date: SerialDate) -> ExcelDateTime;

/// The number format that an engine format carries.
pub uninterp spec fn number_format(format: rust_xlsxwriter::Format) -> Seq<char>;

/// The kind of an engine error, with the text it carries.
pub uninterp spec fn fault_of(error: XlsxError) -> EngineFault;

/// The engine's description of one of its errors.
pub uninterp spec fn error_text(error: XlsxError) -> Seq<char>;

/// The engine's description of why it takes no date with these fields.
pub uninterp spec fn date_refusal(year: u16, month: u8, day: u8) -> Seq<char>;

/// The engine's description of why it takes no time with these fields.
pub uninterp spec fn time_refusal(minute: u8, second: u8) -> Seq<char>;

/// The engine's description of the naming rule that a worksheet name breaks.
pub uninterp spec fn name_refusal(name: Seq<char>) -> Seq<char>;

/// The integer that the cast of `value` to a 64-bit binary float gives.
pub uninterp spec fn float_of(value: i64) -> int;

/// What saving the document gives: the bytes of the file, or the kind of the
/// engine's error.
pub uninterp spec fn rendering(book: Document) -> Result<Seq<u8>, EngineFault>;

/// A text in lower case, as `str::to_lowercase` gives it.
pub uninterp spec fn lowercase(text: Seq<char>) -> Seq<char>;

/// `Workbook::new`: a document without worksheets.
#[verifier::external_body]
pub(crate) fn new_document() -> (book: Document)
    ensures
        sheets(book).len() == 0,
        sheets_numbered(book) == 0,
{
    Document { raw: rust_xlsxwriter::Workbook::new() }
}

/// `Workbook::worksheets`: the number of worksheets; the document stays as
/// it is.
#[verifier::external_body]
pub(crate) fn sheet_total(book: &mut Document) -> (total: usize)
    ensures
        total == sheets(*old(book)).len(),
        *final(book) == *old(book),
{
    book.raw.worksheets().len()
}

/// `Workbook::add_worksheet`: one more worksheet at the end, without cells,
/// handed out to write to; the others stay as they are. Its name is `Sheet`
/// and the number that the engine's 16-bit counter reaches with it; the
/// counter must have room.
#[verifier::external_body]
pub(crate) fn append_sheet(book: &mut Document) -> (sheet: &mut rust_xlsxwriter::Worksheet)
    requires
        sheets_numbered(*old(book)) < SHEET_LIMIT,
    ensures
        sheet_cells(*sheet) == no_cells(),
        sheet_name(*sheet) == generated_name(sheets_numbered(*old(book)) as nat + 1),
        sheets(*final(book)) == sheets(*old(book)).push(*final(sheet)),
        sheets_numbered(*final(book)) == sheets_numbered(*old(book)) + 1,
{
    book.raw.add_worksheet()
}

/// `Workbook::worksheet_from_index`: the worksheet at `index`, to write to,
/// or an error where the document has no such worksheet. Whatever the caller
/// does to the worksheet is done to the document's worksheet at that place,
/// and to nothing else.
#[verifier::external_body]
pub(crate) fn sheet_at(book: &mut Document, index: usize) -> (r: Result<
    &mut rust_xlsxwriter::Worksheet,
    XlsxError,
>)
    ensures
        r is Ok <==> index < sheets(*old(book)).len(),
        r is Ok ==> *r->Ok_0 == sheets(*old(book))[index as int],
        r is Ok ==> sheets(*final(book)) == sheets(*old(book)).update(
            index as int,
            *final(r->Ok_0),
        ),
        r is Ok ==> sheets_numbered(*final(book)) == sheets_numbered(*old(book)),
        r is Err ==> *final(book) == *old(book),
{
    book.raw.worksheet_from_index(index)
}

/// `Worksheet::new`: a worksheet that belongs to no document.
#[verifier::external_body]
pub(crate) fn loose_sheet() -> (sheet: rust_xlsxwriter::Worksheet) {
    rust_xlsxwriter::Worksheet::new()
}

/// `Worksheet::set_name`: gives the worksheet the name if the name keeps the
/// naming rules; otherwise the name stays and the error describes the broken
/// rule, in words that depend on the name alone. The cells are not touched.
#[verifier::external_body]
pub(crate) fn rename_sheet(sheet: &mut rust_xlsxwriter::Worksheet, name: &str) -> (r: Result<
    (),
    XlsxError,
>)
    ensures
        r is Ok <==> name_accepted(name@),
        r is Ok ==> sheet_name(*final(sheet)) == name@,
        r is Err ==> sheet_name(*final(sheet)) == sheet_name(*old(sheet)),
        r is Err ==> (fault_of(r->Err_0) matches EngineFault::SheetnameRejected(text)
            && text@ == name_refusal(name@)),
        sheet_cells(*final(sheet)) == sheet_cells(*old(sheet)),
{
    sheet.set_name(name).map(|_| ())
}

/// `Worksheet::name`: the worksheet's name.
#[verifier::external_body]
pub(crate) fn name_of(sheet: &rust_xlsxwriter::Worksheet) -> (name: String)
    ensures
        name@ == sheet_name(*sheet),
{
    sheet.name()
}

/// `Worksheet::write_string`: an empty text is passed over; any other text
/// is written at (row, col) if that lies in the grid and the text has at
/// most 32,767 characters. The place is tested before the length.
#[verifier::external_body]
pub(crate) fn put_text(
    sheet: &mut rust_xlsxwriter::Worksheet,
    row: u32,
    col: u16,
    text: &str,
) -> (r: Result<(), XlsxError>)
    ensures
        r is Ok <==> text@.len() == 0 || (in_grid(row, col) && text@.len() <= TEXT_LIMIT),
        r is Err ==> fault_of(r->Err_0) == if in_grid(row, col) {
            EngineFault::MaxStringLength
        } else {
            EngineFault::RowColumnLimit
        },
        sheet_cells(*final(sheet)) == if r is Ok && text@.len() > 0 {
            sheet_cells(*old(sheet)).insert((row, col), CellValue::Text(text@))
        } else {
            sheet_cells(*old(sheet))
        },
        sheet_name(*final(sheet)) == sheet_name(*old(sheet)),
{
    sheet.write_string(row, col, text).map(|_| ())
}

/// `Worksheet::write` of an `i64`, which the engine casts to a 64-bit float
/// and stores as a number: written at (row, col) if that lies in the grid.
/// The cell holds the integer itself up to 2^53 in magnitude, and beyond
/// that whatever the cast gives.
#[verifier::external_body]
pub(crate) fn put_integer(
    sheet: &mut rust_xlsxwriter::Worksheet,
    row: u32,
    col: u16,
    value: i64,
) -> (r: Result<(), XlsxError>)
    ensures
        r is Ok <==> in_grid(row, col),
        r is Err ==> fault_of(r->Err_0) == EngineFault::RowColumnLimit,
        sheet_cells(*final(sheet)) == if r is Ok {
            sheet_cells(*old(sheet)).insert(
                (row, col),
                CellValue::Number(
                    if exact_integer(value) {
                        value as int
                    } else {
                        float_of(value)
                    },
                ),
            )
        } else {
            sheet_cells(*old(sheet))
        },
        sheet_name(*final(sheet)) == sheet_name(*old(sheet)),
{
    sheet.write(row, col, value).map(|_| ())
}

/// `Worksheet::write_boolean`: written at (row, col) if that lies in the
/// grid.
#[verifier::external_body]
pub(crate) fn put_boolean(
    sheet: &mut rust_xlsxwriter::Worksheet,
    row: u32,
    col: u16,
    value: bool,
) -> (r: Result<(), XlsxError>)
    ensures
        r is Ok <==> in_grid(row, col),
        r is Err ==> fault_of(r->Err_0) == EngineFault::RowColumnLimit,
        sheet_cells(*final(sheet)) == if r is Ok {
            sheet_cells(*old(sheet)).insert((row, col), CellValue::Boolean(value))
        } else {
            sheet_cells(*old(sheet))
        },
        sheet_name(*final(sheet)) == sheet_name(*old(sheet)),
{
    sheet.write_boolean(row, col, value).map(|_| ())
}

/// `Worksheet::write_datetime_with_format`: the date, with the format, is
/// written at (row, col) if that lies in the grid. The engine stores a day
/// count with the time as a fraction of the day, which tells two moments
/// apart as long as each holds a time of day.
#[verifier::external_body]
pub(crate) fn put_moment(
    sheet: &mut rust_xlsxwriter::Worksheet,
    row: u32,
    col: u16,
    date: &SerialDate,
    format: &rust_xlsxwriter::Format,
) -> (r: Result<(), XlsxError>)
    requires
        time_of_day(moment_of(*date)),
    ensures
        r is Ok <==> in_grid(row, col),
        r is Err ==> fault_of(r->Err_0) == EngineFault::RowColumnLimit,
        sheet_cells(*final(sheet)) == if r is Ok {
            sheet_cells(*old(sheet)).insert(
                (row, col),
                CellValue::Moment { at: moment_of(*date), format: number_format(*format) },
            )
        } else {
            sheet_cells(*old(sheet))
        },
        sheet_name(*final(sheet)) == sheet_name(*old(sheet)),
{
    sheet.write_datetime_with_format(row, col, &date.raw, format).map(|_| ())
}

/// `ExcelDateTime::from_ymd`: the date at midnight, for the fields that the
/// engine takes; for the others an error whose description depends on the
/// fields alone.
#[verifier::external_body]
pub(crate) fn date_from_ymd(year: u16, month: u8, day: u8) -> (r: Result<
    SerialDate,
    XlsxError,
>)
    ensures
        r is Ok <==> engine_takes_date(year as int, month as int, day as int),
        r is Ok ==> moment_of(r->Ok_0) == (ExcelDateTime {
            year,
            month,
            day,
            hour: 0,
            minute: 0,
            second: 0,
        }),
        r is Err ==> error_text(r->Err_0) == date_refusal(year, month, day),
{
    match rust_xlsxwriter::ExcelDateTime::from_ymd(year, month, day) {
        Ok(raw) => Ok(SerialDate { raw }),
        Err(error) => Err(error),
    }
}

/// `ExcelDateTime::and_hms`: the same day at the given time. The engine
/// takes any hour, a minute up to 60 and a second below 60; for the others
/// an error whose description depends on minute and second alone.
#[verifier::external_body]
pub(crate) fn date_and_hms(date: SerialDate, hour: u8, minute: u8, second: u8) -> (r: Result<
    SerialDate,
    XlsxError,
>)
    ensures
        r is Ok <==> engine_takes_time(minute as int, second as int),
        r is Ok ==> moment_of(r->Ok_0) == (ExcelDateTime {
            hour,
            minute,
            second,
            ..moment_of(date)
        }),
        r is Err ==> error_text(r->Err_0) == time_refusal(minute, second),
{
    match date.raw.and_hms(u16::from(hour), minute, second) {
        Ok(raw) => Ok(SerialDate { raw }),
        Err(error) => Err(error),
    }
}

/// Whether two rows of worksheets have the same names and cells, place by
/// place.
pub open spec fn same_content(
    left: Seq<rust_xlsxwriter::Worksheet>,
    right: Seq<rust_xlsxwriter::Worksheet>,
) -> bool {
    &&& left.len() == right.len()
    &&& forall|i: int|
        0 <= i < left.len() ==> sheet_name(#[trigger] left[i]) == sheet_name(right[i])
            && sheet_cells(left[i]) == sheet_cells(right[i])
}

/// Whether two of the worksheets have names that are equal in lower case.
pub open spec fn names_clash(row: Seq<rust_xlsxwriter::Worksheet>) -> bool {
    exists|i: int, j: int|
        0 <= i < j < row.len() && lowercase(sheet_name(#[trigger] row[i])) == lowercase(
            sheet_name(#[trigger] row[j]),
        )
}

/// `Workbook::save_to_buffer`: the document as the bytes of an xlsx file.
/// A document without worksheets is first given one, as `add_worksheet`
/// does; apart from that, names and cells stay as they are. Two names that
/// are equal in lower case make the call fail. The engine reads no clock
/// and nothing else outside the document while it saves, so bytes and error
/// depend on the document alone.
#[verifier::external_body]
pub(crate) fn render(book: &mut Document) -> (r: Result<Vec<u8>, XlsxError>)
    requires
        sheets(*old(book)).len() == 0 ==> sheets_numbered(*old(book)) < SHEET_LIMIT,
    ensures
        rendering(*old(book)) == match r {
            Ok(bytes) => Ok(bytes@),
            Err(error) => Err(fault_of(error)),
        },
        names_clash(sheets(*old(book))) ==> r is Err && fault_of(r->Err_0) is SheetnameReused,
        sheets(*old(book)).len() != 0 ==> same_content(sheets(*final(book)), sheets(*old(book)))
            && sheets_numbered(*final(book)) == sheets_numbered(*old(book)),
        sheets(*old(book)).len() == 0 ==> sheets(*final(book)).len() == 1
            && sheet_cells(sheets(*final(book))[0]) == no_cells()
            && sheet_name(sheets(*final(book))[0]) == generated_name(
            sheets_numbered(*old(book)) as nat + 1,
        ) && sheets_numbered(*final(book)) == sheets_numbered(*old(book)) + 1,
{
    book.raw.save_to_buffer()
}

/// `Format::new` and `Format::set_num_format`: a format that sets nothing
/// but the number format.
#[verifier::external_body]
pub(crate) fn format_with(code: &str) -> (format: rust_xlsxwriter::Format)
    ensures
        number_format(format) == code@,
{
    rust_xlsxwriter::Format::new().set_num_format(code)
}

/// `str::to_lowercase`.
#[verifier::external_body]
pub(crate) fn lowered(text: &str) -> (lower: String)
    ensures
        lower@ == lowercase(text@),
{
    text.to_lowercase()
}

/// The `Display` of `XlsxError`: the engine's description of the error.
#[verifier::external_body]
pub(crate) fn describe(error: &XlsxError) -> (text: String)
    ensures
        text@ == error_text(*error),
{
    error.to_string()
}

/// Tells the variants of `XlsxError` apart, one arm for each that the facade
/// names. The text of an I/O error is the system's; that of a broken naming
/// rule and of the other kinds is the engine's description, its `Display`.
#[verifier::external_body]
pub(crate) fn classify(error: XlsxError) -> (fault: EngineFault)
    ensures
        fault == fault_of(error),
{
    let text = error.to_string();
    match error {
        XlsxError::IoError(cause) => EngineFault::Io(cause.to_string()),
        XlsxError::RowColumnLimitError => EngineFault::RowColumnLimit,
        XlsxError::MaxStringLengthExceeded => EngineFault::MaxStringLength,
        XlsxError::SheetnameReused(name) => EngineFault::SheetnameReused(name),
        XlsxError::ParameterError(reason) => EngineFault::Parameter(reason),
        XlsxError::SheetnameCannotBeBlank(_) => EngineFault::SheetnameRejected(text),
        XlsxError::SheetnameLengthExceeded(_) => EngineFault::SheetnameRejected(text),
        XlsxError::SheetnameContainsInvalidCharacter(_) => EngineFault::SheetnameRejected(text),
        XlsxError::SheetnameStartsOrEndsWithApostrophe(_) => EngineFault::SheetnameRejected(text),
        _ => EngineFault::Other(text),
    }
}

} // verus!
