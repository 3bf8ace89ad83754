//! The workbook facade: one engine document, reached only through calls
//! that check the worksheet handle first and fold every engine error into
//! the closed set.

use rust_xlsxwriter::Worksheet;
use vstd::prelude::*;
use vstd::string::StringExecFns;

use crate::calendar::{ExcelDate, ExcelDateTime, DATETIME_FORMAT, DATE_FORMAT};
use crate::calendar::time_of_day;
use crate::engine::{
    append_sheet, format_with, loose_sheet, lowercase, lowered, moment_of, name_of, new_document,
    put_boolean, put_integer, put_moment, put_text, rename_sheet, render, rendering, sheet_at,
    sheet_cells, sheet_name, sheet_total, sheets, sheets_numbered, Document, SerialDate,
};
use crate::error::{error_of, handle_of, translated, ErrorView, XlsxWriterError};
use crate::model::{
    cell_write, fresh_sheet, generated_name, handle_step, in_grid, moment_write, name_in_use,
    named_addition, names_repeat, number_written, plain_addition, text_write, with_cell,
    CellValue, SheetView, SHEET_LIMIT,
};

verus! {

/// A worksheet of the engine as the contracts see it.
pub open spec fn sheet_view(sheet: Worksheet) -> SheetView {
    SheetView { name: sheet_name(sheet), cells: sheet_cells(sheet) }
}

/// A spreadsheet document under construction. Worksheets are addressed by
/// handle: the number of worksheets that the document held when the
/// worksheet was added.
pub struct Workbook {
    inner: Document,
}

impl View for Workbook {
    type V = Seq<SheetView>;

    closed spec fn view(&self) -> Seq<SheetView> {
        sheets(self.inner).map_values(|sheet: Worksheet| sheet_view(sheet))
    }
}

impl Workbook {
    /// The facade's invariant: every worksheet of the document was added
    /// through the facade, so the engine has numbered exactly those.
    pub closed spec fn wf(&self) -> bool {
        sheets_numbered(self.inner) == sheets(self.inner).len()
    }

    /// What saving the document gives: the bytes of the file, or the error
    /// that the engine's error is folded into.
    pub closed spec fn rendering(&self) -> Result<Seq<u8>, ErrorView> {
        match rendering(self.inner) {
            Ok(bytes) => Ok(bytes),
            Err(fault) => Err(translated(fault)),
        }
    }

    /// An empty document.
    pub fn new() -> (book: Workbook)
        ensures
            book.wf(),
            book@.len() == 0,
    {
        Workbook { inner: new_document() }
    }

    /// The number of worksheets.
    pub fn worksheet_count(&mut self) -> (count: u32)
        requires
            old(self).wf(),
        ensures
            count == old(self)@.len(),
            *final(self) == *old(self),
    {
        sheet_total(&mut self.inner) as u32
    }

    /// The worksheet behind a handle, to write to. A handle that names no
    /// worksheet is refused, and nothing is changed.
    pub fn worksheet_mut(&mut self, sheet_index: u32) -> (r: Result<
        &mut Worksheet,
        XlsxWriterError,
    >)
        requires
            old(self).wf(),
        ensures
            final(self).wf(),
            r is Ok <==> sheet_index < old(self)@.len(),
            r is Ok ==> sheet_view(*r->Ok_0) == old(self)@[sheet_index as int],
            r is Ok ==> final(self)@ == old(self)@.update(
                sheet_index as int,
                sheet_view(*final(r->Ok_0)),
            ),
            r is Err ==> r->Err_0@ == ErrorView::WorksheetNotFound(sheet_index),
            r is Err ==> *final(self) == *old(self),
    {
        match sheet_at(&mut self.inner, sheet_index as usize) {
            Ok(sheet) => Ok(sheet),
            Err(_) => Err(XlsxWriterError::WorksheetNotFound(sheet_index)),
        }
    }

    /// Whether a worksheet has the name, letter case aside. The names are
    /// compared in lower case, as the engine compares them when it saves.
    fn name_taken(&mut self, name: &str) -> (taken: bool)
        requires
            old(self).wf(),
        ensures
            final(self).wf(),
            final(self)@ == old(self)@,
            taken == name_in_use(old(self)@, name@),
    {
        let wanted = lowered(name);
        let total = sheet_total(&mut self.inner);
        let mut index: usize = 0;
        while index < total
            invariant
                self.wf(),
                self@ == old(self)@,
                total == self@.len(),
                index <= total,
                wanted@ == lowercase(name@),
                forall|i: int|
                    0 <= i < index ==> lowercase((#[trigger] self@[i]).name) != lowercase(name@),
            decreases total - index,
        {
            let clash = match sheet_at(&mut self.inner, index) {
                Ok(sheet) => {
                    let held = name_of(sheet);
                    assert(held@ == old(self)@[index as int].name);
                    lowered(held.as_str()) == wanted
                },
                Err(_) => false,
            };
            assert(self@ =~= old(self)@);
            if clash {
                return true;
            }
            index += 1;
        }
        false
    }

    /// Adds a worksheet under the name that the engine generates, `Sheet`
    /// and the worksheet's number counted from one, and gives its handle.
    /// The engine can number 65,535 worksheets; a document that holds as
    /// many takes no more.
    pub fn add_worksheet(&mut self) -> (r: Result<u32, XlsxWriterError>)
        requires
            old(self).wf(),
        ensures
            final(self).wf(),
            r is Ok <==> old(self)@.len() < SHEET_LIMIT,
            r is Ok ==> r->Ok_0 == old(self)@.len(),
            error_of(r) == plain_addition(old(self)@).0,
            final(self)@ == plain_addition(old(self)@).1,
            handle_step(old(self)@.len(), handle_of(r), final(self)@.len()),
    {
        let count = sheet_total(&mut self.inner);
        if count >= SHEET_LIMIT {
            return Err(XlsxWriterError::Unknown(String::from_str("Worksheet limit reached")));
        }
        let _ = append_sheet(&mut self.inner);
        assert(final(self)@ =~= plain_addition(old(self)@).1);
        Ok(count as u32)
    }

    /// Adds a worksheet under the given name, and gives its handle. The
    /// name must keep the engine's naming rules and differ, letter case
    /// aside, from the name of every worksheet there is. The name is tried
    /// on a worksheet of its own first, so that a call that fails adds
    /// nothing.
    pub fn add_worksheet_with_name(&mut self, name: String) -> (r: Result<u32, XlsxWriterError>)
        requires
            old(self).wf(),
        ensures
            final(self).wf(),
            r is Ok ==> r->Ok_0 == old(self)@.len(),
            error_of(r) == named_addition(old(self)@, name@).0,
            final(self)@ == named_addition(old(self)@, name@).1,
            handle_step(old(self)@.len(), handle_of(r), final(self)@.len()),
    {
        let mut scratch = loose_sheet();
        match rename_sheet(&mut scratch, name.as_str()) {
            Ok(()) => {},
            Err(error) => {
                return Err(XlsxWriterError::from(error));
            },
        }
        if self.name_taken(name.as_str()) {
            return Err(XlsxWriterError::SheetnameReused(name));
        }
        let count = sheet_total(&mut self.inner);
        if count >= SHEET_LIMIT {
            return Err(XlsxWriterError::Unknown(String::from_str("Worksheet limit reached")));
        }
        let sheet = append_sheet(&mut self.inner);
        match rename_sheet(sheet, name.as_str()) {
            Ok(()) => {
                assert(final(self)@ =~= named_addition(old(self)@, name@).1);
                Ok(count as u32)
            },
            Err(error) => Err(XlsxWriterError::from(error)),
        }
    }

    /// Writes a text. An empty text is passed over.
    pub fn write_string(&mut self, sheet_index: u32, row: u32, col: u16, value: String) -> (r:
        Result<(), XlsxWriterError>)
        requires
            old(self).wf(),
        ensures
            final(self).wf(),
            error_of(r) == text_write(old(self)@, sheet_index, row, col, value@).0,
            final(self)@ == text_write(old(self)@, sheet_index, row, col, value@).1,
            sheet_index >= old(self)@.len() ==> *final(self) == *old(self),
    {
        let sheet = match self.worksheet_mut(sheet_index) {
            Ok(sheet) => sheet,
            Err(error) => {
                return Err(error);
            },
        };
        let r = match put_text(sheet, row, col, value.as_str()) {
            Ok(()) => Ok(()),
            Err(error) => Err(XlsxWriterError::from(error)),
        };
        assert(final(self)@ =~= text_write(old(self)@, sheet_index, row, col, value@).1);
        r
    }

    /// Writes an integer as a number. The cell holds a 64-bit binary float:
    /// the integer itself up to 2^53 in magnitude, and beyond that the float
    /// that the cast gives.
    pub fn write_integer(&mut self, sheet_index: u32, row: u32, col: u16, value: i64) -> (r:
        Result<(), XlsxWriterError>)
        requires
            old(self).wf(),
        ensures
            final(self).wf(),
            error_of(r) == cell_write(
                old(self)@,
                sheet_index,
                row,
                col,
                CellValue::Number(number_written(value)),
            ).0,
            final(self)@ == cell_write(
                old(self)@,
                sheet_index,
                row,
                col,
                CellValue::Number(number_written(value)),
            ).1,
            sheet_index >= old(self)@.len() ==> *final(self) == *old(self),
    {
        let sheet = match self.worksheet_mut(sheet_index) {
            Ok(sheet) => sheet,
            Err(error) => {
                return Err(error);
            },
        };
        let r = match put_integer(sheet, row, col, value) {
            Ok(()) => Ok(()),
            Err(error) => Err(XlsxWriterError::from(error)),
        };
        assert(final(self)@ =~= cell_write(
            old(self)@,
            sheet_index,
            row,
            col,
            CellValue::Number(number_written(value)),
        ).1);
        r
    }

    /// Writes a boolean.
    pub fn write_boolean(&mut self, sheet_index: u32, row: u32, col: u16, value: bool) -> (r:
        Result<(), XlsxWriterError>)
        requires
            old(self).wf(),
        ensures
            final(self).wf(),
            error_of(r) == cell_write(
                old(self)@,
                sheet_index,
                row,
                col,
                CellValue::Boolean(value),
            ).0,
            final(self)@ == cell_write(
                old(self)@,
                sheet_index,
                row,
                col,
                CellValue::Boolean(value),
            ).1,
            sheet_index >= old(self)@.len() ==> *final(self) == *old(self),
    {
        let sheet = match self.worksheet_mut(sheet_index) {
            Ok(sheet) => sheet,
            Err(error) => {
                return Err(error);
            },
        };
        let r = match put_boolean(sheet, row, col, value) {
            Ok(()) => Ok(()),
            Err(error) => Err(XlsxWriterError::from(error)),
        };
        assert(final(self)@ =~= cell_write(
            old(self)@,
            sheet_index,
            row,
            col,
            CellValue::Boolean(value),
        ).1);
        r
    }

    /// Writes a date, shown as `yyyy-mm-dd`. A date that no cell can hold
    /// is refused, and nothing is written.
    pub fn write_date(&mut self, sheet_index: u32, row: u32, col: u16, date: ExcelDate) -> (r:
        Result<(), XlsxWriterError>)
        requires
            old(self).wf(),
        ensures
            final(self).wf(),
            error_of(r) == moment_write(
                old(self)@,
                sheet_index,
                row,
                col,
                date.moment(),
                DATE_FORMAT@,
            ).0,
            final(self)@ == moment_write(
                old(self)@,
                sheet_index,
                row,
                col,
                date.moment(),
                DATE_FORMAT@,
            ).1,
            sheet_index >= old(self)@.len() ==> *final(self) == *old(self),
    {
        let sheet = match self.worksheet_mut(sheet_index) {
            Ok(sheet) => sheet,
            Err(error) => {
                return Err(error);
            },
        };
        let r = match date.encode() {
            Ok(serial) => stamp(sheet, row, col, &serial, DATE_FORMAT),
            Err(error) => Err(error),
        };
        assert(final(self)@ =~= moment_write(
            old(self)@,
            sheet_index,
            row,
            col,
            date.moment(),
            DATE_FORMAT@,
        ).1);
        r
    }

    /// Writes a date with a time of day, shown as `yyyy-mm-dd hh:mm:ss`. A
    /// moment that no cell can hold is refused, and nothing is written.
    pub fn write_datetime(
        &mut self,
        sheet_index: u32,
        row: u32,
        col: u16,
        datetime: ExcelDateTime,
    ) -> (r: Result<(), XlsxWriterError>)
        requires
            old(self).wf(),
        ensures
            final(self).wf(),
            error_of(r) == moment_write(
                old(self)@,
                sheet_index,
                row,
                col,
                datetime,
                DATETIME_FORMAT@,
            ).0,
            final(self)@ == moment_write(
                old(self)@,
                sheet_index,
                row,
                col,
                datetime,
                DATETIME_FORMAT@,
            ).1,
            sheet_index >= old(self)@.len() ==> *final(self) == *old(self),
    {
        let sheet = match self.worksheet_mut(sheet_index) {
            Ok(sheet) => sheet,
            Err(error) => {
                return Err(error);
            },
        };
        let r = match datetime.encode() {
            Ok(serial) => stamp(sheet, row, col, &serial, DATETIME_FORMAT),
            Err(error) => Err(error),
        };
        assert(final(self)@ =~= moment_write(
            old(self)@,
            sheet_index,
            row,
            col,
            datetime,
            DATETIME_FORMAT@,
        ).1);
        r
    }

    /// Writes a date, shown in the number format that the caller gives. The
    /// format goes to the engine as it is.
    pub fn write_date_with_format(
        &mut self,
        sheet_index: u32,
        row: u32,
        col: u16,
        date: ExcelDate,
        format: String,
    ) -> (r: Result<(), XlsxWriterError>)
        requires
            old(self).wf(),
        ensures
            final(self).wf(),
            error_of(r) == moment_write(
                old(self)@,
                sheet_index,
                row,
                col,
                date.moment(),
                format@,
            ).0,
            final(self)@ == moment_write(
                old(self)@,
                sheet_index,
                row,
                col,
                date.moment(),
                format@,
            ).1,
            sheet_index >= old(self)@.len() ==> *final(self) == *old(self),
    {
        let sheet = match self.worksheet_mut(sheet_index) {
            Ok(sheet) => sheet,
            Err(error) => {
                return Err(error);
            },
        };
        let r = match date.encode() {
            Ok(serial) => stamp(sheet, row, col, &serial, format.as_str()),
            Err(error) => Err(error),
        };
        assert(final(self)@ =~= moment_write(
            old(self)@,
            sheet_index,
            row,
            col,
            date.moment(),
            format@,
        ).1);
        r
    }

    /// The whole document as the bytes of an xlsx file, or the engine's
    /// error, folded. The engine gives a document without worksheets one
    /// worksheet before it writes; apart from that the document stays as it
    /// is. Two worksheet names that are equal, letter case aside, make the
    /// call fail.
    pub fn save_to_buffer(&mut self) -> (r: Result<Vec<u8>, XlsxWriterError>)
        requires
            old(self).wf(),
        ensures
            final(self).wf(),
            old(self).rendering() == match r {
                Ok(bytes) => Ok(bytes@),
                Err(error) => Err(error@),
            },
            names_repeat(old(self)@) ==> r is Err && r->Err_0@ is SheetnameReused,
            old(self)@.len() != 0 ==> final(self)@ == old(self)@,
            old(self)@.len() == 0 ==> final(self)@ == seq![fresh_sheet(generated_name(1))],
    {
        proof {
            if names_repeat(old(self)@) {
                let (i, j) = choose|i: int, j: int|
                    0 <= i < j < old(self)@.len() && lowercase((#[trigger] old(self)@[i]).name)
                        == lowercase((#[trigger] old(self)@[j]).name);
                assert(lowercase(sheet_name(sheets(old(self).inner)[i])) == lowercase(
                    sheet_name(sheets(old(self).inner)[j]),
                ));
            }
        }
        let r = match render(&mut self.inner) {
            Ok(bytes) => Ok(bytes),
            Err(error) => Err(XlsxWriterError::from(error)),
        };
        assert(old(self)@.len() != 0 ==> final(self)@ =~= old(self)@);
        assert(old(self)@.len() == 0 ==> final(self)@ =~= seq![fresh_sheet(generated_name(1))]);
        r
    }
}

/// Writes an encoded date into a worksheet, with a format that sets the
/// number format and nothing else.
fn stamp(sheet: &mut Worksheet, row: u32, col: u16, serial: &SerialDate, code: &str) -> (r: Result<
    (),
    XlsxWriterError,
>)
    requires
        time_of_day(moment_of(*serial)),
    ensures
        r is Ok <==> in_grid(row, col),
        r is Err ==> r->Err_0@ == ErrorView::RowColumnLimitError(
            "Row or column index out of bounds"@,
        ),
        sheet_view(*final(sheet)) == if in_grid(row, col) {
            with_cell(
                sheet_view(*old(sheet)),
                row,
                col,
                CellValue::Moment { at: moment_of(*serial), format: code@ },
            )
        } else {
            sheet_view(*old(sheet))
        },
{
    let format = format_with(code);
    match put_moment(sheet, row, col, serial, &format) {
        Ok(()) => Ok(()),
        Err(error) => Err(XlsxWriterError::from(error)),
    }
}

} // verus!