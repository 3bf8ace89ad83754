//! The mathematical picture of a document that the contracts speak of.

use vstd::prelude::*;

use crate::calendar::{moment_error, ExcelDateTime};
use crate::engine::{float_of, lowercase, name_refusal};
use crate::error::ErrorView;

verus! {

/// Rows of a worksheet are numbered from zero up to, and excluding, this.
pub const ROW_LIMIT: u32 = 1_048_576;

/// Columns of a worksheet are numbered from zero up to, and excluding, this.
pub const COLUMN_LIMIT: u16 = 16_384;

/// The largest number of characters that one text cell can hold.
pub const TEXT_LIMIT: usize = 32_767;

/// The largest number of characters in a worksheet name.
pub const NAME_LIMIT: usize = 31;

/// The number of worksheets that the engine can number.
pub const SHEET_LIMIT: usize = 65_535;

/// The magnitude up to which every integer is a 64-bit binary float: 2^53.
pub const EXACT_LIMIT: i64 = 9_007_199_254_740_992;

/// What one cell holds.
pub ghost enum CellValue {
    /// A text cell.
    Text(Seq<char>),
    /// A numeric cell whose 64-bit binary float is this integer.
    Number(int),
    /// A boolean cell.
    Boolean(bool),
    /// A date or date-time cell, shown with the given number format.
    Moment { at: ExcelDateTime, format: Seq<char> },
}

/// One worksheet: its name and its written cells, keyed by (row, column).
pub ghost struct SheetView {
    pub name: Seq<char>,
    pub cells: Map<(u32, u16), CellValue>,
}

/// A worksheet's cells before anything is written.
pub open spec fn no_cells() -> Map<(u32, u16), CellValue> {
    Map::empty()
}

/// Whether the integer is a 64-bit binary float as it stands.
pub open spec fn exact_integer(value: i64) -> bool {
    -EXACT_LIMIT <= value <= EXACT_LIMIT
}

/// The number in a cell that `value` was written to: `value` itself where
/// a 64-bit binary float can hold it, and otherwise the integer that the
/// cast of `value` to such a float gives.
pub open spec fn number_written(value: i64) -> int {
    if exact_integer(value) {
        value as int
    } else {
        float_of(value)
    }
}

/// The character of a decimal digit.
pub open spec fn digit(d: nat) -> char {
    if d == 0 {
        '0'
    } else if d == 1 {
        '1'
    } else if d == 2 {
        '2'
    } else if d == 3 {
        '3'
    } else if d == 4 {
        '4'
    } else if d == 5 {
        '5'
    } else if d == 6 {
        '6'
    } else if d == 7 {
        '7'
    } else if d == 8 {
        '8'
    } else {
        '9'
    }
}

/// A number in decimal digits, without leading zeros.
pub open spec fn decimal(n: nat) -> Seq<char>
    decreases n,
{
    if n < 10 {
        seq![digit(n)]
    } else {
        decimal(n / 10).push(digit(n % 10))
    }
}

/// The name that the engine generates for the worksheet with this number,
/// counted from one: `Sheet1`, `Sheet2` and so on.
pub open spec fn generated_name(number: nat) -> Seq<char> {
    "Sheet"@ + decimal(number)
}

/// Whether (row, column) lies inside the grid.
pub open spec fn in_grid(row: u32, col: u16) -> bool {
    row < ROW_LIMIT && col < COLUMN_LIMIT
}

/// The characters that no worksheet name may hold.
pub open spec fn forbidden_in_name(c: char) -> bool {
    c == '*' || c == '?' || c == ':' || c == '[' || c == ']' || c == '\\' || c == '/'
}

/// Whether the engine takes `name` as a worksheet name: it is not blank, has
/// at most 31 characters, none of them forbidden, and neither starts nor ends
/// with an apostrophe.
pub open spec fn name_accepted(name: Seq<char>) -> bool {
    &&& 0 < name.len() <= NAME_LIMIT
    &&& forall|i: int| 0 <= i < name.len() ==> !forbidden_in_name(#[trigger] name[i])
    &&& name.first() != '\''
    &&& name.last() != '\''
}

/// The worksheet `sheet` with `value` written at (row, column); an earlier
/// value at that place is replaced.
pub open spec fn with_cell(sheet: SheetView, row: u32, col: u16, value: CellValue) -> SheetView {
    SheetView { name: sheet.name, cells: sheet.cells.insert((row, col), value) }
}

/// Whether a worksheet of the document has the name, letter case aside.
pub open spec fn name_in_use(book: Seq<SheetView>, name: Seq<char>) -> bool {
    exists|i: int| 0 <= i < book.len() && lowercase((#[trigger] book[i]).name) == lowercase(name)
}

/// Whether two worksheets of the document have the same name, letter case
/// aside.
pub open spec fn names_repeat(book: Seq<SheetView>) -> bool {
    exists|i: int, j: int|
        0 <= i < j < book.len() && lowercase((#[trigger] book[i]).name) == lowercase(
            (#[trigger] book[j]).name,
        )
}

/// A worksheet that has a name and no cells yet.
pub open spec fn fresh_sheet(name: Seq<char>) -> SheetView {
    SheetView { name, cells: no_cells() }
}

/// How a call that adds a worksheet moves the number of worksheets: a call
/// that gives a handle gives the number before it and raises it by one; a
/// call that fails leaves it.
pub open spec fn handle_step(before: nat, handle: Option<u32>, after: nat) -> bool {
    match handle {
        Some(h) => h == before && after == before + 1,
        None => after == before,
    }
}

/// Why a named worksheet cannot be added, if it cannot: the name breaks a
/// naming rule, or is in use, or the document is full; in that order.
pub open spec fn naming_error(book: Seq<SheetView>, name: Seq<char>) -> Option<ErrorView> {
    if !name_accepted(name) {
        Some(ErrorView::ParameterError(name_refusal(name)))
    } else if name_in_use(book, name) {
        Some(ErrorView::SheetnameReused(name))
    } else if book.len() >= SHEET_LIMIT {
        Some(ErrorView::Unknown("Worksheet limit reached"@))
    } else {
        None
    }
}

/// The error for a worksheet under a generated name, and the document after
/// the call: below 65,535 worksheets one is added, named `Sheet` and its
/// number counted from one; a full document stays as it is.
pub open spec fn plain_addition(book: Seq<SheetView>) -> (Option<ErrorView>, Seq<SheetView>) {
    if book.len() >= SHEET_LIMIT {
        (Some(ErrorView::Unknown("Worksheet limit reached"@)), book)
    } else {
        (None, book.push(fresh_sheet(generated_name(book.len() + 1))))
    }
}

/// The error for a worksheet under a given name, and the document after the
/// call: the worksheet is added, with the name as it was given, unless
/// something stands against the name.
pub open spec fn named_addition(book: Seq<SheetView>, name: Seq<char>) -> (
    Option<ErrorView>,
    Seq<SheetView>,
) {
    if naming_error(book, name) is Some {
        (naming_error(book, name), book)
    } else {
        (None, book.push(fresh_sheet(name)))
    }
}

/// The error for a cell value that can be written wherever the grid has
/// room, and the document after the call.
pub open spec fn cell_write(
    book: Seq<SheetView>,
    handle: u32,
    row: u32,
    col: u16,
    value: CellValue,
) -> (Option<ErrorView>, Seq<SheetView>) {
    if handle >= book.len() {
        (Some(ErrorView::WorksheetNotFound(handle)), book)
    } else if !in_grid(row, col) {
        (Some(ErrorView::RowColumnLimitError("Row or column index out of bounds"@)), book)
    } else {
        (None, book.update(handle as int, with_cell(book[handle as int], row, col, value)))
    }
}

/// The error for a text, and the document after the call. An empty text
/// is passed over, wherever it is aimed; the place is tested before the
/// length.
pub open spec fn text_write(
    book: Seq<SheetView>,
    handle: u32,
    row: u32,
    col: u16,
    text: Seq<char>,
) -> (Option<ErrorView>, Seq<SheetView>) {
    if handle >= book.len() {
        (Some(ErrorView::WorksheetNotFound(handle)), book)
    } else if text.len() == 0 {
        (None, book)
    } else if in_grid(row, col) && text.len() > TEXT_LIMIT {
        (Some(ErrorView::MaxStringLengthExceeded("String exceeds 32,767 characters"@)), book)
    } else {
        cell_write(book, handle, row, col, CellValue::Text(text))
    }
}

/// The error for a date or date-time, and the document after the call: the
/// worksheet is looked up first, then the moment is tested, then the place.
pub open spec fn moment_write(
    book: Seq<SheetView>,
    handle: u32,
    row: u32,
    col: u16,
    at: ExcelDateTime,
    format: Seq<char>,
) -> (Option<ErrorView>, Seq<SheetView>) {
    if handle >= book.len() {
        (Some(ErrorView::WorksheetNotFound(handle)), book)
    } else if moment_error(at) is Some {
        (Some(ErrorView::DateError(moment_error(at)->Some_0)), book)
    } else {
        cell_write(book, handle, row, col, CellValue::Moment { at, format })
    }
}

} // verus!
