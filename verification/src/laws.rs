//! What holds of the facade whatever the calls: laws that relate several
//! operations, proved from the functions that the contracts are stated in.

use vstd::prelude::*;

use crate::calendar::{
    calendar_date, date_error, engine_takes_date, moment_error, writable_date, ExcelDate,
    ExcelDateTime,
};
use crate::engine::lowercase;
use crate::error::ErrorView;
use crate::model::{
    cell_write, exact_integer, fresh_sheet, generated_name, handle_step, in_grid, moment_write,
    name_accepted, name_in_use, named_addition, naming_error, number_written, plain_addition,
    text_write, CellValue, SheetView, SHEET_LIMIT,
};

verus! {

/// The number of calls among `handles` that gave a handle.
pub open spec fn successes(handles: Seq<Option<u32>>) -> nat
    decreases handles.len(),
{
    if handles.len() == 0 {
        0
    } else {
        successes(handles.drop_last()) + if handles.last() is Some {
            1nat
        } else {
            0nat
        }
    }
}

/// Whether `counts` and `handles` tell of one run of calls that add a
/// worksheet, named or not: `counts[k]` worksheets before call `k`,
/// `handles[k]` what it returned, `counts[k + 1]` worksheets after it.
pub open spec fn run_of_additions(handles: Seq<Option<u32>>, counts: Seq<nat>) -> bool {
    &&& counts.len() == handles.len() + 1
    &&& forall|k: int|
        0 <= k < handles.len() ==> handle_step(counts[k], #[trigger] handles[k], counts[k + 1])
}

/// In a run of additions to a document that began with `counts[0]`
/// worksheets, the number of worksheets before call `k` is `counts[0]` plus
/// the number of earlier calls that succeeded.
pub proof fn lemma_count_follows_successes(handles: Seq<Option<u32>>, counts: Seq<nat>, k: int)
    requires
        run_of_additions(handles, counts),
        0 <= k <= handles.len(),
    ensures
        counts[k] == counts[0] + successes(handles.take(k)),
    decreases k,
{
    if k == 0 {
        assert(handles.take(0).len() == 0);
    } else {
        lemma_count_follows_successes(handles, counts, k - 1);
        assert(handles.take(k).drop_last() =~= handles.take(k - 1));
        assert(handles.take(k).last() == handles[k - 1]);
        assert(handle_step(counts[k - 1], handles[k - 1], counts[k - 1 + 1]));
    }
}

/// Handles count the successful additions. In any run of calls that add a
/// worksheet to a new document, each call that succeeds returns the number
/// of calls that succeeded before it, and the document ends with as many
/// worksheets as calls succeeded. So where every call succeeds, call `k`,
/// counted from zero, returns `k`.
pub proof fn lemma_handles_count_additions(handles: Seq<Option<u32>>, counts: Seq<nat>)
    requires
        run_of_additions(handles, counts),
        counts[0] == 0,
    ensures
        counts.last() == successes(handles),
        forall|k: int|
            0 <= k < handles.len() && (#[trigger] handles[k]) is Some ==> handles[k]->Some_0
                == successes(handles.take(k)),
        (forall|k: int| 0 <= k < handles.len() ==> (#[trigger] handles[k]) is Some) ==> forall|
            k: int,
        |
            0 <= k < handles.len() ==> (#[trigger] handles[k]) == Some(k as u32),
{
    lemma_count_follows_successes(handles, counts, handles.len() as int);
    assert(handles.take(handles.len() as int) =~= handles);
    assert forall|k: int|
        0 <= k < handles.len() && (#[trigger] handles[k]) is Some implies handles[k]->Some_0
        == successes(handles.take(k)) by {
        lemma_count_follows_successes(handles, counts, k);
        assert(handle_step(counts[k], handles[k], counts[k + 1]));
    }
    if forall|k: int| 0 <= k < handles.len() ==> (#[trigger] handles[k]) is Some {
        assert forall|k: int| 0 <= k < handles.len() implies (#[trigger] handles[k]) == Some(
            k as u32,
        ) by {
            lemma_all_succeeded(handles.take(k));
            assert(handles.take(k).len() == k);
            assert(handles[k]->Some_0 == successes(handles.take(k)));
        }
    }
}

/// Where every call gave a handle, as many succeeded as were made.
pub proof fn lemma_all_succeeded(handles: Seq<Option<u32>>)
    requires
        forall|k: int| 0 <= k < handles.len() ==> (#[trigger] handles[k]) is Some,
    ensures
        successes(handles) == handles.len(),
    decreases handles.len(),
{
    if handles.len() > 0 {
        lemma_all_succeeded(handles.drop_last());
    }
}

/// A handle that names no worksheet is refused by every write, with the
/// handle in the error, and the document stays as it is.
pub proof fn lemma_missing_handle_is_refused(
    book: Seq<SheetView>,
    handle: u32,
    row: u32,
    col: u16,
    value: CellValue,
    text: Seq<char>,
    at: ExcelDateTime,
    format: Seq<char>,
)
    requires
        handle >= book.len(),
    ensures
        cell_write(book, handle, row, col, value) == (
            Some(ErrorView::WorksheetNotFound(handle)),
            book,
        ),
        text_write(book, handle, row, col, text) == (
            Some(ErrorView::WorksheetNotFound(handle)),
            book,
        ),
        moment_write(book, handle, row, col, at, format) == (
            Some(ErrorView::WorksheetNotFound(handle)),
            book,
        ),
{
}

/// A name that is in use is refused, whatever its letter case. Once a
/// worksheet was added under `name`, a second addition under a name that
/// equals `name` in lower case, and keeps the naming rules, fails with
/// `SheetnameReused`; so does one under `name` itself.
pub proof fn lemma_name_in_use_is_refused(book: Seq<SheetView>, name: Seq<char>, again: Seq<char>)
    requires
        naming_error(book, name) is None,
        name_accepted(again),
        lowercase(again) == lowercase(name),
    ensures
        naming_error(book.push(fresh_sheet(name)), again) == Some(
            ErrorView::SheetnameReused(again),
        ),
        naming_error(book.push(fresh_sheet(name)), name) == Some(ErrorView::SheetnameReused(name)),
{
    let after = book.push(fresh_sheet(name));
    assert(after[book.len() as int].name == name);
    assert(name_in_use(after, again));
    assert(name_in_use(after, name));
}

/// A name that keeps the naming rules is refused as in use exactly if a
/// worksheet has it, letter case aside.
pub proof fn lemma_name_is_refused_iff_in_use(book: Seq<SheetView>, name: Seq<char>)
    requires
        name_accepted(name),
    ensures
        naming_error(book, name) matches Some(ErrorView::SheetnameReused(_)) <==> name_in_use(
            book,
            name,
        ),
        name_in_use(book, name) ==> naming_error(book, name) == Some(
            ErrorView::SheetnameReused(name),
        ),
{
}

/// Below 65,535 worksheets an addition under a generated name never
/// fails: it adds one worksheet at the end, named `Sheet` and its number,
/// without cells, and leaves the others as they are.
pub proof fn lemma_plain_addition_below_limit(book: Seq<SheetView>)
    requires
        book.len() < SHEET_LIMIT,
    ensures
        plain_addition(book).0 is None,
        plain_addition(book).1.len() == book.len() + 1,
        plain_addition(book).1.last() == fresh_sheet(generated_name(book.len() + 1)),
        forall|i: int| 0 <= i < book.len() ==> plain_addition(book).1[i] == book[i],
{
}

/// Below 65,535 worksheets a name that keeps the naming rules and is not in
/// use, letter case aside, is added: one worksheet at the end, under exactly
/// that name, without cells; the others stay as they are.
pub proof fn lemma_free_name_is_added(book: Seq<SheetView>, name: Seq<char>)
    requires
        name_accepted(name),
        !name_in_use(book, name),
        book.len() < SHEET_LIMIT,
    ensures
        named_addition(book, name).0 is None,
        named_addition(book, name).1.len() == book.len() + 1,
        named_addition(book, name).1.last() == fresh_sheet(name),
        forall|i: int| 0 <= i < book.len() ==> named_addition(book, name).1[i] == book[i],
{
}

/// A call that adds a worksheet and fails leaves the document as it is.
pub proof fn lemma_failed_addition_adds_nothing(book: Seq<SheetView>, name: Seq<char>)
    ensures
        plain_addition(book).0 is Some ==> plain_addition(book).1 == book,
        named_addition(book, name).0 is Some ==> named_addition(book, name).1 == book,
{
}

/// An integer up to 2^53 in magnitude is in the cell as it was written.
pub proof fn lemma_exact_integer_is_kept(value: i64)
    requires
        exact_integer(value),
    ensures
        number_written(value) == value,
{
}

/// A date has an error exactly if no cell can hold it, and a moment
/// likewise.
pub proof fn lemma_error_iff_not_writable(at: ExcelDateTime)
    ensures
        date_error(at.year, at.month, at.day) is None <==> writable_date(
            at.year as int,
            at.month as int,
            at.day as int,
        ),
        moment_error(at) is None <==> at.writable(),
{
}

/// The days that the engine would take and the calendar lacks: the 29th of
/// February 1900, and no other.
pub proof fn lemma_only_one_day_differs(year: u16, month: u8, day: u8)
    ensures
        engine_takes_date(year as int, month as int, day as int) && !calendar_date(
            year as int,
            month as int,
            day as int,
        ) <==> year == 1900 && month == 2 && day == 29,
{
}

/// A date that no cell can hold is refused with `DateError`, and the
/// document, the aimed cell with it, stays as it is. The same holds of a
/// moment.
pub proof fn lemma_unwritable_moment_is_refused(
    book: Seq<SheetView>,
    handle: u32,
    row: u32,
    col: u16,
    at: ExcelDateTime,
    format: Seq<char>,
)
    requires
        handle < book.len(),
        !at.writable(),
    ensures
        moment_write(book, handle, row, col, at, format).0 matches Some(ErrorView::DateError(_)),
        moment_write(book, handle, row, col, at, format).1 == book,
{
}

/// A date is a moment at midnight: no cell can hold the date exactly if none
/// can hold that moment.
pub proof fn lemma_date_is_moment_at_midnight(date: ExcelDate)
    ensures
        date.writable() <==> date.moment().writable(),
{
}

/// The last write to a place wins: two writes to one cell leave the
/// document as the second alone would.
pub proof fn lemma_last_write_wins(
    book: Seq<SheetView>,
    handle: u32,
    row: u32,
    col: u16,
    first: CellValue,
    second: CellValue,
)
    ensures
        cell_write(cell_write(book, handle, row, col, first).1, handle, row, col, second)
            == cell_write(book, handle, row, col, second),
{
    if handle < book.len() && in_grid(row, col) {
        let at = handle as int;
        let once = cell_write(book, handle, row, col, first).1;
        let twice = cell_write(once, handle, row, col, second).1;
        let direct = cell_write(book, handle, row, col, second).1;
        assert(once[at].cells.insert((row, col), second) =~= book[at].cells.insert(
            (row, col),
            second,
        ));
        assert(twice =~= direct);
    }
}

} // verus!
