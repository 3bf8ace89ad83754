//! The closed set of errors that leaves the facade, and how the engine's
//! errors are folded into it.

use vstd::prelude::*;
use vstd::string::StringExecFns;

use crate::engine::{classify, fault_of};

verus! {

/// Everything that can go wrong, as the caller sees it. Each kind carries a
/// readable message, but for `WorksheetNotFound`, which carries the handle
/// that named no worksheet.
#[derive(Debug, Clone, PartialEq, Eq)]
pub enum XlsxWriterError {
    IoError(String),
    RowColumnLimitError(String),
    MaxStringLengthExceeded(String),
    SheetnameReused(String),
    ParameterError(String),
    WorksheetNotFound(u32),
    DateError(String),
    Unknown(String),
}

/// An error with its message as a sequence of characters.
pub ghost enum ErrorView {
    IoError(Seq<char>),
    RowColumnLimitError(Seq<char>),
    MaxStringLengthExceeded(Seq<char>),
    SheetnameReused(Seq<char>),
    ParameterError(Seq<char>),
    WorksheetNotFound(u32),
    DateError(Seq<char>),
    Unknown(Seq<char>),
}

impl View for XlsxWriterError {
    type V = ErrorView;

    open spec fn view(&self) -> ErrorView {
        match self {
            XlsxWriterError::IoError(text) => ErrorView::IoError(text@),
            XlsxWriterError::RowColumnLimitError(text) => ErrorView::RowColumnLimitError(text@),
            XlsxWriterError::MaxStringLengthExceeded(text) => ErrorView::MaxStringLengthExceeded(
                text@,
            ),
            XlsxWriterError::SheetnameReused(text) => ErrorView::SheetnameReused(text@),
            XlsxWriterError::ParameterError(text) => ErrorView::ParameterError(text@),
            XlsxWriterError::WorksheetNotFound(handle) => ErrorView::WorksheetNotFound(*handle),
            XlsxWriterError::DateError(text) => ErrorView::DateError(text@),
            XlsxWriterError::Unknown(text) => ErrorView::Unknown(text@),
        }
    }
}

/// What the engine reported, told apart by kind. The kinds that the facade
/// does not name are `Other`, with the engine's own description of them.
#[derive(Debug, Clone, PartialEq, Eq)]
pub enum EngineFault {
    /// The file system refused; the text is the system's.
    Io(String),
    /// A row or column beyond the grid.
    RowColumnLimit,
    /// A text too long for one cell.
    MaxStringLength,
    /// A worksheet name that is in use; the text is the name.
    SheetnameReused(String),
    /// A parameter that the engine refused; the text says why.
    Parameter(String),
    /// A worksheet name that breaks a naming rule; the text is the engine's
    /// description.
    SheetnameRejected(String),
    /// Any other kind, with the engine's description.
    Other(String),
}

/// The error that the caller sees for each kind of engine fault.
pub open spec fn translated(fault: EngineFault) -> ErrorView {
    match fault {
        EngineFault::Io(text) => ErrorView::IoError(text@),
        EngineFault::RowColumnLimit => ErrorView::RowColumnLimitError(
            "Row or column index out of bounds"@,
        ),
        EngineFault::MaxStringLength => ErrorView::MaxStringLengthExceeded(
            "String exceeds 32,767 characters"@,
        ),
        EngineFault::SheetnameReused(name) => ErrorView::SheetnameReused(name@),
        EngineFault::Parameter(text) => ErrorView::ParameterError(text@),
        EngineFault::SheetnameRejected(text) => ErrorView::ParameterError(text@),
        EngineFault::Other(text) => ErrorView::Unknown(text@),
    }
}

/// The error of a result, as the contracts see it; `None` for success.
pub open spec fn error_of<T>(r: Result<T, XlsxWriterError>) -> Option<ErrorView> {
    match r {
        Ok(_) => None,
        Err(e) => Some(e@),
    }
}

/// The handle of a result, as the contracts see it; `None` for failure.
pub open spec fn handle_of(r: Result<u32, XlsxWriterError>) -> Option<u32> {
    match r {
        Ok(handle) => Some(handle),
        Err(_) => None,
    }
}

impl XlsxWriterError {
    /// Folds one engine fault into the closed set.
    pub fn from_fault(fault: EngineFault) -> (r: XlsxWriterError)
        ensures
            r@ == translated(fault),
    {
        match fault {
            EngineFault::Io(text) => XlsxWriterError::IoError(text),
            EngineFault::RowColumnLimit => XlsxWriterError::RowColumnLimitError(
                String::from_str("Row or column index out of bounds"),
            ),
            EngineFault::MaxStringLength => XlsxWriterError::MaxStringLengthExceeded(
                String::from_str("String exceeds 32,767 characters"),
            ),
            EngineFault::SheetnameReused(name) => XlsxWriterError::SheetnameReused(name),
            EngineFault::Parameter(text) => XlsxWriterError::ParameterError(text),
            EngineFault::SheetnameRejected(text) => XlsxWriterError::ParameterError(text),
            EngineFault::Other(text) => XlsxWriterError::Unknown(text),
        }
    }

    /// Folds an engine error into the closed set: the engine's error value
    /// never leaves the facade.
    pub fn from(error: rust_xlsxwriter::XlsxError) -> (r: XlsxWriterError)
        ensures
            r@ == translated(fault_of(error)),
    {
        XlsxWriterError::from_fault(classify(error))
    }
}

} // verus!
